//! A restricted multi-producer, single-consumer, non-blocking, unbounded
//! channel with a type-preserving transform on the producer side.
//!
//! The queue itself is the one piece of shared mutable state in the runtime
//! and lives in an outside channel behind trusted wrappers. Everything a
//! sender does to a value on its way to that queue — the transform chain built
//! by `map_input` and `map_effect` — is verified: each sender endpoint carries
//! a specification-level relation `translates` saying which raw values a send
//! may deliver into its underlying channel, and the contracts of `map_input`
//! and `map_effect` pin that relation down exactly.

use vstd::prelude::*;
use std::marker::PhantomData;
use std::sync::Arc;
use crate::step::Step;

verus! {

/// The producing half of the outside channel. Opaque to the verifier: values
/// of it are compared only for identity, which is how sharing one queue among
/// many endpoints is expressed.
#[verifier::external_body]
#[verifier::reject_recursive_types(T)]
pub struct RawSender<T> {
    inner: crossbeam_channel::Sender<T>,
}

/// The consuming half of the outside channel, opaque to the verifier.
#[verifier::external_body]
#[verifier::reject_recursive_types(T)]
pub struct RawReceiver<T> {
    inner: crossbeam_channel::Receiver<T>,
}

/// Relies on crossbeam_channel::unbounded: creates a linked pair of endpoints
/// of a channel of unbounded capacity.
#[verifier::external_body]
fn raw_unbounded<T>() -> (RawSender<T>, RawReceiver<T>) {
    let (sender, receiver) = crossbeam_channel::unbounded();
    (RawSender { inner: sender }, RawReceiver { inner: receiver })
}

/// Relies on crossbeam_channel::Sender::send: on an unbounded channel it
/// never blocks and enqueues the value, failing only when the paired receiver
/// has been destroyed. That case is a structural violation of the runtime's
/// ownership discipline, so it aborts (the `unwrap`) rather than surfacing a
/// recoverable error.
#[verifier::external_body]
fn raw_send<T>(sender: &RawSender<T>, t: T) {
    sender.inner.send(t).unwrap()
}

/// Relies on crossbeam_channel::Receiver::try_recv: without blocking, either
/// dequeues the next value or reports the channel empty. A disconnected
/// channel (every sender destroyed while values may still be expected) is the
/// same structural violation as in `raw_send` and aborts (the `unwrap`).
#[verifier::external_body]
fn raw_try_recv<T>(receiver: &RawReceiver<T>) -> (r: Option<T>) {
    match receiver.inner.try_recv() {
        Ok(t) => Some(t),
        Err(crossbeam_channel::TryRecvError::Empty) => None,
        Err(e) => Some(Result::<T, crossbeam_channel::TryRecvError>::Err(e).unwrap()),
    }
}

/// Relies on std's Arc::clone: the returned handle refers to the same shared
/// value as the argument.
#[verifier::external_body]
fn arc_clone<T>(arc: &Arc<T>) -> (r: Arc<T>)
    ensures
        r == *arc,
{
    Arc::clone(arc)
}

/// Relies on std's Arc deref: borrowing through the handle yields the shared
/// value itself.
#[verifier::external_body]
fn arc_ref<T>(arc: &Arc<T>) -> (r: &T)
    ensures
        *r == **arc,
{
    arc.as_ref()
}

/// A delivery target behind a sender endpoint: the raw channel itself, or a
/// transform stage in front of another target.
///
/// `Base` is the element type of the raw channel the target ultimately
/// delivers into; `base` is that raw endpoint, shared (never copied at the
/// channel's level) by every clone and every mapped derivative, so equality of
/// `base` means delivery to the same queue. `translates` relates a value
/// handed to this target to the raw values its send may enqueue, and
/// `accepts` collects the preconditions of the transform chain.
pub trait SenderInner<T> {
    type Base;

    spec fn base(&self) -> RawSender<Self::Base>;

    spec fn translates(&self, t: T, b: Self::Base) -> bool;

    spec fn accepts(&self, t: T) -> bool;

    fn send(&self, t: T)
        requires
            self.accepts(t),
    ;
}

impl<T> SenderInner<T> for RawSender<T> {
    type Base = T;

    closed spec fn base(&self) -> RawSender<T> {
        *self
    }

    closed spec fn translates(&self, t: T, b: T) -> bool {
        b == t
    }

    closed spec fn accepts(&self, t: T) -> bool {
        true
    }

    fn send(&self, t: T) {
        raw_send(self, t)
    }
}

/// A transform stage: forwards every value through a pure function into the
/// next target. Shares the next target by reference count, exactly as every
/// sender clone does.
pub struct MappedInner<T, S: SenderInner<T>, F> {
    sender: Arc<S>,
    func: F,
    target: PhantomData<T>,
}

impl<NewT, T, S: SenderInner<T>, F: Fn(NewT) -> T> SenderInner<NewT> for MappedInner<T, S, F> {
    type Base = S::Base;

    closed spec fn base(&self) -> RawSender<S::Base> {
        (*self.sender).base()
    }

    closed spec fn translates(&self, t: NewT, b: S::Base) -> bool {
        exists|mid: T| #[trigger] call_ensures(self.func, (t,), mid) && (*self.sender).translates(mid, b)
    }

    closed spec fn accepts(&self, t: NewT) -> bool {
        call_requires(self.func, (t,)) && (forall|mid: T|
            #[trigger] call_ensures(self.func, (t,), mid) ==> (*self.sender).accepts(mid))
    }

    fn send(&self, t: NewT) {
        let mid = (self.func)(t);
        arc_ref(&self.sender).send(mid);
    }
}

/// A value-producing endpoint of a channel. Cloning shares the same
/// underlying delivery mechanism; `map_input` derives an endpoint of another
/// element type that forwards transformed values to the same mechanism.
pub struct Sender<T, S: SenderInner<T>> {
    inner: Arc<S>,
    element: PhantomData<T>,
}

impl<T, S: SenderInner<T>> Sender<T, S> {
    /// The raw endpoint of the channel every value sent here ends up in.
    pub closed spec fn base(&self) -> RawSender<S::Base> {
        (*self.inner).base()
    }

    /// Which raw values a send of `t` may deliver into the channel: `t` taken
    /// through the endpoint's whole transform chain.
    pub closed spec fn translates(&self, t: T, b: S::Base) -> bool {
        (*self.inner).translates(t, b)
    }

    /// Whether `t` satisfies the preconditions of the transform chain.
    pub closed spec fn accepts(&self, t: T) -> bool {
        (*self.inner).accepts(t)
    }

    /// Enqueues a value; never blocks, and never fails while the paired
    /// receiver is alive. The value delivered into the raw channel is related
    /// to `t` by `translates`.
    pub fn send(&self, t: T)
        requires
            self.accepts(t),
    {
        arc_ref(&self.inner).send(t)
    }

    /// Derives an endpoint of element type `NewT` that applies the pure
    /// function `func` to every value and forwards the result to this
    /// endpoint's delivery mechanism. The contract pins the derived endpoint
    /// down: same raw channel, and its `translates` relation is exactly the
    /// composition of `func` with this endpoint's relation.
    pub fn map_input<NewT, F: Fn(NewT) -> T>(&self, func: F) -> (r: Sender<
        NewT,
        MappedInner<T, S, F>,
    >)
        ensures
            r.base() == self.base(),
            forall|t: NewT, b: S::Base|
                #[trigger] r.translates(t, b) <==> exists|mid: T|
                    #[trigger] call_ensures(func, (t,), mid) && self.translates(mid, b),
            forall|t: NewT|
                #[trigger] r.accepts(t) <==> call_requires(func, (t,)) && (forall|mid: T|
                    #[trigger] call_ensures(func, (t,), mid) ==> self.accepts(mid)),
    {
        let r = Sender {
            inner: Arc::new(
                MappedInner { sender: arc_clone(&self.inner), func, target: PhantomData },
            ),
            element: PhantomData,
        };
        proof {
            assert((*r.inner).sender == self.inner);
            assert((*r.inner).func == func);
        }
        r
    }
}

/// A transform stage for step-carrying channels: rewraps each delivery's
/// payload through a pure function and forwards the rewrapped step to the
/// next target.
pub struct StepMappedInner<NewEf, Ef, S: SenderInner<Step<Ef>>, F> {
    sender: Arc<S>,
    func: F,
    target: PhantomData<(NewEf, Ef)>,
}

impl<NewEf, Ef, S: SenderInner<Step<Ef>>, F: Fn(NewEf) -> Ef + Copy> SenderInner<
    Step<NewEf>,
> for StepMappedInner<NewEf, Ef, S, F> {
    type Base = S::Base;

    closed spec fn base(&self) -> RawSender<S::Base> {
        (*self.sender).base()
    }

    closed spec fn translates(&self, t: Step<NewEf>, b: S::Base) -> bool {
        exists|mid: Ef|
            #[trigger] call_ensures(self.func, (t.payload(),), mid) && (*self.sender).translates(
                Step::Once(mid),
                b,
            )
    }

    closed spec fn accepts(&self, t: Step<NewEf>) -> bool {
        call_requires(self.func, (t.payload(),)) && (forall|mid: Ef|
            #[trigger] call_ensures(self.func, (t.payload(),), mid) ==> (*self.sender).accepts(
                Step::Once(mid),
            ))
    }

    fn send(&self, t: Step<NewEf>) {
        let mapped = t.map_effect(self.func);
        proof {
            assert(mapped == Step::Once(mapped.payload()));
        }
        arc_ref(&self.sender).send(mapped);
    }
}

impl<Ef, S: SenderInner<Step<Ef>>> Sender<Step<Ef>, S> {
    /// Derives a step-carrying endpoint spoken in a sub-component's effect
    /// type: every delivery's payload is taken through the pure function
    /// `func`, and the rewrapped step travels to this endpoint's delivery
    /// mechanism. This is what lets a parent component embed a child's
    /// capabilities under its own, larger effect type.
    pub fn map_effect<NewEf, F: Fn(NewEf) -> Ef + Copy>(&self, func: F) -> (r: Sender<
        Step<NewEf>,
        StepMappedInner<NewEf, Ef, S, F>,
    >)
        ensures
            r.base() == self.base(),
            forall|t: Step<NewEf>, b: S::Base|
                #[trigger] r.translates(t, b) <==> exists|mid: Ef|
                    #[trigger] call_ensures(func, (t.payload(),), mid) && self.translates(
                        Step::Once(mid),
                        b,
                    ),
            forall|t: Step<NewEf>|
                #[trigger] r.accepts(t) <==> call_requires(func, (t.payload(),)) && (forall|
                    mid: Ef,
                |
                    #[trigger] call_ensures(func, (t.payload(),), mid) ==> self.accepts(
                        Step::Once(mid),
                    )),
    {
        let r = Sender {
            inner: Arc::new(
                StepMappedInner { sender: arc_clone(&self.inner), func, target: PhantomData },
            ),
            element: PhantomData,
        };
        proof {
            assert((*r.inner).sender == self.inner);
            assert((*r.inner).func == func);
        }
        r
    }
}

impl<T, S: SenderInner<T>> Clone for Sender<T, S> {
    /// Cloning a sender shares the underlying delivery mechanism: the clone
    /// is, at the specification level, the same endpoint.
    fn clone(&self) -> (r: Self)
        ensures
            r == *self,
    {
        Sender { inner: arc_clone(&self.inner), element: PhantomData }
    }
}

/// The single consumption endpoint paired with exactly one channel at
/// creation; not clonable.
#[verifier::reject_recursive_types(T)]
pub struct Receiver<T> {
    inner: RawReceiver<T>,
}

impl<T> Receiver<T> {
    /// Takes the next enqueued value without blocking, in strict arrival
    /// order across all sender clones, or nothing if the channel is observed
    /// empty.
    pub fn receive(&self) -> Option<T> {
        raw_try_recv(&self.inner)
    }

    /// A lazy, restartable sequence over `receive`: yields values until the
    /// channel is observed empty. Not a snapshot — values enqueued by
    /// concurrently running tasks while the sequence is consumed may also be
    /// yielded.
    pub fn drain(&self) -> Drain<'_, T> {
        Drain { receiver: self }
    }
}

/// The lazy sequence returned by `Receiver::drain`.
#[verifier::reject_recursive_types(T)]
pub struct Drain<'a, T> {
    receiver: &'a Receiver<T>,
}

impl<'a, T> Drain<'a, T> {
    /// The next available value, or nothing once the channel is observed
    /// empty.
    pub fn next(&mut self) -> Option<T> {
        self.receiver.receive()
    }
}

/// Creates a fresh, unbounded, non-blocking channel: a producer endpoint
/// (clonable, mappable) and its single consumer. The fresh endpoint accepts
/// every value and delivers each value unchanged.
pub fn channel<T>() -> (r: (Sender<T, RawSender<T>>, Receiver<T>))
    ensures
        forall|t: T| #[trigger] r.0.accepts(t),
        forall|t: T, b: T| #[trigger] r.0.translates(t, b) <==> b == t,
{
    let (sender, receiver) = raw_unbounded();
    (Sender { inner: Arc::new(sender), element: PhantomData }, Receiver { inner: receiver })
}

/// A clone of a sender is the very same endpoint: both deliver into the same
/// raw channel, accept the same values, and translate each value the same
/// way, so distributing clones to concurrently spawned tasks neither loses
/// nor duplicates what they send. The hypothesis is exactly what `clone`'s
/// contract gives.
pub proof fn lemma_clone_shares_delivery<T, S: SenderInner<T>>(s: Sender<T, S>, c: Sender<T, S>)
    requires
        c == s,
    ensures
        c.base() == s.base(),
        forall|t: T, b: S::Base| #[trigger] c.translates(t, b) <==> s.translates(t, b),
        forall|t: T| #[trigger] c.accepts(t) <==> s.accepts(t),
{
}

/// Mapping a sender is a pure, associative transform: if `h` behaves exactly
/// as `f` after `g`, then `s.map_input(f).map_input(g)` and `s.map_input(h)`
/// may deliver exactly the same raw values into the same raw channel for
/// every value sent, so the paired receiver observes the same result either
/// way. The hypotheses are exactly what `map_input`'s contract gives for the
/// three derived endpoints.
pub proof fn lemma_map_input_compose<V, U, T, B, S, SF, SFG, SH, F, G, H>(
    s: Sender<T, S>,
    f: F,
    g: G,
    h: H,
    sf: Sender<U, SF>,
    sfg: Sender<V, SFG>,
    sh: Sender<V, SH>,
) where
    S: SenderInner<T, Base = B>,
    SF: SenderInner<U, Base = B>,
    SFG: SenderInner<V, Base = B>,
    SH: SenderInner<V, Base = B>,
    F: Fn(U) -> T,
    G: Fn(V) -> U,
    H: Fn(V) -> T,

    requires
        sf.base() == s.base(),
        sfg.base() == sf.base(),
        sh.base() == s.base(),
        forall|u: U, b: B|
            #[trigger] sf.translates(u, b) <==> exists|t: T|
                #[trigger] call_ensures(f, (u,), t) && s.translates(t, b),
        forall|v: V, b: B|
            #[trigger] sfg.translates(v, b) <==> exists|u: U|
                #[trigger] call_ensures(g, (v,), u) && sf.translates(u, b),
        forall|v: V, b: B|
            #[trigger] sh.translates(v, b) <==> exists|t: T|
                #[trigger] call_ensures(h, (v,), t) && s.translates(t, b),
        forall|v: V, t: T|
            #[trigger] call_ensures(h, (v,), t) <==> exists|u: U|
                #[trigger] call_ensures(g, (v,), u) && call_ensures(f, (u,), t),
    ensures
        sfg.base() == sh.base(),
        forall|v: V, b: B| #[trigger] sfg.translates(v, b) <==> #[trigger] sh.translates(v, b),
{
    assert forall|v: V, b: B| #[trigger] sfg.translates(v, b) implies #[trigger] sh.translates(
        v,
        b,
    ) by {
        let u = choose|u: U| #[trigger] call_ensures(g, (v,), u) && sf.translates(u, b);
        let t = choose|t: T| #[trigger] call_ensures(f, (u,), t) && s.translates(t, b);
        assert(call_ensures(h, (v,), t) && s.translates(t, b));
    }
    assert forall|v: V, b: B| #[trigger] sh.translates(v, b) implies #[trigger] sfg.translates(
        v,
        b,
    ) by {
        let t = choose|t: T| #[trigger] call_ensures(h, (v,), t) && s.translates(t, b);
        let u = choose|u: U| #[trigger] call_ensures(g, (v,), u) && call_ensures(f, (u,), t);
        assert(sf.translates(u, b));
    }
}

} // verus!
