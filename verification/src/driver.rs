//! The core driver: owns the effect queue, runs the application's update
//! function on incoming events, and resolves outstanding asynchronous
//! requests with responses, producing further effects.

use vstd::prelude::*;
use std::marker::PhantomData;
use crate::channels::Receiver;
use crate::step::Step;

verus! {

/// An effect returned to the shell, paired with the handle under which its
/// eventual response can be correlated back by `resolve`.
pub struct Request<Ef> {
    pub handle: u64,
    pub effect: Ef,
}

/// The handles of a batch of requests, in the order they were issued.
pub open spec fn request_handles<Ef>(effects: Seq<Request<Ef>>) -> Seq<u64> {
    effects.map_values(|q: Request<Ef>| q.handle)
}

/// Why a `resolve` call was rejected.
#[derive(Clone, Copy, PartialEq, Eq, Debug)]
pub enum ResolveError {
    /// The handle was never issued, or its single-shot request has already
    /// been resolved: handles are invalidated on first resolution.
    UnknownRequest,
}

/// The core driver. The application's synchronous update logic `update`
/// always runs on the core's own thread of control; capability tasks reach it
/// only through the step channel whose consuming end the driver owns.
#[verifier::reject_recursive_types(Ef)]
pub struct Core<Ev, Ef, U: Fn(Ev)> {
    update: U,
    receiver: Receiver<Step<Ef>>,
    pending: Vec<u64>,
    next_handle: u64,
    events: PhantomData<Ev>,
}

impl<Ev, Ef, U: Fn(Ev)> Core<Ev, Ef, U> {
    /// The handles of asynchronous requests issued but not yet resolved.
    pub closed spec fn pending(&self) -> Seq<u64> {
        self.pending@
    }

    /// The next handle to be issued; every handle below it is spent.
    pub closed spec fn next_handle(&self) -> u64 {
        self.next_handle
    }

    /// The application's update function.
    pub closed spec fn update_fn(&self) -> U {
        self.update
    }

    /// The driver's invariant: outstanding handles are pairwise distinct and
    /// were all issued in the past, and the update logic can take any event.
    pub closed spec fn wf(&self) -> bool {
        &&& forall|i: int, j: int|
            #![trigger self.pending@[i], self.pending@[j]]
            0 <= i < j < self.pending@.len() ==> self.pending@[i] != self.pending@[j]
        &&& forall|i: int|
            0 <= i < self.pending@.len() ==> #[trigger] self.pending@[i] < self.next_handle
        &&& forall|ev: Ev| #[trigger] call_requires(self.update, (ev,))
    }

    /// A driver over the application's update logic and the consuming end of
    /// the effect queue, with no request outstanding.
    pub fn new(update: U, receiver: Receiver<Step<Ef>>) -> (r: Self)
        requires
            forall|ev: Ev| #[trigger] call_requires(update, (ev,)),
        ensures
            r.wf(),
            r.pending() == Seq::<u64>::empty(),
            r.update_fn() == update,
    {
        Core { update, receiver, pending: Vec::new(), next_handle: 0, events: PhantomData }
    }

    /// Empties the effect queue, registering each delivery as an outstanding
    /// request under a fresh handle. Handles are issued in increasing order
    /// and never reused; should the handle space ever be spent, the driver
    /// stops taking deliveries rather than issue a duplicate.
    fn collect_effects(&mut self) -> (effects: Vec<Request<Ef>>)
        ensures
            final(self).update == old(self).update,
            final(self).receiver == old(self).receiver,
            final(self).next_handle >= old(self).next_handle,
            final(self).pending@ == old(self).pending@ + request_handles(effects@),
            forall|i: int|
                0 <= i < effects@.len() ==> old(self).next_handle
                    <= #[trigger] effects@[i].handle < final(self).next_handle,
            forall|i: int, j: int|
                0 <= i < j < effects@.len() ==> effects@[i].handle < effects@[j].handle,
    {
        let mut effects: Vec<Request<Ef>> = Vec::new();
        proof {
            assert(old(self).pending@ + request_handles(effects@) =~= old(self).pending@);
        }
        while self.next_handle < u64::MAX
            invariant
                self.update == old(self).update,
                self.receiver == old(self).receiver,
                self.next_handle >= old(self).next_handle,
                self.pending@ == old(self).pending@ + request_handles(effects@),
                forall|i: int|
                    0 <= i < effects@.len() ==> old(self).next_handle
                        <= #[trigger] effects@[i].handle < self.next_handle,
                forall|i: int, j: int|
                    0 <= i < j < effects@.len() ==> effects@[i].handle < effects@[j].handle,
            decreases u64::MAX - self.next_handle,
        {
            match self.receiver.receive() {
                None => {
                    break ;
                },
                Some(step) => {
                    let handle = self.next_handle;
                    let ghost prev_effects = effects@;
                    self.next_handle = self.next_handle + 1;
                    self.pending.push(handle);
                    let effect = match step {
                        Step::Once(e) => e,
                    };
                    effects.push(Request { handle, effect });
                    proof {
                        assert(request_handles(effects@) =~= request_handles(prev_effects).push(
                            handle,
                        ));
                        assert(self.pending@ =~= old(self).pending@ + request_handles(effects@));
                    }
                },
            }
        }
        effects
    }

    /// Feeds one event into the application's synchronous update logic and
    /// returns every effect the logic requested, each simultaneously
    /// registered as an outstanding request under a fresh handle.
    pub fn process_event(&mut self, event: Ev) -> (effects: Vec<Request<Ef>>)
        requires
            old(self).wf(),
        ensures
            final(self).wf(),
            final(self).update_fn() == old(self).update_fn(),
            call_ensures(old(self).update_fn(), (event,), ()),
            final(self).pending() == old(self).pending() + request_handles(effects@),
            forall|i: int|
                0 <= i < effects@.len() ==> #[trigger] effects@[i].handle
                    >= old(self).next_handle(),
    {
        (self.update)(event);
        let effects = self.collect_effects();
        proof {
            lemma_append_fresh_handles(
                old(self).pending@,
                request_handles(effects@),
                old(self).next_handle,
                self.next_handle,
            );
        }
        effects
    }

    /// Supplies the response for a previously issued request, feeding it back
    /// into the update logic as the synthesized event `response` and
    /// returning whatever further effects that triggers. Exactly the issued,
    /// still-outstanding handles are accepted, each exactly once: on success
    /// the handle is invalidated, and an unknown or already-resolved handle
    /// is rejected with the driver unchanged.
    pub fn resolve(&mut self, handle: u64, response: Ev) -> (r: Result<
        Vec<Request<Ef>>,
        ResolveError,
    >)
        requires
            old(self).wf(),
        ensures
            final(self).wf(),
            final(self).update_fn() == old(self).update_fn(),
            r is Ok <==> old(self).pending().contains(handle),
            r is Err ==> *final(self) == *old(self) && r == Err::<Vec<Request<Ef>>, ResolveError>(
                ResolveError::UnknownRequest,
            ),
            r matches Ok(effects) ==> {
                &&& call_ensures(old(self).update_fn(), (response,), ())
                &&& !final(self).pending().contains(handle)
                &&& final(self).pending() == old(self).pending().remove_value(handle)
                    + request_handles(effects@)
                &&& forall|i: int|
                    0 <= i < effects@.len() ==> #[trigger] effects@[i].handle
                        >= old(self).next_handle()
            },
    {
        if self.take_pending(handle) {
            let ghost mid = self.pending@;
            let ghost boundary = self.next_handle;
            (self.update)(response);
            let effects = self.collect_effects();
            proof {
                lemma_append_fresh_handles(mid, request_handles(effects@), boundary, self.next_handle);
                if self.pending@.contains(handle) {
                    let k = choose|k: int|
                        0 <= k < self.pending@.len() && self.pending@[k] == handle;
                    if k < mid.len() {
                        assert(mid[k] == handle);
                        assert(mid.contains(handle));
                    } else {
                        assert(self.pending@[k] == request_handles(effects@)[k - mid.len()]);
                        assert(effects@[k - mid.len()].handle >= boundary);
                    }
                }
            }
            Ok(effects)
        } else {
            Err(ResolveError::UnknownRequest)
        }
    }

    /// Invalidates `handle` if it is outstanding, reporting whether it was.
    fn take_pending(&mut self, handle: u64) -> (found: bool)
        requires
            old(self).wf(),
        ensures
            final(self).wf(),
            found <==> old(self).pending@.contains(handle),
            found ==> final(self).pending@ == old(self).pending@.remove_value(handle)
                && !final(self).pending@.contains(handle)
                && handle < old(self).next_handle,
            !found ==> *final(self) == *old(self),
            final(self).update == old(self).update,
            final(self).receiver == old(self).receiver,
            final(self).next_handle == old(self).next_handle,
    {
        let mut i: usize = 0;
        while i < self.pending.len()
            invariant
                old(self).wf(),
                *self == *old(self),
                0 <= i <= self.pending@.len(),
                forall|k: int| 0 <= k < i ==> self.pending@[k] != handle,
            decreases self.pending@.len() - i,
        {
            if self.pending[i] == handle {
                proof {
                    lemma_first_index_is_here(self.pending@, handle, i as int);
                }
                let ghost prev = self.pending@;
                self.pending.remove(i);
                proof {
                    assert forall|k: int|
                        0 <= k < self.pending@.len() implies self.pending@[k] != handle by {
                        if k < i as int {
                            assert(self.pending@[k] == prev[k]);
                        } else {
                            assert(self.pending@[k] == prev[k + 1]);
                            assert((i as int) < k + 1 && k + 1 < prev.len());
                            assert(prev[i as int] != prev[k + 1]);
                        }
                    }
                }
                return true;
            }
            i = i + 1;
        }
        false
    }
}

/// Appending requests registered under fresh, increasing handles preserves
/// the driver's bookkeeping: the combined handles stay pairwise distinct and
/// stay below the new issuing boundary.
proof fn lemma_append_fresh_handles(older: Seq<u64>, fresh: Seq<u64>, boundary: u64, bound: u64)
    requires
        forall|i: int, j: int| 0 <= i < j < older.len() ==> older[i] != older[j],
        forall|i: int| 0 <= i < older.len() ==> #[trigger] older[i] < boundary,
        forall|i: int| 0 <= i < fresh.len() ==> boundary <= #[trigger] fresh[i] < bound,
        forall|i: int, j: int| 0 <= i < j < fresh.len() ==> fresh[i] < fresh[j],
        boundary <= bound,
    ensures
        forall|i: int, j: int|
            0 <= i < j < (older + fresh).len() ==> (older + fresh)[i] != (older + fresh)[j],
        forall|i: int| 0 <= i < (older + fresh).len() ==> #[trigger] (older + fresh)[i] < bound,
{
    assert forall|i: int, j: int|
        0 <= i < j < (older + fresh).len() implies (older + fresh)[i] != (older + fresh)[j] by {
        if i < older.len() && j >= older.len() {
            assert(older[i] < boundary);
            assert(fresh[j - older.len()] >= boundary);
        }
    }
}

/// If a value first appears at position `i` of a sequence, removing its first
/// occurrence is removing position `i`.
proof fn lemma_first_index_is_here(s: Seq<u64>, val: u64, i: int)
    requires
        0 <= i < s.len(),
        s[i] == val,
        forall|k: int| 0 <= k < i ==> s[k] != val,
    ensures
        s.remove_value(val) == s.remove(i),
{
    assert(s.contains(val));
    s.index_of_first_ensures(val);
    let first = s.index_of_first(val);
    match first {
        Some(f) => {
            if f < i {
                assert(s[f] == val);
            }
        },
        None => {},
    }
}

} // verus!
