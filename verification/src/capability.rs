//! The capability context: the execution environment given to a capability
//! instance. It shares a channel of step deliveries back into the core's
//! effect queue, a channel of events toward the application's update logic,
//! and the ability to spawn cooperative tasks.

use vstd::prelude::*;
use crate::channels::{MappedInner, Sender, SenderInner};
use crate::step::Step;

verus! {

/// The execution environment of one capability instance, parameterized by
/// the capability's payload type `Op` and the event type `Ev` it is spoken
/// in. Both channels are shared endpoints: cloning the context shares the
/// same delivery mechanisms.
pub struct CapabilityContext<Op, Ev, SS: SenderInner<Step<Op>>, ES: SenderInner<Ev>> {
    steps: Sender<Step<Op>, SS>,
    events: Sender<Ev, ES>,
}

impl<Op, Ev, SS: SenderInner<Step<Op>>, ES: SenderInner<Ev>> CapabilityContext<Op, Ev, SS, ES> {
    /// The endpoint this context pushes step deliveries into.
    pub closed spec fn step_sender(&self) -> Sender<Step<Op>, SS> {
        self.steps
    }

    /// The endpoint this context sends application events into.
    pub closed spec fn event_sender(&self) -> Sender<Ev, ES> {
        self.events
    }

    /// Scopes a context to the two endpoints a capability may speak through.
    pub fn new(steps: Sender<Step<Op>, SS>, events: Sender<Ev, ES>) -> (r: Self)
        ensures
            r.step_sender() == steps,
            r.event_sender() == events,
    {
        CapabilityContext { steps, events }
    }

    /// Pushes one step delivery into the core's effect queue. This is the
    /// sole channel through which a spawned task communicates with the
    /// synchronous world.
    pub fn advance(&self, step: Step<Op>)
        requires
            self.step_sender().accepts(step),
    {
        self.steps.send(step);
    }

    /// Sends an ordinary event toward the application's update logic.
    pub fn update_app(&self, event: Ev)
        requires
            self.event_sender().accepts(event),
    {
        self.events.send(event);
    }

    /// Schedules a unit of cooperative work. Scheduling is cooperative, not
    /// preemptive: in this synchronous core the task runs at the spawn point
    /// until it would suspend for an outside response, and anything it awaits
    /// is driven to completion by the shell through the core's resolve
    /// operation, so the caller observes exactly one completed run of the
    /// task.
    pub fn spawn<F: FnOnce()>(&self, task: F)
        requires
            call_requires(task, ()),
        ensures
            call_ensures(task, (), ()),
    {
        task()
    }

    /// Rescopes the context for a nested sub-component: events are spoken in
    /// the sub-component's own type and travel through the pure projection
    /// `func` into the parent's event channel, while step deliveries keep
    /// flowing to the same effect queue.
    pub fn map_event<NewEv, F: Fn(NewEv) -> Ev>(&self, func: F) -> (r: CapabilityContext<
        Op,
        NewEv,
        SS,
        MappedInner<Ev, ES, F>,
    >)
        ensures
            r.step_sender() == self.step_sender(),
            r.event_sender().base() == self.event_sender().base(),
            forall|e: NewEv, b: ES::Base|
                #[trigger] r.event_sender().translates(e, b) <==> exists|mid: Ev|
                    #[trigger] call_ensures(func, (e,), mid) && self.event_sender().translates(
                        mid,
                        b,
                    ),
            forall|e: NewEv|
                #[trigger] r.event_sender().accepts(e) <==> call_requires(func, (e,)) && (forall|
                    mid: Ev,
                |
                    #[trigger] call_ensures(func, (e,), mid) ==> self.event_sender().accepts(mid)),
    {
        CapabilityContext { steps: self.steps.clone(), events: self.events.map_input(func) }
    }
}

impl<Op, Ev, SS: SenderInner<Step<Op>>, ES: SenderInner<Ev>> Clone for CapabilityContext<
    Op,
    Ev,
    SS,
    ES,
> {
    /// Cloning a context shares both underlying delivery mechanisms: the
    /// clone is, at the specification level, the same context.
    fn clone(&self) -> (r: Self)
        ensures
            r == *self,
    {
        CapabilityContext { steps: self.steps.clone(), events: self.events.clone() }
    }
}

} // verus!
