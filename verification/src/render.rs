//! The render capability: the minimal template every capability follows.
//! Its one operation spawns a task whose sole effect is to immediately
//! deliver one terminal step carrying an empty payload — "please re-render
//! now".

use vstd::prelude::*;
use crate::capability::CapabilityContext;
use crate::channels::{MappedInner, SenderInner};
use crate::step::Step;

verus! {

/// The render capability, usable by any component whose event type is `Ev`.
pub struct Render<Ev, SS: SenderInner<Step<()>>, ES: SenderInner<Ev>> {
    context: CapabilityContext<(), Ev, SS, ES>,
}

impl<Ev, SS: SenderInner<Step<()>>, ES: SenderInner<Ev>> Render<Ev, SS, ES> {
    /// The execution environment this capability speaks through.
    pub closed spec fn ctx(&self) -> CapabilityContext<(), Ev, SS, ES> {
        self.context
    }

    /// A render capability scoped to a context of empty payloads.
    pub fn new(context: CapabilityContext<(), Ev, SS, ES>) -> (r: Self)
        ensures
            r.ctx() == context,
    {
        Render { context }
    }

    /// Requests a re-render: spawns a task that delivers exactly one
    /// terminal step with an empty payload into the core's effect queue.
    pub fn render(&self)
        requires
            self.ctx().step_sender().accepts(Step::Once(())),
    {
        let ctx = self.context.clone();
        self.context.spawn(
            move || {
                ctx.advance(Step::once(()));
            },
        );
    }

    /// Reuses this capability, unmodified, inside a nested sub-component:
    /// the returned instance is structurally identical but speaks the
    /// sub-component's event type, projected by the pure function `func`.
    pub fn map_event<NewEv, F: Fn(NewEv) -> Ev>(&self, func: F) -> (r: Render<
        NewEv,
        SS,
        MappedInner<Ev, ES, F>,
    >)
        ensures
            r.ctx().step_sender() == self.ctx().step_sender(),
            r.ctx().event_sender().base() == self.ctx().event_sender().base(),
            forall|e: NewEv, b: ES::Base|
                #[trigger] r.ctx().event_sender().translates(e, b) <==> exists|mid: Ev|
                    #[trigger] call_ensures(func, (e,), mid)
                        && self.ctx().event_sender().translates(mid, b),
    {
        Render::new(self.context.map_event(func))
    }
}

} // verus!
