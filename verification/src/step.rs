//! The step protocol: one delivery in the lifecycle of an asynchronous
//! operation, carrying a payload of the capability's effect type.

use vstd::prelude::*;

verus! {

/// One delivery pushed from a capability task back into the core's effect
/// queue. The minimal form is a single, terminal delivery carrying one
/// payload; streaming operations deliver several such values over time, and
/// termination is observed by the producing task ceasing to send.
pub enum Step<Ef> {
    Once(Ef),
}

impl<Ef> Step<Ef> {
    /// The payload carried by this delivery.
    pub open spec fn payload(self) -> Ef {
        match self {
            Step::Once(e) => e,
        }
    }

    /// A single, terminal delivery carrying one payload.
    pub fn once(ef: Ef) -> (s: Self)
        ensures
            s == Step::Once(ef),
    {
        Step::Once(ef)
    }

    /// Rewraps the payload through a pure function, so a delivery spoken in a
    /// child component's effect type can travel on a parent's queue.
    pub fn map_effect<T, F: Fn(Ef) -> T>(self, func: F) -> (r: Step<T>)
        requires
            call_requires(func, (self.payload(),)),
        ensures
            call_ensures(func, (self.payload(),), r.payload()),
    {
        match self {
            Step::Once(e) => Step::Once(func(e)),
        }
    }
}

} // verus!
