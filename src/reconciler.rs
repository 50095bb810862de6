use vstd::prelude::*;

use crate::clock::local_time_of_day;
use crate::schedule::TimeOfDay;
use crate::state::GardenState;
use crate::valve::ValveState;

verus! {

/// The decisions of the periodic loop that forwards the valve outputs to the
/// sink. The loop itself (waiting, calling the sink) belongs to the caller;
/// a stop signal takes effect at the next tick.
pub struct Reconciler {
    paused: bool,
}

impl Reconciler {
    pub closed spec fn spec_paused(&self) -> bool {
        self.paused
    }

    /// A running reconciler.
    pub fn new() -> (r: Reconciler)
        ensures
            !r.spec_paused(),
    {
        Reconciler { paused: false }
    }

    pub fn is_paused(&self) -> (r: bool)
        ensures
            r == self.spec_paused(),
    {
        self.paused
    }

    /// From the next tick on, nothing is sent to the sink.
    pub fn stop(&mut self)
        ensures
            final(self).spec_paused(),
    {
        self.paused = true;
    }

    /// From the next tick on, the outputs are sent to the sink again.
    pub fn resume(&mut self)
        ensures
            !final(self).spec_paused(),
    {
        self.paused = false;
    }

    /// One tick at time `now`: the single array to hand to the sink, read from
    /// `state` in one go, or `None` while paused.
    pub fn tick_at(&self, state: &GardenState, now: TimeOfDay) -> (r: Option<[ValveState; 8]>)
        ensures
            self.spec_paused() ==> r is None,
            !self.spec_paused() ==> r is Some && r->0@ == state@.outputs_at(now),
    {
        if self.paused {
            None
        } else {
            Some(state.compute_output_states_at(now))
        }
    }

    /// One tick at the current local time of day.
    pub fn tick(&self, state: &GardenState) -> (r: Option<[ValveState; 8]>)
        ensures
            self.spec_paused() ==> r is None,
            !self.spec_paused() ==> r is Some && exists|t: TimeOfDay|
                t.wf() && r->0@ == state@.outputs_at(t),
    {
        let now = local_time_of_day();
        self.tick_at(state, now)
    }
}

} // verus!
