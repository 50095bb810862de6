use vstd::prelude::*;

verus! {

/// Number of valves the controller drives; fixed for its whole lifetime.
pub const NUM_VALVES: usize = 8;

/// Which source of truth decides the valve outputs.
#[derive(Clone, Copy, Debug, PartialEq, Eq, Structural)]
pub enum Mode {
    Scheduled,
    Manual,
}

/// The binary state of a single valve.
#[derive(Clone, Copy, Debug, PartialEq, Eq, Structural)]
pub enum ValveState {
    On,
    Off,
}

/// One of the eight valves, `Valve1` to `Valve8`.
#[derive(Clone, Copy, Debug, PartialEq, Eq, Structural)]
pub enum Valve {
    Valve1,
    Valve2,
    Valve3,
    Valve4,
    Valve5,
    Valve6,
    Valve7,
    Valve8,
}

/// Errors reported by the control operations.
#[derive(Clone, Copy, Debug, PartialEq, Eq, Structural)]
pub enum GardenError {
    /// The valve identifier lies outside the fixed set of eight.
    InvalidValve,
    /// A manual write was attempted while the mode is `Scheduled`.
    RejectedByMode,
    /// The guard around the shared state is unusable.
    PoisonedState,
}

/// Whether `i` names one of the valves.
pub open spec fn valid_valve(i: int) -> bool {
    0 <= i < NUM_VALVES
}

impl Valve {
    /// Position of the valve, `0` for `Valve1` up to `7` for `Valve8`.
    pub open spec fn spec_index(self) -> int {
        match self {
            Valve::Valve1 => 0,
            Valve::Valve2 => 1,
            Valve::Valve3 => 2,
            Valve::Valve4 => 3,
            Valve::Valve5 => 4,
            Valve::Valve6 => 5,
            Valve::Valve7 => 6,
            Valve::Valve8 => 7,
        }
    }

    pub fn index(self) -> (r: usize)
        ensures
            r == self.spec_index(),
            r < NUM_VALVES,
    {
        match self {
            Valve::Valve1 => 0,
            Valve::Valve2 => 1,
            Valve::Valve3 => 2,
            Valve::Valve4 => 3,
            Valve::Valve5 => 4,
            Valve::Valve6 => 5,
            Valve::Valve7 => 6,
            Valve::Valve8 => 7,
        }
    }

    /// The valve at position `i`, or `None` when `i` is not in `0..8`.
    pub fn from_index(i: i32) -> (r: Option<Valve>)
        ensures
            r is Some <==> valid_valve(i as int),
            r is Some ==> r->0.spec_index() == i,
    {
        match i {
            0 => Some(Valve::Valve1),
            1 => Some(Valve::Valve2),
            2 => Some(Valve::Valve3),
            3 => Some(Valve::Valve4),
            4 => Some(Valve::Valve5),
            5 => Some(Valve::Valve6),
            6 => Some(Valve::Valve7),
            7 => Some(Valve::Valve8),
            _ => None,
        }
    }
}

} // verus!
