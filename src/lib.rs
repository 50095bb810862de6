//! An irrigation controller: eight valves driven either by a per-valve
//! time-of-day schedule or by manual overrides, with a periodic reconciler
//! that forwards the computed outputs to a hardware sink.

pub mod clock;
pub mod reconciler;
pub mod schedule;
pub mod state;
pub mod valve;
