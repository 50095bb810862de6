use vstd::prelude::*;

use crate::clock::local_time_of_day;
use crate::schedule::{evaluate, spans_state, Schedule, TimeOfDay, Timespan};
use crate::valve::{valid_valve, GardenError, Mode, Valve, ValveState, NUM_VALVES};

verus! {

/// The abstract contents of a [`GardenState`].
pub struct GardenView {
    pub mode: Mode,
    pub manual: Seq<ValveState>,
    pub schedule: Seq<Seq<Timespan>>,
}

impl GardenView {
    /// One manual state and one span list per valve.
    pub open spec fn wf(self) -> bool {
        self.manual.len() == NUM_VALVES && self.schedule.len() == NUM_VALVES
    }

    /// The state at process start: scheduled mode, every manual state off,
    /// no span for any valve.
    pub open spec fn initial() -> GardenView {
        GardenView {
            mode: Mode::Scheduled,
            manual: Seq::new(NUM_VALVES as nat, |i: int| ValveState::Off),
            schedule: Seq::new(NUM_VALVES as nat, |i: int| Seq::<Timespan>::empty()),
        }
    }

    /// What the valves should be at time `t`: the manual states verbatim in
    /// manual mode, the schedule's verdict per valve in scheduled mode.
    pub open spec fn outputs_at(self, t: TimeOfDay) -> Seq<ValveState> {
        match self.mode {
            Mode::Manual => self.manual,
            Mode::Scheduled => Seq::new(
                NUM_VALVES as nat,
                |i: int| spans_state(self.schedule[i], t),
            ),
        }
    }

    pub open spec fn with_mode(self, m: Mode) -> GardenView {
        GardenView { mode: m, ..self }
    }

    pub open spec fn with_schedule(self, s: Seq<Seq<Timespan>>) -> GardenView {
        GardenView { schedule: s, ..self }
    }

    pub open spec fn with_manual(self, v: int, st: ValveState) -> GardenView {
        GardenView { manual: self.manual.update(v, st), ..self }
    }

    /// Outcome of a manual command: the valve must exist, then the mode must
    /// be manual.
    pub open spec fn set_valve_result(self, v: int) -> Result<(), GardenError> {
        if !valid_valve(v) {
            Err(GardenError::InvalidValve)
        } else if self.mode == Mode::Scheduled {
            Err(GardenError::RejectedByMode)
        } else {
            Ok(())
        }
    }

    /// The state after a manual command: changed only when it succeeds.
    pub open spec fn after_set_valve(self, v: int, st: ValveState) -> GardenView {
        if self.set_valve_result(v) is Ok {
            self.with_manual(v, st)
        } else {
            self
        }
    }
}

/// The controller's single mutable aggregate: the mode, the manual state of
/// each valve and the schedule.
pub struct GardenState {
    mode: Mode,
    manual_valve_states: [ValveState; 8],
    schedule: Schedule,
}

impl View for GardenState {
    type V = GardenView;

    closed spec fn view(&self) -> GardenView {
        GardenView {
            mode: self.mode,
            manual: self.manual_valve_states@,
            schedule: self.schedule@,
        }
    }
}

/// A copy of a span list.
fn copy_spans(v: &Vec<Timespan>) -> (r: Vec<Timespan>)
    ensures
        r@ == v@,
{
    let mut r: Vec<Timespan> = Vec::new();
    let mut i: usize = 0;
    while i < v.len()
        invariant
            0 <= i <= v@.len(),
            r@ == v@.subrange(0, i as int),
        decreases v@.len() - i,
    {
        r.push(v[i]);
        i += 1;
        assert(r@ =~= v@.subrange(0, i as int));
    }
    assert(v@.subrange(0, v@.len() as int) =~= v@);
    r
}

impl Schedule {
    /// An independent copy of the schedule.
    pub fn snapshot(&self) -> (r: Schedule)
        ensures
            r@ == self@,
    {
        let r = Schedule {
            valves: [
                copy_spans(&self.valves[0]),
                copy_spans(&self.valves[1]),
                copy_spans(&self.valves[2]),
                copy_spans(&self.valves[3]),
                copy_spans(&self.valves[4]),
                copy_spans(&self.valves[5]),
                copy_spans(&self.valves[6]),
                copy_spans(&self.valves[7]),
            ],
        };
        assert(r@ =~= self@);
        r
    }
}

impl GardenState {
    /// Every state holds one manual state and one span list per valve.
    pub proof fn lemma_wf(&self)
        ensures
            self@.wf(),
    {
    }

    /// Scheduled mode, every manual state off, an empty schedule.
    pub fn new() -> (r: GardenState)
        ensures
            r@ == GardenView::initial(),
    {
        let r = GardenState {
            mode: Mode::Scheduled,
            manual_valve_states: [ValveState::Off; 8],
            schedule: Schedule::empty(),
        };
        assert(r@.manual =~= GardenView::initial().manual);
        assert(r@.schedule =~= GardenView::initial().schedule);
        r
    }

    pub fn get_mode(&self) -> (r: Mode)
        ensures
            r == self@.mode,
    {
        self.mode
    }

    /// Switches the mode; nothing else changes.
    pub fn set_mode(&mut self, mode: Mode)
        ensures
            final(self)@ == old(self)@.with_mode(mode),
    {
        self.mode = mode;
    }

    /// A copy of the whole schedule.
    pub fn get_schedule(&self) -> (r: Schedule)
        ensures
            r@ == self@.schedule,
    {
        self.schedule.snapshot()
    }

    /// Replaces the whole schedule at once.
    pub fn set_schedule(&mut self, schedule: Schedule)
        ensures
            final(self)@ == old(self)@.with_schedule(schedule@),
    {
        self.schedule = schedule;
    }

    /// The stored manual state of valve `valve`, whatever the mode.
    pub fn get_manual_state(&self, valve: i32) -> (r: Result<ValveState, GardenError>)
        ensures
            valid_valve(valve as int) ==> r == Ok::<ValveState, GardenError>(
                self@.manual[valve as int],
            ),
            !valid_valve(valve as int) ==> r == Err::<ValveState, GardenError>(
                GardenError::InvalidValve,
            ),
    {
        match Valve::from_index(valve) {
            Some(v) => Ok(self.manual_valve_states[v.index()]),
            None => Err(GardenError::InvalidValve),
        }
    }

    /// Stores the manual state of valve `valve` in either mode, so that a later
    /// switch to manual mode resumes it.
    pub fn set_manual_state(&mut self, valve: i32, st: ValveState) -> (r: Result<(), GardenError>)
        ensures
            valid_valve(valve as int) ==> r is Ok && final(self)@ == old(self)@.with_manual(
                valve as int,
                st,
            ),
            !valid_valve(valve as int) ==> r == Err::<(), GardenError>(GardenError::InvalidValve)
                && final(self)@ == old(self)@,
    {
        match Valve::from_index(valve) {
            Some(v) => {
                self.manual_valve_states[v.index()] = st;
                Ok(())
            },
            None => Err(GardenError::InvalidValve),
        }
    }

    /// The manual command: stores `st` for valve `valve` only in manual mode;
    /// in scheduled mode the write is rejected and nothing changes.
    pub fn set_valve_state(&mut self, valve: i32, st: ValveState) -> (r: Result<(), GardenError>)
        ensures
            r == old(self)@.set_valve_result(valve as int),
            final(self)@ == old(self)@.after_set_valve(valve as int, st),
    {
        match Valve::from_index(valve) {
            None => Err(GardenError::InvalidValve),
            Some(v) => match self.mode {
                Mode::Scheduled => Err(GardenError::RejectedByMode),
                Mode::Manual => {
                    self.manual_valve_states[v.index()] = st;
                    Ok(())
                },
            },
        }
    }

    /// The outputs of all eight valves at time `now`, `Valve1` first.
    pub fn compute_output_states_at(&self, now: TimeOfDay) -> (r: [ValveState; 8])
        ensures
            r@ == self@.outputs_at(now),
    {
        match self.mode {
            Mode::Manual => self.manual_valve_states,
            Mode::Scheduled => {
                let r = [
                    evaluate(&self.schedule, Valve::Valve1, now),
                    evaluate(&self.schedule, Valve::Valve2, now),
                    evaluate(&self.schedule, Valve::Valve3, now),
                    evaluate(&self.schedule, Valve::Valve4, now),
                    evaluate(&self.schedule, Valve::Valve5, now),
                    evaluate(&self.schedule, Valve::Valve6, now),
                    evaluate(&self.schedule, Valve::Valve7, now),
                    evaluate(&self.schedule, Valve::Valve8, now),
                ];
                assert(r@ =~= self@.outputs_at(now));
                r
            },
        }
    }

    /// The outputs of all eight valves at the current local time of day.
    pub fn compute_output_states(&self) -> (r: [ValveState; 8])
        ensures
            exists|t: TimeOfDay| t.wf() && r@ == self@.outputs_at(t),
    {
        let now = local_time_of_day();
        self.compute_output_states_at(now)
    }

    /// The output of valve `valve` at time `now`.
    pub fn get_valve_state_at(&self, valve: i32, now: TimeOfDay) -> (r: Result<ValveState, GardenError>)
        ensures
            valid_valve(valve as int) ==> r == Ok::<ValveState, GardenError>(
                self@.outputs_at(now)[valve as int],
            ),
            !valid_valve(valve as int) ==> r == Err::<ValveState, GardenError>(
                GardenError::InvalidValve,
            ),
    {
        match Valve::from_index(valve) {
            Some(v) => {
                let all = self.compute_output_states_at(now);
                Ok(all[v.index()])
            },
            None => Err(GardenError::InvalidValve),
        }
    }

    /// The output of valve `valve` at the current local time of day.
    pub fn get_valve_state(&self, valve: i32) -> (r: Result<ValveState, GardenError>)
        ensures
            valid_valve(valve as int) ==> exists|t: TimeOfDay|
                t.wf() && r == Ok::<ValveState, GardenError>(#[trigger] self@.outputs_at(t)[valve as int]),
            !valid_valve(valve as int) ==> r == Err::<ValveState, GardenError>(
                GardenError::InvalidValve,
            ),
    {
        let now = local_time_of_day();
        self.get_valve_state_at(valve, now)
    }

    /// The outputs of all eight valves at time `now`, `Valve1` first.
    pub fn get_valve_states_at(&self, now: TimeOfDay) -> (r: [ValveState; 8])
        ensures
            r@ == self@.outputs_at(now),
    {
        self.compute_output_states_at(now)
    }

    /// The outputs of all eight valves at the current local time of day.
    pub fn get_valve_states(&self) -> (r: [ValveState; 8])
        ensures
            exists|t: TimeOfDay| t.wf() && r@ == self@.outputs_at(t),
    {
        self.compute_output_states()
    }
}

/// Applies manual commands in order, each `(valve, state)`.
pub open spec fn apply_writes(s: GardenView, writes: Seq<(int, ValveState)>) -> GardenView
    decreases writes.len(),
{
    if writes.len() == 0 {
        s
    } else {
        let last = writes.last();
        apply_writes(s, writes.drop_last()).after_set_valve(last.0, last.1)
    }
}

/// In manual mode a command sets the valve's output; switching back to
/// scheduled mode hands the valve back to the schedule, whatever the manual
/// value was.
pub proof fn lemma_manual_then_scheduled(s: GardenView, v: int, t: TimeOfDay)
    requires
        s.wf(),
        valid_valve(v),
    ensures
        s.with_mode(Mode::Manual).set_valve_result(v) is Ok,
        s.with_mode(Mode::Manual).after_set_valve(v, ValveState::On).outputs_at(t)[v]
            == ValveState::On,
        s.with_mode(Mode::Manual).after_set_valve(v, ValveState::On).with_mode(
            Mode::Scheduled,
        ).outputs_at(t)[v] == spans_state(s.schedule[v], t),
{
}

/// In scheduled mode every manual command is refused (an existing valve with
/// `RejectedByMode`) and leaves the outputs as they were.
pub proof fn lemma_rejected_in_scheduled_mode(s: GardenView, v: int, st: ValveState, t: TimeOfDay)
    requires
        s.wf(),
        s.mode == Mode::Scheduled,
    ensures
        s.set_valve_result(v) is Err,
        valid_valve(v) ==> s.set_valve_result(v) == Err::<(), GardenError>(
            GardenError::RejectedByMode,
        ),
        s.after_set_valve(v, st).outputs_at(t) == s.outputs_at(t),
{
}

/// There is always exactly one output per valve, in either mode; with an empty
/// schedule in scheduled mode every output is off.
pub proof fn lemma_full_coverage(s: GardenView, t: TimeOfDay)
    requires
        s.wf(),
    ensures
        s.outputs_at(t).len() == NUM_VALVES,
        s.mode == Mode::Scheduled && (forall|i: int|
            0 <= i < NUM_VALVES ==> (#[trigger] s.schedule[i]).len() == 0) ==> forall|i: int|
            0 <= i < NUM_VALVES ==> #[trigger] s.outputs_at(t)[i] == ValveState::Off,
{
}

/// Manual commands on distinct valves, applied in any order in manual mode,
/// all succeed; each valve then holds the value written to it and every other
/// valve keeps its own.
pub proof fn lemma_distinct_writes(s: GardenView, writes: Seq<(int, ValveState)>)
    requires
        s.wf(),
        s.mode == Mode::Manual,
        forall|i: int| 0 <= i < writes.len() ==> valid_valve(#[trigger] writes[i].0),
        forall|i: int, j: int|
            0 <= i < writes.len() && 0 <= j < writes.len() && i != j ==> writes[i].0
                != writes[j].0,
    ensures
        apply_writes(s, writes).wf(),
        apply_writes(s, writes).mode == Mode::Manual,
        forall|k: int|
            0 <= k < writes.len() ==> (#[trigger] apply_writes(s, writes.take(k))).set_valve_result(
                writes[k].0,
            ) is Ok,
        forall|i: int|
            0 <= i < writes.len() ==> apply_writes(s, writes).manual[(#[trigger] writes[i]).0]
                == writes[i].1,
        forall|u: int|
            valid_valve(u) && (forall|i: int| 0 <= i < writes.len() ==> (#[trigger] writes[i]).0 != u)
                ==> apply_writes(s, writes).manual[u] == s.manual[u],
    decreases writes.len(),
{
    if writes.len() > 0 {
        let init = writes.drop_last();
        let n = writes.len() - 1;
        assert forall|i: int| 0 <= i < init.len() implies valid_valve(#[trigger] init[i].0) by {
            assert(init[i] == writes[i]);
        }
        assert forall|i: int, j: int|
            0 <= i < init.len() && 0 <= j < init.len() && i != j implies init[i].0
                != init[j].0 by {
            assert(init[i] == writes[i] && init[j] == writes[j]);
        }
        lemma_distinct_writes(s, init);
        assert forall|k: int|
            0 <= k < writes.len() implies (#[trigger] apply_writes(s, writes.take(k))).set_valve_result(
                writes[k].0,
            ) is Ok by {
            if k < n {
                assert(writes.take(k) =~= init.take(k));
                assert(init[k] == writes[k]);
            } else {
                assert(writes.take(k) =~= init);
            }
        }
        assert forall|i: int|
            0 <= i < writes.len() implies apply_writes(s, writes).manual[(#[trigger] writes[i]).0]
                == writes[i].1 by {
            if i < n {
                assert(init[i] == writes[i]);
            }
        }
        assert forall|u: int|
            valid_valve(u) && (forall|i: int| 0 <= i < writes.len() ==> (#[trigger] writes[i]).0 != u)
            implies apply_writes(s, writes).manual[u] == s.manual[u] by {
            assert forall|i: int| 0 <= i < init.len() implies (#[trigger] init[i]).0 != u by {
                assert(init[i] == writes[i]);
            }
            assert(writes[n].0 != u);
        }
    }
}

} // verus!
