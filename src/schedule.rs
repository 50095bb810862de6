use vstd::prelude::*;

use crate::valve::{Valve, ValveState, NUM_VALVES};

verus! {

/// A time of day. It is well formed when hour < 24, minute < 60 and second < 60.
#[derive(Clone, Copy, Debug, PartialEq, Eq, Structural)]
pub struct TimeOfDay {
    pub hour: u32,
    pub minute: u32,
    pub second: u32,
}

impl TimeOfDay {
    pub open spec fn wf(self) -> bool {
        self.hour < 24 && self.minute < 60 && self.second < 60
    }

    /// Seconds since midnight.
    pub open spec fn secs(self) -> int {
        self.hour * 3600 + self.minute * 60 + self.second
    }

    pub fn new(hour: u32, minute: u32, second: u32) -> (r: TimeOfDay)
        ensures
            r.hour == hour,
            r.minute == minute,
            r.second == second,
    {
        TimeOfDay { hour, minute, second }
    }

    pub fn seconds(&self) -> (r: u64)
        ensures
            r == self.secs(),
    {
        self.hour as u64 * 3600 + self.minute as u64 * 60 + self.second as u64
    }
}

/// A window of the day during which a scheduled valve is on. When `start`
/// comes after `end` the window runs over midnight.
#[derive(Clone, Copy, Debug, PartialEq, Eq, Structural)]
pub struct Timespan {
    pub start: TimeOfDay,
    pub end: TimeOfDay,
}

/// Whether the span covers `t`, both ends included.
pub open spec fn covers(span: Timespan, t: TimeOfDay) -> bool {
    if span.start.secs() <= span.end.secs() {
        span.start.secs() <= t.secs() && t.secs() <= span.end.secs()
    } else {
        span.start.secs() <= t.secs() || t.secs() <= span.end.secs()
    }
}

/// A valve is on at `t` exactly when one of its spans covers `t`.
pub open spec fn spans_state(spans: Seq<Timespan>, t: TimeOfDay) -> ValveState {
    if exists|i: int| 0 <= i < spans.len() && covers(#[trigger] spans[i], t) {
        ValveState::On
    } else {
        ValveState::Off
    }
}

impl Timespan {
    pub fn new(start: TimeOfDay, end: TimeOfDay) -> (r: Timespan)
        ensures
            r.start == start,
            r.end == end,
    {
        Timespan { start, end }
    }

    pub fn covers(&self, t: TimeOfDay) -> (r: bool)
        ensures
            r == covers(*self, t),
    {
        let s = self.start.seconds();
        let e = self.end.seconds();
        let x = t.seconds();
        if s <= e {
            s <= x && x <= e
        } else {
            s <= x || x <= e
        }
    }
}

/// The spans of each of the eight valves, `Valve1` first.
#[derive(Debug)]
pub struct Schedule {
    pub valves: [Vec<Timespan>; 8],
}

impl View for Schedule {
    type V = Seq<Seq<Timespan>>;

    open spec fn view(&self) -> Seq<Seq<Timespan>> {
        Seq::new(NUM_VALVES as nat, |i: int| self.valves@[i]@)
    }
}

impl Schedule {
    /// A schedule with no span for any valve.
    pub fn empty() -> (r: Schedule)
        ensures
            r@.len() == NUM_VALVES,
            forall|i: int| 0 <= i < NUM_VALVES ==> #[trigger] r@[i] == Seq::<Timespan>::empty(),
    {
        let r = Schedule {
            valves: [
                Vec::new(),
                Vec::new(),
                Vec::new(),
                Vec::new(),
                Vec::new(),
                Vec::new(),
                Vec::new(),
                Vec::new(),
            ],
        };
        assert forall|i: int| 0 <= i < NUM_VALVES implies #[trigger] r@[i] == Seq::<
            Timespan,
        >::empty() by {
            assert(r@[i] =~= Seq::<Timespan>::empty());
        }
        r
    }

    /// The spans of `valve`.
    pub fn spans(&self, valve: Valve) -> (r: &Vec<Timespan>)
        ensures
            r@ == self@[valve.spec_index()],
    {
        &self.valves[valve.index()]
    }

    /// Appends `span` to the spans of `valve`, leaving the other valves alone.
    pub fn add_span(&mut self, valve: Valve, span: Timespan)
        ensures
            final(self)@ == old(self)@.update(
                valve.spec_index(),
                old(self)@[valve.spec_index()].push(span),
            ),
    {
        let i = valve.index();
        self.valves[i].push(span);
        assert(final(self)@ =~= old(self)@.update(i as int, old(self)@[i as int].push(span)));
    }

    /// The state the schedule gives `valve` at time `now`.
    pub open spec fn state_at(self, v: int, now: TimeOfDay) -> ValveState {
        spans_state(self@[v], now)
    }
}

/// What the schedule asks of `valve` at `now`: on when at least one of the
/// valve's spans covers `now`, off otherwise.
pub fn evaluate(schedule: &Schedule, valve: Valve, now: TimeOfDay) -> (r: ValveState)
    ensures
        r == schedule.state_at(valve.spec_index(), now),
        r == ValveState::On <==> exists|i: int|
            0 <= i < schedule@[valve.spec_index()].len() && covers(
                #[trigger] schedule@[valve.spec_index()][i],
                now,
            ),
{
    let spans = schedule.spans(valve);
    let mut i: usize = 0;
    while i < spans.len()
        invariant
            0 <= i <= spans@.len(),
            spans@ == schedule@[valve.spec_index()],
            forall|j: int| 0 <= j < i ==> !covers(#[trigger] spans@[j], now),
        decreases spans@.len() - i,
    {
        if spans[i].covers(now) {
            assert(covers(spans@[i as int], now));
            return ValveState::On;
        }
        i += 1;
    }
    ValveState::Off
}

/// The evaluation depends on its inputs alone: equal schedules give equal
/// states for the same valve and time.
pub proof fn lemma_evaluate_deterministic(s1: Schedule, s2: Schedule, v: Valve, t: TimeOfDay)
    requires
        s1@ == s2@,
    ensures
        s1.state_at(v.spec_index(), t) == s2.state_at(v.spec_index(), t),
{
}

/// A valve is on at every time that one of its spans covers, and off at every
/// time that none of them covers.
pub proof fn lemma_on_exactly_within_spans(s: Schedule, v: Valve, t: TimeOfDay)
    ensures
        forall|i: int|
            0 <= i < s@[v.spec_index()].len() && covers(#[trigger] s@[v.spec_index()][i], t)
                ==> s.state_at(v.spec_index(), t) == ValveState::On,
        (forall|i: int|
            0 <= i < s@[v.spec_index()].len() ==> !covers(#[trigger] s@[v.spec_index()][i], t))
            ==> s.state_at(v.spec_index(), t) == ValveState::Off,
{
}

/// A span whose start comes after its end runs over midnight: it covers every
/// time from the start to midnight and from midnight to the end, and nothing
/// strictly between the end and the start.
pub proof fn lemma_overnight_span(span: Timespan, t: TimeOfDay)
    requires
        span.start.secs() > span.end.secs(),
    ensures
        t.secs() >= span.start.secs() ==> covers(span, t),
        t.secs() <= span.end.secs() ==> covers(span, t),
        span.end.secs() < t.secs() < span.start.secs() ==> !covers(span, t),
{
}

} // verus!
