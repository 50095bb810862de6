use garden_server::reconciler::Reconciler;
use garden_server::schedule::{evaluate, Schedule, TimeOfDay, Timespan};
use garden_server::state::GardenState;
use garden_server::valve::{GardenError, Mode, Valve, ValveState, NUM_VALVES};

fn hm(hour: u32, minute: u32) -> TimeOfDay {
    TimeOfDay::new(hour, minute, 0)
}

fn schedule_with(valve: Valve, start: TimeOfDay, end: TimeOfDay) -> Schedule {
    let mut s = Schedule::empty();
    s.add_span(valve, Timespan::new(start, end));
    s
}

#[test]
fn seconds_since_midnight() {
    assert_eq!(TimeOfDay::new(0, 0, 0).seconds(), 0);
    assert_eq!(TimeOfDay::new(1, 2, 3).seconds(), 3723);
    assert_eq!(TimeOfDay::new(23, 59, 59).seconds(), 86399);
}

#[test]
fn valve_indices() {
    assert_eq!(Valve::from_index(0), Some(Valve::Valve1));
    assert_eq!(Valve::from_index(7), Some(Valve::Valve8));
    assert_eq!(Valve::from_index(8), None);
    assert_eq!(Valve::from_index(-1), None);
    assert_eq!(Valve::Valve5.index(), 4);
}

#[test]
fn evaluate_is_deterministic() {
    let s = schedule_with(Valve::Valve2, hm(8, 0), hm(9, 0));
    for t in [hm(7, 59), hm(8, 30), hm(9, 1)] {
        assert_eq!(evaluate(&s, Valve::Valve2, t), evaluate(&s, Valve::Valve2, t));
    }
}

#[test]
fn evaluate_inside_and_outside_span() {
    let s = schedule_with(Valve::Valve3, hm(8, 0), hm(9, 0));
    assert_eq!(evaluate(&s, Valve::Valve3, hm(8, 0)), ValveState::On);
    assert_eq!(evaluate(&s, Valve::Valve3, hm(8, 30)), ValveState::On);
    assert_eq!(evaluate(&s, Valve::Valve3, hm(9, 0)), ValveState::On);
    assert_eq!(evaluate(&s, Valve::Valve3, TimeOfDay::new(9, 0, 1)), ValveState::Off);
    assert_eq!(evaluate(&s, Valve::Valve3, TimeOfDay::new(7, 59, 59)), ValveState::Off);
    // Other valves are not affected by valve 3's span.
    assert_eq!(evaluate(&s, Valve::Valve4, hm(8, 30)), ValveState::Off);
}

#[test]
fn evaluate_overlapping_spans() {
    let mut s = schedule_with(Valve::Valve1, hm(6, 0), hm(7, 0));
    s.add_span(Valve::Valve1, Timespan::new(hm(6, 30), hm(8, 0)));
    assert_eq!(evaluate(&s, Valve::Valve1, hm(7, 30)), ValveState::On);
    assert_eq!(evaluate(&s, Valve::Valve1, hm(8, 1)), ValveState::Off);
    assert_eq!(s.spans(Valve::Valve1).len(), 2);
}

#[test]
fn evaluate_overnight_span() {
    let s = schedule_with(Valve::Valve6, hm(22, 0), hm(6, 0));
    assert_eq!(evaluate(&s, Valve::Valve6, hm(23, 0)), ValveState::On);
    assert_eq!(evaluate(&s, Valve::Valve6, hm(5, 0)), ValveState::On);
    assert_eq!(evaluate(&s, Valve::Valve6, hm(12, 0)), ValveState::Off);
    assert_eq!(evaluate(&s, Valve::Valve6, hm(22, 0)), ValveState::On);
    assert_eq!(evaluate(&s, Valve::Valve6, hm(6, 0)), ValveState::On);
}

#[test]
fn initial_state() {
    let g = GardenState::new();
    assert_eq!(g.get_mode(), Mode::Scheduled);
    for v in 0..8 {
        assert_eq!(g.get_manual_state(v), Ok(ValveState::Off));
        assert_eq!(g.get_schedule().spans(Valve::from_index(v).unwrap()).len(), 0);
    }
}

#[test]
fn empty_schedule_gives_eight_offs() {
    let g = GardenState::new();
    let out = g.get_valve_states_at(hm(12, 0));
    assert_eq!(out.len(), NUM_VALVES);
    assert_eq!(out, [ValveState::Off; 8]);
    let mut g = g;
    g.set_mode(Mode::Manual);
    assert_eq!(g.get_valve_states_at(hm(12, 0)), [ValveState::Off; 8]);
}

#[test]
fn manual_then_scheduled() {
    let mut g = GardenState::new();
    g.set_schedule(schedule_with(Valve::Valve2, hm(8, 0), hm(9, 0)));
    g.set_mode(Mode::Manual);
    assert_eq!(g.set_valve_state(2, ValveState::On), Ok(()));
    assert_eq!(g.get_valve_state_at(2, hm(12, 0)), Ok(ValveState::On));
    g.set_mode(Mode::Scheduled);
    assert_eq!(g.get_valve_state_at(2, hm(12, 0)), Ok(ValveState::Off));
    assert_eq!(g.get_valve_state_at(1, hm(8, 30)), Ok(ValveState::On));
    // The manual value is kept for a later switch back.
    assert_eq!(g.get_manual_state(2), Ok(ValveState::On));
    g.set_mode(Mode::Manual);
    assert_eq!(g.get_valve_state_at(2, hm(8, 30)), Ok(ValveState::On));
    assert_eq!(g.get_valve_state_at(1, hm(8, 30)), Ok(ValveState::Off));
}

#[test]
fn rejected_in_scheduled_mode() {
    let mut g = GardenState::new();
    let before = g.compute_output_states_at(hm(10, 0));
    assert_eq!(g.set_valve_state(3, ValveState::On), Err(GardenError::RejectedByMode));
    assert_eq!(g.compute_output_states_at(hm(10, 0)), before);
    assert_eq!(g.get_manual_state(3), Ok(ValveState::Off));
}

#[test]
fn invalid_valve_is_reported() {
    let mut g = GardenState::new();
    assert_eq!(g.set_valve_state(8, ValveState::On), Err(GardenError::InvalidValve));
    g.set_mode(Mode::Manual);
    assert_eq!(g.set_valve_state(-1, ValveState::On), Err(GardenError::InvalidValve));
    assert_eq!(g.set_valve_state(8, ValveState::On), Err(GardenError::InvalidValve));
    assert_eq!(g.get_valve_state_at(8, hm(1, 0)), Err(GardenError::InvalidValve));
    assert_eq!(g.get_valve_state(9), Err(GardenError::InvalidValve));
    assert_eq!(g.get_manual_state(100), Err(GardenError::InvalidValve));
    assert_eq!(g.set_manual_state(8, ValveState::On), Err(GardenError::InvalidValve));
    assert_eq!(g.get_valve_states_at(hm(1, 0)), [ValveState::Off; 8]);
}

#[test]
fn manual_state_stored_in_scheduled_mode() {
    let mut g = GardenState::new();
    assert_eq!(g.set_manual_state(4, ValveState::On), Ok(()));
    assert_eq!(g.get_valve_state_at(4, hm(3, 0)), Ok(ValveState::Off));
    g.set_mode(Mode::Manual);
    assert_eq!(g.get_valve_state_at(4, hm(3, 0)), Ok(ValveState::On));
}

#[test]
fn distinct_valve_writes_do_not_interfere() {
    let mut g = GardenState::new();
    g.set_mode(Mode::Manual);
    let writes = [
        (5, ValveState::On),
        (0, ValveState::On),
        (7, ValveState::Off),
        (2, ValveState::On),
        (6, ValveState::On),
    ];
    for (v, st) in writes {
        assert_eq!(g.set_valve_state(v, st), Ok(()));
    }
    let out = g.get_valve_states_at(hm(0, 0));
    for (v, st) in writes {
        assert_eq!(out[v as usize], st);
    }
    assert_eq!(out[1], ValveState::Off);
    assert_eq!(out[3], ValveState::Off);
    assert_eq!(out[4], ValveState::Off);
}

#[test]
fn schedule_round_trip() {
    let mut g = GardenState::new();
    let mut s = Schedule::empty();
    s.add_span(Valve::Valve8, Timespan::new(hm(1, 0), hm(2, 0)));
    s.add_span(Valve::Valve8, Timespan::new(hm(20, 0), hm(4, 0)));
    s.add_span(Valve::Valve1, Timespan::new(hm(5, 0), hm(5, 30)));
    g.set_schedule(s.snapshot());
    let back = g.get_schedule();
    for v in 0..8 {
        let valve = Valve::from_index(v).unwrap();
        assert_eq!(back.spans(valve), s.spans(valve));
    }
    assert_eq!(back.spans(Valve::Valve8)[1], Timespan::new(hm(20, 0), hm(4, 0)));
}

#[test]
fn reconciler_tick_sends_current_outputs() {
    let mut g = GardenState::new();
    g.set_schedule(schedule_with(Valve::Valve1, hm(6, 0), hm(7, 0)));
    let r = Reconciler::new();
    assert!(!r.is_paused());
    let mut expected = [ValveState::Off; 8];
    expected[0] = ValveState::On;
    assert_eq!(r.tick_at(&g, hm(6, 30)), Some(expected));
    assert_eq!(r.tick_at(&g, hm(7, 30)), Some([ValveState::Off; 8]));
    g.set_mode(Mode::Manual);
    g.set_valve_state(3, ValveState::On).unwrap();
    let mut manual = [ValveState::Off; 8];
    manual[3] = ValveState::On;
    assert_eq!(r.tick_at(&g, hm(6, 30)), Some(manual));
}

#[test]
fn reconciler_pause_and_resume() {
    let g = GardenState::new();
    let mut r = Reconciler::new();
    r.stop();
    assert!(r.is_paused());
    assert_eq!(r.tick_at(&g, hm(6, 30)), None);
    assert_eq!(r.tick(&g), None);
    r.resume();
    assert_eq!(r.tick(&g), Some([ValveState::Off; 8]));
}

#[test]
fn current_time_is_a_valid_time_of_day() {
    let mut g = GardenState::new();
    // A span from the first to the last second of the day covers any valid time.
    g.set_schedule(schedule_with(Valve::Valve7, TimeOfDay::new(0, 0, 0), TimeOfDay::new(23, 59, 59)));
    assert_eq!(g.get_valve_state(6), Ok(ValveState::On));
    let out = g.get_valve_states();
    assert_eq!(out[6], ValveState::On);
    assert_eq!(out[0], ValveState::Off);
    assert_eq!(g.compute_output_states(), out);
    assert_eq!(Reconciler::new().tick(&g).map(|a| a[6]), Some(ValveState::On));
}
