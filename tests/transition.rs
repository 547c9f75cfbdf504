use catchit::{Transition, TransitionDirection, TransitionState};

#[test]
fn transition() {
    let mut t = Transition::new(0, 1000, 1_000_000);
    assert_eq!(t.state(), TransitionState::Start);
    assert_eq!(t.from(), 0);
    assert_eq!(t.to(), 1000);
    assert_eq!(t.state_time, 0);

    assert_eq!(t.advance(500_000).current, 500);
    assert_eq!(t.state_time, 500_000);
    assert_eq!(t.state(), TransitionState::InProgress);
    assert_eq!(t.advance(500_000).current, 1000);
    assert_eq!(t.state(), TransitionState::Finished);
    assert_eq!(t.state_time, 1_000_000);
    assert_eq!(t.advance(500_000).current, 1000);
    assert_eq!(t.state_time, 1_500_000);
    assert_eq!(t.state(), TransitionState::Finished);

    t.reverse();
    assert_eq!(t.state_time, 0);

    assert_eq!(t.from(), 1000);
    assert_eq!(t.to(), 0);
    assert_eq!(t.state(), TransitionState::Start);
    assert_eq!(t.current, 1000);

    assert_eq!(t.advance(500_000).current, 500);
    assert_eq!(t.state_time, 500_000);
    assert_eq!(t.state(), TransitionState::InProgress);
    assert_eq!(t.reverse().state_time, 500_000);
    assert_eq!(t.reverse().state_time, 500_000);
    assert_eq!(t.advance(500_000).current, 0);
    assert_eq!(t.state(), TransitionState::Finished);

    t.reverse();
    assert_eq!(t.state(), TransitionState::Start);
}

#[test]
fn transition_new_is_pristine() {
    let t = Transition::new(1000, 0, 500_000);
    assert!(t.is_pristine());
    assert_eq!(t.current, 1000);
    assert_eq!(t.direction, TransitionDirection::FromTo);
}

#[test]
fn transition_reverse_before_start_is_not_pristine() {
    let mut t = Transition::new(0, 125, 500_000);
    t.reverse();
    assert!(!t.is_pristine());
    assert_eq!(t.state(), TransitionState::Finished);
}

#[test]
fn transition_downward_advance_stops_at_target() {
    let mut t = Transition::new(1000, 0, 500_000);
    assert_eq!(t.advance(100_000).current, 800);
    assert_eq!(t.state(), TransitionState::InProgress);
    assert!(!t.is_pristine());
    assert_eq!(t.advance(10_000_000).current, 0);
    assert_eq!(t.state(), TransitionState::Finished);
}

#[test]
fn transition_stays_in_range_over_many_steps() {
    let mut t = Transition::new(0, 125, 500_000);
    for dt in [0u64, 1, 7, 33_333, 16_667, 1_000_000, 0, u64::MAX] {
        t.advance(dt);
        assert!(t.current >= 0 && t.current <= 125);
    }
    assert_eq!(t.current, 125);
    assert_eq!(t.state_time, u64::MAX);
}

#[test]
fn transition_zero_step_is_no_op() {
    let mut t = Transition::new(0, 1000, 1_000_000);
    t.advance(250_000);
    let before = t;
    t.advance(0);
    t.advance(0);
    assert_eq!(t, before);
}

#[test]
fn transition_step_rounds_down() {
    let mut t = Transition::new(0, 125, 500_000);
    // 125 * 16_667 / 500_000 = 4.16675
    assert_eq!(t.advance(16_667).current, 4);
}
