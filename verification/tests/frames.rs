use relsim::frames::{FrameCycle, MAX_FRAMES_IN_FLIGHT};

#[test]
fn cycle_starts_at_the_first_slot() {
    assert_eq!(FrameCycle::new().current(), 0);
}

#[test]
fn cycle_visits_every_slot_in_turn() {
    let mut cycle = FrameCycle::new();
    for expected in 0..MAX_FRAMES_IN_FLIGHT {
        assert_eq!(cycle.current(), expected);
        cycle.advance();
    }
    assert_eq!(cycle.current(), 0);
}

#[test]
fn consecutive_frames_use_different_slots() {
    let mut cycle = FrameCycle::new();
    for _ in 0..10 {
        let before = cycle.current();
        cycle.advance();
        assert_ne!(cycle.current(), before);
        assert!(cycle.current() < MAX_FRAMES_IN_FLIGHT);
    }
}

#[test]
fn two_frames_may_be_in_flight() {
    assert_eq!(MAX_FRAMES_IN_FLIGHT, 2);
    let mut cycle = FrameCycle::new();
    cycle.advance();
    assert_eq!(cycle.current(), 1);
    for _ in 0..7 {
        cycle.advance();
    }
    assert_eq!(cycle.current(), 0);
}
