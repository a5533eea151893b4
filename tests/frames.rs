use training_menu::frame_counter::{FrameCounterType, FrameCounters};
use training_menu::holds::{DirectionButton, HoldTracker};
use training_menu::buttons::{BUTTON_L_LEFT, BUTTON_R_UP};

#[test]
fn counters_are_independent() {
    let mut c = FrameCounters::new();
    let real = c.register_counter(FrameCounterType::Real);
    let sim = c.register_counter(FrameCounterType::Simulation);
    assert_eq!((real, sim), (0, 1));
    c.start_counting(real);
    c.start_counting(sim);
    c.tick(false);
    c.tick(true);
    assert_eq!(c.get_frame_count(real), 2);
    assert_eq!(c.get_frame_count(sim), 1);
}

#[test]
fn stopped_counter_keeps_its_count_until_reset() {
    let mut c = FrameCounters::new();
    let h = c.register_counter(FrameCounterType::Real);
    c.tick(true);
    assert_eq!(c.get_frame_count(h), 0);
    c.start_counting(h);
    c.tick(true);
    c.tick(true);
    c.stop_counting(h);
    c.tick(true);
    assert_eq!(c.get_frame_count(h), 2);
    c.reset_frame_count(h);
    assert_eq!(c.get_frame_count(h), 0);
    assert_eq!(c.len(), 1);
}

#[test]
fn hold_counters_count_and_release() {
    let mut h = HoldTracker::new();
    h.update(BUTTON_L_LEFT | BUTTON_R_UP);
    h.update(BUTTON_L_LEFT);
    assert_eq!(h.frames(DirectionButton::LLeft), 2);
    assert_eq!(h.frames(DirectionButton::RUp), 0);
    assert_eq!(h.frames(DirectionButton::RLeft), 0);
    for _ in 0..19 {
        h.update(BUTTON_L_LEFT);
    }
    assert_eq!(h.frames(DirectionButton::LLeft), 21);
    assert!(h.is_repeating(DirectionButton::LLeft));
    h.reset_all();
    assert_eq!(h.frames(DirectionButton::LLeft), 0);
    assert!(!h.is_repeating(DirectionButton::LLeft));
}

#[test]
fn threshold_is_strictly_past_twenty() {
    let mut h = HoldTracker::new();
    for _ in 0..20 {
        h.update(BUTTON_R_UP);
    }
    assert!(!h.is_repeating(DirectionButton::RUp));
    h.update(BUTTON_R_UP);
    assert!(h.is_repeating(DirectionButton::RUp));
}
