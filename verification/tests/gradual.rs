use gesture_engine::configuration::Direction;
use gesture_engine::event::{GestureEvent, Reaction};
use gesture_engine::gesture_listener::{GestureListener, ThreeFingerSwipeGradualListener};

fn up_sample() -> GestureEvent {
    GestureEvent::SwipeUpdate { dx: 1, dy: -4, finger_count: 3 }
}

fn raise() -> Reaction {
    Reaction::Trigger { action: "raise".to_string() }
}

#[test]
fn gradual_swipe_triggers_on_every_third_sample() {
    let mut listener = ThreeFingerSwipeGradualListener::new(Direction::Up, "raise".to_string());
    let mut triggered = Vec::new();
    for sample in 1..=9 {
        if listener.fire(&up_sample()) == raise() {
            triggered.push(sample);
        }
    }
    assert_eq!(triggered, vec![3, 6, 9]);
}

#[test]
fn gradual_swipe_reacts_with_its_action_or_nothing() {
    let mut listener = ThreeFingerSwipeGradualListener::new(Direction::Up, "raise".to_string());
    assert_eq!(listener.fire(&up_sample()), Reaction::Nothing);
    assert_eq!(listener.fire(&up_sample()), Reaction::Nothing);
    assert_eq!(listener.fire(&up_sample()), raise());
    assert_eq!(listener.fire(&up_sample()), Reaction::Nothing);
}

#[test]
fn gradual_swipe_counts_samples_that_do_not_match() {
    let mut listener = ThreeFingerSwipeGradualListener::new(Direction::Up, "raise".to_string());
    let down = GestureEvent::SwipeUpdate { dx: 0, dy: 4, finger_count: 3 };
    let four = GestureEvent::SwipeUpdate { dx: 0, dy: -4, finger_count: 4 };
    assert_eq!(listener.fire(&down), Reaction::Nothing);
    assert_eq!(listener.fire(&four), Reaction::Nothing);
    // The third sample of the listener's life, and the first that matches.
    assert_eq!(listener.fire(&up_sample()), raise());
    assert_eq!(listener.fire(&up_sample()), Reaction::Nothing);
    assert_eq!(listener.fire(&up_sample()), Reaction::Nothing);
    // The sixth sample does not match, so its turn is lost.
    assert_eq!(listener.fire(&down), Reaction::Nothing);
    assert_eq!(listener.fire(&up_sample()), Reaction::Nothing);
    assert_eq!(listener.fire(&up_sample()), Reaction::Nothing);
    assert_eq!(listener.fire(&four), Reaction::Nothing);
}

#[test]
fn gradual_swipe_keeps_its_count_across_gestures() {
    let mut listener = ThreeFingerSwipeGradualListener::new(Direction::Up, "raise".to_string());
    listener.fire(&GestureEvent::SwipeBegin);
    assert_eq!(listener.fire(&up_sample()), Reaction::Nothing);
    assert_eq!(listener.fire(&up_sample()), Reaction::Nothing);
    assert_eq!(listener.fire(&GestureEvent::SwipeEnd { finger_count: 3 }), Reaction::Nothing);
    assert_eq!(listener.fire(&GestureEvent::SwipeBegin), Reaction::Nothing);
    assert_eq!(listener.fire(&up_sample()), raise());
}

#[test]
fn gradual_swipe_needs_no_begin() {
    let mut listener = ThreeFingerSwipeGradualListener::new(Direction::Down, "lower".to_string());
    let still = GestureEvent::SwipeUpdate { dx: 0, dy: 0, finger_count: 3 };
    assert_eq!(listener.fire(&still), Reaction::Nothing);
    assert_eq!(listener.fire(&still), Reaction::Nothing);
    assert_eq!(listener.fire(&still), Reaction::Trigger { action: "lower".to_string() });
}

#[test]
fn gradual_swipe_ignores_everything_but_samples() {
    let mut listener = ThreeFingerSwipeGradualListener::new(Direction::Up, "raise".to_string());
    listener.fire(&up_sample());
    listener.fire(&up_sample());
    let others = [
        GestureEvent::SwipeBegin,
        GestureEvent::SwipeEnd { finger_count: 3 },
        GestureEvent::SwipeEnd { finger_count: 3 },
        GestureEvent::PinchBegin,
        GestureEvent::PinchUpdate { scale: 2_000_000 },
        GestureEvent::PinchEnd,
        GestureEvent::HoldBegin,
        GestureEvent::HoldEnd,
    ];
    for event in others {
        assert_eq!(listener.fire(&event), Reaction::Nothing);
    }
    assert_eq!(listener.fire(&up_sample()), raise());
}

#[test]
fn gradual_swipe_goes_on_for_many_samples() {
    let mut listener = ThreeFingerSwipeGradualListener::new(Direction::Up, "raise".to_string());
    let mut triggers = 0;
    for _ in 0..3000 {
        if listener.fire(&up_sample()) == raise() {
            triggers += 1;
        }
    }
    assert_eq!(triggers, 1000);
}
