use gesture_engine::event::{GestureEvent, Reaction};
use gesture_engine::gesture_listener::{GestureListener, HoldListener};
use std::sync::mpsc::{channel, Receiver, Sender};
use std::time::{Duration, Instant};

fn schedule(delay_ms: i64, action: &str) -> Reaction {
    Reaction::Schedule { delay_ms, action: action.to_string() }
}

fn reschedule(delay_ms: i64, action: &str) -> Reaction {
    Reaction::Reschedule { delay_ms, action: action.to_string() }
}

#[test]
fn hold_begin_asks_for_a_deferred_run() {
    let mut listener = HoldListener::new("menu".to_string(), 200);
    assert_eq!(listener.fire(&GestureEvent::HoldBegin), schedule(200, "menu"));
}

#[test]
fn hold_end_calls_the_run_off() {
    let mut listener = HoldListener::new("menu".to_string(), 200);
    listener.fire(&GestureEvent::HoldBegin);
    assert_eq!(listener.fire(&GestureEvent::HoldEnd), Reaction::Cancel);
}

#[test]
fn hold_end_on_idle_listener_is_ignored_twice() {
    let mut listener = HoldListener::new("menu".to_string(), 200);
    assert_eq!(listener.fire(&GestureEvent::HoldEnd), Reaction::Nothing);
    assert_eq!(listener.fire(&GestureEvent::HoldEnd), Reaction::Nothing);
    listener.fire(&GestureEvent::HoldBegin);
    assert_eq!(listener.fire(&GestureEvent::HoldEnd), Reaction::Cancel);
    assert_eq!(listener.fire(&GestureEvent::HoldEnd), Reaction::Nothing);
    assert_eq!(listener.fire(&GestureEvent::HoldEnd), Reaction::Nothing);
}

#[test]
fn hold_begin_on_armed_listener_replaces_the_run() {
    let mut listener = HoldListener::new("menu".to_string(), 200);
    assert_eq!(listener.fire(&GestureEvent::HoldBegin), schedule(200, "menu"));
    assert_eq!(listener.fire(&GestureEvent::HoldBegin), reschedule(200, "menu"));
    assert_eq!(listener.fire(&GestureEvent::HoldBegin), reschedule(200, "menu"));
    assert_eq!(listener.fire(&GestureEvent::HoldEnd), Reaction::Cancel);
    assert_eq!(listener.fire(&GestureEvent::HoldBegin), schedule(200, "menu"));
}

#[test]
fn hold_duration_is_handed_on_as_it_is() {
    for duration in [0, 1, 200, -5, i64::MAX, i64::MIN] {
        let mut listener = HoldListener::new("menu".to_string(), duration);
        assert_eq!(listener.fire(&GestureEvent::HoldBegin), schedule(duration, "menu"));
    }
}

#[test]
fn hold_listener_ignores_other_families() {
    let mut listener = HoldListener::new("menu".to_string(), 200);
    listener.fire(&GestureEvent::HoldBegin);
    let others = [
        GestureEvent::SwipeBegin,
        GestureEvent::SwipeUpdate { dx: 3, dy: 4, finger_count: 3 },
        GestureEvent::SwipeEnd { finger_count: 3 },
        GestureEvent::PinchBegin,
        GestureEvent::PinchUpdate { scale: 500_000 },
        GestureEvent::PinchEnd,
    ];
    for event in others {
        assert_eq!(listener.fire(&event), Reaction::Nothing);
    }
    // Still armed.
    assert_eq!(listener.fire(&GestureEvent::HoldEnd), Reaction::Cancel);
}

/// Carries the reactions of one hold listener out with a real timer, and
/// reports every run of the action on a channel.
struct Bench {
    timer: timer::Timer,
    guard: Option<timer::Guard>,
    runs: Sender<String>,
}

impl Bench {
    fn new() -> (Bench, Receiver<String>) {
        let (runs, seen) = channel();
        (Bench { timer: timer::Timer::new(), guard: None, runs }, seen)
    }

    fn later(&mut self, delay_ms: i64, action: String) {
        let runs = self.runs.clone();
        let delay = chrono::Duration::milliseconds(delay_ms);
        self.guard = Some(self.timer.schedule_with_delay(delay, move || {
            let _ = runs.send(action.clone());
        }));
    }

    fn carry_out(&mut self, reaction: Reaction) {
        match reaction {
            Reaction::Nothing => {}
            Reaction::Trigger { action } => {
                let _ = self.runs.send(action);
            }
            Reaction::Schedule { delay_ms, action } => self.later(delay_ms, action),
            Reaction::Reschedule { delay_ms, action } => {
                self.guard = None;
                self.later(delay_ms, action);
            }
            Reaction::Cancel => self.guard = None,
        }
    }
}

fn wait(ms: u64) {
    let (_never, idle) = channel::<()>();
    let _ = idle.recv_timeout(Duration::from_millis(ms));
}

/// How often a scenario is played again when the machine was too slow to
/// deliver its events on time.
const TRIES: usize = 20;

#[test]
fn hold_cut_short_never_runs_the_action() {
    for _ in 0..TRIES {
        let (mut bench, seen) = Bench::new();
        let mut listener = HoldListener::new("menu".to_string(), 200);
        let begun = Instant::now();
        bench.carry_out(listener.fire(&GestureEvent::HoldBegin));
        wait(50);
        bench.carry_out(listener.fire(&GestureEvent::HoldEnd));
        let on_time = begun.elapsed() < Duration::from_millis(200);
        let ran = seen.recv_timeout(Duration::from_millis(600)).is_ok();
        if on_time {
            assert!(!ran);
            return;
        }
    }
    panic!("the end never came before the duration was over");
}

#[test]
fn hold_kept_up_runs_the_action_once() {
    let (mut bench, seen) = Bench::new();
    let mut listener = HoldListener::new("menu".to_string(), 200);
    let begun = Instant::now();
    bench.carry_out(listener.fire(&GestureEvent::HoldBegin));
    assert_eq!(seen.recv_timeout(Duration::from_secs(10)), Ok("menu".to_string()));
    // The run was put off, not made at once (the timer keeps its own clock,
    // so the bound is a loose one).
    assert!(begun.elapsed() >= Duration::from_millis(150));
    assert!(seen.recv_timeout(Duration::from_millis(400)).is_err());
    // The end comes after the run: it calls off nothing, and nothing more runs.
    bench.carry_out(listener.fire(&GestureEvent::HoldEnd));
    assert!(seen.recv_timeout(Duration::from_millis(300)).is_err());
}

#[test]
fn hold_begun_again_runs_the_action_once() {
    for _ in 0..TRIES {
        let (mut bench, seen) = Bench::new();
        let mut listener = HoldListener::new("menu".to_string(), 200);
        let begun = Instant::now();
        bench.carry_out(listener.fire(&GestureEvent::HoldBegin));
        wait(50);
        bench.carry_out(listener.fire(&GestureEvent::HoldBegin));
        let on_time = begun.elapsed() < Duration::from_millis(200);
        let first = seen.recv_timeout(Duration::from_secs(10));
        let second = seen.recv_timeout(Duration::from_millis(500));
        if on_time {
            assert_eq!(first, Ok("menu".to_string()));
            assert!(second.is_err());
            return;
        }
    }
    panic!("the second begin never came before the duration was over");
}
