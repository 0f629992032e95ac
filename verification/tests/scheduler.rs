//! Fixed-tick pacing: ordering, termination, drift correction, configuration.

use reactive_window::event::{ButtonEvent, ButtonState, RawEvent};
use reactive_window::scheduler::{sleep_millis_for, SchedulerError, TickDecision, TickState};
use reactive_window::source_win::{EventSource, SourceWindow};

struct ScriptedSource {
    events: Vec<RawEvent>,
    next: usize,
}

impl EventSource for ScriptedSource {
    fn should_close(&self) -> bool {
        false
    }

    fn poll_event(&mut self) -> Option<RawEvent> {
        if self.next < self.events.len() {
            self.next += 1;
            Some(self.events[self.next - 1].clone())
        } else {
            None
        }
    }
}

#[test]
fn zero_tick_length_is_invalid_configuration() {
    assert_eq!(TickState::new(0, 123), Err(SchedulerError::InvalidConfiguration));
    assert!(TickState::new(1, 123).is_ok());
}

#[test]
fn drift_is_absorbed_in_whole_ticks() {
    // tick_length = 100ms; the clock reads 250ms past the scheduled tick.
    let t0: u64 = 1_000_000_000;
    let mut st = TickState::new(100_000_000, t0).unwrap();
    let d = st.decide(false, t0 + 250_000_000);
    // One render, and next_tick advances by exactly two whole ticks (200ms).
    assert_eq!(d, TickDecision::Render);
    assert_eq!(st.next_tick, t0 + 200_000_000);
    assert_eq!(st.tick_length, 100_000_000);
}

#[test]
fn exact_tick_advances_nothing_but_renders() {
    let t0: u64 = 500;
    let mut st = TickState::new(100, t0).unwrap();
    let d = st.decide(false, t0);
    assert_eq!(d, TickDecision::Render);
    assert_eq!(st.next_tick, t0);
    let d = st.decide(false, t0 + 99);
    // 99ns of debt is less than a whole tick: render, schedule unchanged.
    assert_eq!(d, TickDecision::Render);
    assert_eq!(st.next_tick, t0);
}

#[test]
fn ahead_of_schedule_sleeps_the_remainder() {
    let t0: u64 = 1_000;
    let mut st = TickState::new(100, t0).unwrap();
    let d = st.decide(false, t0 - 40);
    assert_eq!(d, TickDecision::Sleep(40));
    assert_eq!(st.next_tick, t0);
}

#[test]
fn close_always_stops_and_changes_nothing() {
    let t0: u64 = 77;
    let mut st = TickState::new(10, t0).unwrap();
    let d = st.decide(true, t0 + 1_000_000);
    assert_eq!(d, TickDecision::Stop);
    assert_eq!(st.next_tick, t0);
}

#[test]
fn sleep_granularity_is_whole_milliseconds_rounded_up() {
    assert_eq!(sleep_millis_for(0), 0);
    assert_eq!(sleep_millis_for(1), 1);
    assert_eq!(sleep_millis_for(999_999), 1);
    assert_eq!(sleep_millis_for(1_000_000), 1);
    assert_eq!(sleep_millis_for(1_000_001), 2);
}

/// One tick: every event queued before the boundary is dispatched, in
/// arrival order, strictly before the render; an event arriving after the
/// render begins waits for the next tick.
#[test]
fn all_queued_events_dispatch_in_order_before_render() {
    let mut w = SourceWindow::new(ScriptedSource {
        events: vec![
            RawEvent::ButtonPress(1),
            RawEvent::ButtonPress(2),
            RawEvent::ButtonRelease(1),
        ],
        next: 0,
    });
    let t0: u64 = 1_000;
    let mut st = TickState::new(100, t0).unwrap();
    let mut renders: Vec<Vec<ButtonEvent>> = Vec::new();

    match st.decide(false, t0) {
        TickDecision::Render => {
            let n = w.drain_events(usize::MAX);
            assert_eq!(n, 3);
            // What render observes: the full queue, already dispatched.
            renders.push(w.buttons().clone());
        }
        other => panic!("expected a render, got {:?}", other),
    }

    assert_eq!(renders.len(), 1);
    assert_eq!(
        renders[0].as_slice(),
        &[
            ButtonEvent { button: 1, state: ButtonState::Pressed },
            ButtonEvent { button: 2, state: ButtonState::Pressed },
            ButtonEvent { button: 1, state: ButtonState::Released },
        ]
    );

    // An event queued only after that render is not seen until the next
    // tick's drain.
    assert_eq!(w.drain_events(usize::MAX), 0);
}

/// `should_close` false for the first K checks and true on the next: the
/// loop runs exactly K tick-or-sleep iterations, then stops; render is
/// never invoked after termination.
#[test]
fn loop_stops_on_first_close_report() {
    let closes = [false, false, false, true, false];
    let t0: u64 = 10;
    let mut st = TickState::new(100, t0).unwrap();
    let mut iterations = 0usize;
    let mut renders = 0usize;
    let mut stopped = false;
    for (i, &close) in closes.iter().enumerate() {
        // The clock is always at or past the schedule: every live
        // iteration is a tick.
        match st.decide(close, t0 + (i as u64) * 1_000_000) {
            TickDecision::Stop => {
                stopped = true;
                break;
            }
            TickDecision::Render => {
                iterations += 1;
                renders += 1;
            }
            TickDecision::Sleep(_) => {
                iterations += 1;
            }
        }
    }
    assert!(stopped);
    assert_eq!(iterations, 3);
    assert_eq!(renders, 3);
}
