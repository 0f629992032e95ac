//! Dispatch routing and signal derivation, observed through the public API.

use reactive_window::event::{ButtonEvent, ButtonState, RawEvent};
use reactive_window::source_win::{EventSource, SourceWindow};

/// A source backed by a fixed script of events; never requests closing.
struct ScriptedSource {
    events: Vec<RawEvent>,
    next: usize,
}

impl ScriptedSource {
    fn new(events: Vec<RawEvent>) -> ScriptedSource {
        ScriptedSource { events, next: 0 }
    }
}

impl EventSource for ScriptedSource {
    fn should_close(&self) -> bool {
        false
    }

    fn poll_event(&mut self) -> Option<RawEvent> {
        if self.next < self.events.len() {
            self.next += 1;
            Some(self.events[self.next - 1].clone())
        } else {
            None
        }
    }
}

fn window_with(events: Vec<RawEvent>) -> SourceWindow<ScriptedSource> {
    SourceWindow::new(ScriptedSource::new(events))
}

#[test]
fn fresh_window_shows_defaults() {
    let w = window_with(vec![]);
    assert_eq!(w.position(), (0, 0));
    assert_eq!(w.size(), (0, 0));
    assert_eq!(w.cursor(), (0, 0));
    assert_eq!(w.wheel(), (0, 0));
    assert_eq!(w.focus(), true);
    assert!(w.buttons().is_empty());
    assert!(w.text().is_empty());
}

#[test]
fn button_press_routes_to_button_stream_only() {
    let mut w = window_with(vec![RawEvent::ButtonPress(7)]);
    let n = w.drain_events(usize::MAX);
    assert_eq!(n, 1);
    assert_eq!(
        w.buttons().as_slice(),
        &[ButtonEvent { button: 7, state: ButtonState::Pressed }]
    );
    assert!(w.text().is_empty());
    assert_eq!(w.position(), (0, 0));
    assert_eq!(w.size(), (0, 0));
    assert_eq!(w.cursor(), (0, 0));
    assert_eq!(w.wheel(), (0, 0));
    assert_eq!(w.focus(), true);
}

#[test]
fn button_release_routes_to_button_stream() {
    let mut w = window_with(vec![RawEvent::ButtonRelease(3)]);
    w.drain_events(usize::MAX);
    assert_eq!(
        w.buttons().as_slice(),
        &[ButtonEvent { button: 3, state: ButtonState::Released }]
    );
}

#[test]
fn other_motion_routes_nowhere() {
    let mut w = window_with(vec![RawEvent::OtherMotion, RawEvent::OtherMotion]);
    let n = w.drain_events(usize::MAX);
    assert_eq!(n, 2);
    assert!(w.buttons().is_empty());
    assert!(w.text().is_empty());
    assert_eq!(w.position(), (0, 0));
    assert_eq!(w.size(), (0, 0));
    assert_eq!(w.cursor(), (0, 0));
    assert_eq!(w.wheel(), (0, 0));
    assert_eq!(w.focus(), true);
}

#[test]
fn cursor_holds_latest_push() {
    let mut w = window_with(vec![RawEvent::CursorMove(1, 2)]);
    w.drain_events(usize::MAX);
    assert_eq!(w.cursor(), (1, 2));
}

#[test]
fn hold_reads_between_pushes_are_unchanged() {
    let mut w = window_with(vec![
        RawEvent::CursorMove(1, 2),
        RawEvent::CursorMove(5, 6),
    ]);
    // Drain one event per call: sample between the two pushes.
    w.drain_events(1);
    assert_eq!(w.cursor(), (1, 2));
    assert_eq!(w.cursor(), (1, 2));
    w.drain_events(1);
    assert_eq!(w.cursor(), (5, 6));
}

#[test]
fn size_holds_latest_resize() {
    let mut w = window_with(vec![RawEvent::Resize(640, 480), RawEvent::Resize(800, 600)]);
    w.drain_events(usize::MAX);
    assert_eq!(w.size(), (800, 600));
}

#[test]
fn position_default_persists_under_dispatch() {
    let mut w = window_with(vec![
        RawEvent::CursorMove(9, 9),
        RawEvent::Resize(1, 1),
        RawEvent::ButtonPress(1),
        RawEvent::FocusChange(false),
    ]);
    w.drain_events(usize::MAX);
    assert_eq!(w.position(), (0, 0));
}

#[test]
fn wheel_accumulates_deltas() {
    let mut w = window_with(vec![RawEvent::ScrollMove(1, 2), RawEvent::ScrollMove(3, -1)]);
    assert_eq!(w.wheel(), (0, 0));
    w.drain_events(usize::MAX);
    assert_eq!(w.wheel(), (4, 1));
}

#[test]
fn focus_defaults_true_then_tracks_pushes() {
    let mut w = window_with(vec![
        RawEvent::FocusChange(false),
        RawEvent::CursorMove(2, 2),
        RawEvent::ButtonPress(4),
        RawEvent::FocusChange(true),
    ]);
    assert_eq!(w.focus(), true);
    w.drain_events(1);
    assert_eq!(w.focus(), false);
    // Unrelated events leave focus alone until the next focus push.
    w.drain_events(1);
    assert_eq!(w.focus(), false);
    w.drain_events(1);
    assert_eq!(w.focus(), false);
    w.drain_events(1);
    assert_eq!(w.focus(), true);
}

#[test]
fn text_stream_records_pushes_in_order() {
    let mut w = window_with(vec![
        RawEvent::TextInput(String::from("ab")),
        RawEvent::TextInput(String::from("c")),
    ]);
    w.drain_events(usize::MAX);
    assert_eq!(w.text().as_slice(), &[String::from("ab"), String::from("c")]);
}

#[test]
fn drain_respects_budget() {
    let mut w = window_with(vec![
        RawEvent::ButtonPress(1),
        RawEvent::ButtonPress(2),
        RawEvent::ButtonPress(3),
    ]);
    let n = w.drain_events(2);
    assert_eq!(n, 2);
    assert_eq!(w.buttons().len(), 2);
    let n = w.drain_events(usize::MAX);
    assert_eq!(n, 1);
    assert_eq!(w.buttons().len(), 3);
}

#[test]
fn wheel_wraps_at_the_integer_boundary() {
    let mut w = window_with(vec![
        RawEvent::ScrollMove(i64::MAX, 0),
        RawEvent::ScrollMove(1, -1),
    ]);
    w.drain_events(usize::MAX);
    assert_eq!(w.wheel(), (i64::MIN, -1));
}

#[test]
fn manual_dispatch_matches_mapping() {
    let mut w = window_with(vec![]);
    w.dispatch(RawEvent::ScrollMove(-2, 5));
    w.dispatch(RawEvent::TextInput(String::from("x")));
    assert_eq!(w.wheel(), (-2, 5));
    assert_eq!(w.text().as_slice(), &[String::from("x")]);
}
