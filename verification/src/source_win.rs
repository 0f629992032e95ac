//! A reactive window generic over its event source.
//!
//! [`SourceWindow`] owns an event source and the reactive channel set, and
//! exposes the derived signals and streams. A host loop drives it together
//! with a [`crate::scheduler::TickState`]: each due tick it drains all
//! pending events into the channels and then renders once.

use vstd::prelude::*;
use crate::event::{ButtonEvent, RawEvent};
use crate::sinks::{
    dispatch_all, dispatch_spec, empty_sinks_model, lemma_dispatch_all_extends, sinks_extend,
    wheel_value, EventSinks, SinksModel,
};
use crate::stream::hold_value;

verus! {

/// A source of window events.
///
/// Normally this is a window handle, but the interface is minimal enough
/// for any polled device: a non-blocking close query and a non-blocking
/// poll for the next queued event. Implementations live with their backend;
/// nothing is assumed of them here beyond their signatures.
pub trait EventSource {
    /// Has the backing resource requested termination? Non-blocking; safe
    /// to call every loop iteration.
    fn should_close(&self) -> bool;

    /// The next queued raw event, if any; `None` with no side effect
    /// otherwise. Never blocks.
    fn poll_event(&mut self) -> Option<RawEvent>;
}

/// A reactive window implementation generic over the event source.
///
/// Its view is the model of its channel set: the push log of every channel.
/// All state changes originate from dispatching polled events; the source
/// itself is never touched except through its two capability calls.
pub struct SourceWindow<S> {
    source: S,
    sinks: EventSinks,
}

impl<S> View for SourceWindow<S> {
    type V = SinksModel;

    closed spec fn view(&self) -> SinksModel {
        self.sinks@
    }
}

impl<S: EventSource> SourceWindow<S> {
    /// Wrap an event source, with every channel starting empty.
    pub fn new(source: S) -> (w: SourceWindow<S>)
        ensures
            w@ == empty_sinks_model(),
    {
        SourceWindow { source, sinks: EventSinks::new() }
    }

    /// Ask the source whether it requested termination. Channels unchanged.
    pub fn should_close(&self) -> bool {
        self.source.should_close()
    }

    /// Route one raw event into its channel, per the dispatch mapping.
    pub fn dispatch(&mut self, event: RawEvent)
        ensures
            final(self)@ == dispatch_spec(old(self)@, event),
    {
        self.sinks.dispatch(event);
    }

    /// Drain the source: poll and dispatch queued events, in arrival order,
    /// until the source reports none queued or `max_events` events have been
    /// taken, whichever comes first. Returns how many were dispatched.
    ///
    /// The channels afterwards hold exactly the old history with the polled
    /// events dispatched onto it, in poll order; nothing already pushed is
    /// disturbed.
    pub fn drain_events(&mut self, max_events: usize) -> (n: usize)
        ensures
            n <= max_events,
            exists|events: Seq<RawEvent>|
                events.len() == n && final(self)@ == dispatch_all(old(self)@, events),
            sinks_extend(old(self)@, final(self)@),
    {
        let mut n: usize = 0;
        let ghost mut events: Seq<RawEvent> = Seq::empty();
        while n < max_events
            invariant
                n <= max_events,
                events.len() == n as int,
                self@ == dispatch_all(old(self)@, events),
            ensures
                n <= max_events,
                events.len() == n as int,
                self@ == dispatch_all(old(self)@, events),
            decreases max_events - n,
        {
            match self.source.poll_event() {
                None => { break ; },
                Some(event) => {
                    let ghost prev = events;
                    let ghost ev = event;
                    self.sinks.dispatch(event);
                    proof {
                        events = prev.push(ev);
                        assert(events.drop_last() =~= prev);
                    }
                    n = n + 1;
                },
            }
        }
        proof {
            assert(events.len() == n && self@ == dispatch_all(old(self)@, events));
            lemma_dispatch_all_extends(old(self)@, events);
        }
        n
    }
}

impl<S> SourceWindow<S> {
    /// The window-position signal: the latest pushed position, `(0, 0)`
    /// before any push. No raw event routes to this channel, so the default
    /// persists under dispatching.
    pub fn position(&self) -> (r: (i32, i32))
        ensures
            r == hold_value(self@.window_position, (0i32, 0i32)),
    {
        self.sinks.window_position().latest_or((0, 0))
    }

    /// The window-size signal: the latest resize, `(0, 0)` before any.
    pub fn size(&self) -> (r: (u32, u32))
        ensures
            r == hold_value(self@.window_size, (0u32, 0u32)),
    {
        self.sinks.window_size().latest_or((0, 0))
    }

    /// The button stream: every press and release, in push order.
    pub fn buttons(&self) -> (r: &Vec<ButtonEvent>)
        ensures
            r@ == self@.button,
    {
        self.sinks.button().values()
    }

    /// The text stream: every entered text, in push order.
    pub fn text(&self) -> (r: &Vec<String>)
        ensures
            r@ == self@.text,
    {
        self.sinks.text().values()
    }

    /// The cursor signal: the latest pointer position, `(0, 0)` before any.
    pub fn cursor(&self) -> (r: (i64, i64))
        ensures
            r == hold_value(self@.mouse_motion, (0i64, 0i64)),
    {
        self.sinks.mouse_motion().latest_or((0, 0))
    }

    /// The wheel signal: the cumulative sum of every scroll delta since
    /// start, from `(0, 0)`; never reset.
    pub fn wheel(&self) -> (r: (i64, i64))
        ensures
            r == wheel_value(self@.mouse_wheel),
    {
        wheel_of(self.sinks.mouse_wheel().values())
    }

    /// The focus signal: the latest focus change, `true` before any.
    pub fn focus(&self) -> (r: bool)
        ensures
            r == hold_value(self@.focus, true),
    {
        self.sinks.focus().latest_or(true)
    }
}

/// Fold a scroll log into the wheel signal's value.
fn wheel_of(deltas: &Vec<(i64, i64)>) -> (r: (i64, i64))
    ensures
        r == wheel_value(deltas@),
{
    let mut x: i64 = 0;
    let mut y: i64 = 0;
    let mut i: usize = 0;
    while i < deltas.len()
        invariant
            i <= deltas.len(),
            (x, y) == wheel_value(deltas@.take(i as int)),
        decreases deltas.len() - i,
    {
        let d = deltas[i];
        proof {
            assert(deltas@.take(i + 1 as int).drop_last() =~= deltas@.take(i as int));
            assert(deltas@.take(i + 1 as int).last() == deltas@[i as int]);
        }
        x = x.wrapping_add(d.0);
        y = y.wrapping_add(d.1);
        i = i + 1;
    }
    proof {
        assert(deltas@.take(deltas@.len() as int) =~= deltas@);
    }
    (x, y)
}

} // verus!
