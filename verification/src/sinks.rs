//! The reactive channel set and the dispatcher that routes raw events into it.
//!
//! Each raw event is routed to at most one channel; the routing is total and
//! pure, stated by [`dispatch_spec`]. The channel set owns one stream per
//! category; signals are derived from those streams in `source_win`.

use vstd::prelude::*;
use crate::event::{ButtonEvent, ButtonState, RawEvent};
use crate::stream::{scan_value, Stream};

verus! {

/// The mathematical model of the channel set: the push log of every channel,
/// oldest push first.
#[verifier::ext_equal]
pub ghost struct SinksModel {
    /// Pushes of the window-position channel. No raw event routes here, so
    /// under dispatching this log stays as it is and the position signal
    /// keeps showing its default.
    pub window_position: Seq<(i32, i32)>,
    /// Pushes of the window-size channel, one per resize event.
    pub window_size: Seq<(u32, u32)>,
    /// Pushes of the button channel, one per press or release.
    pub button: Seq<ButtonEvent>,
    /// Pushes of the cursor channel, one per cursor move.
    pub mouse_motion: Seq<(i64, i64)>,
    /// Pushes of the scroll-wheel channel, one relative delta per scroll.
    pub mouse_wheel: Seq<(i64, i64)>,
    /// Pushes of the focus channel, one per focus change.
    pub focus: Seq<bool>,
    /// Pushes of the text channel, one per text input.
    pub text: Seq<String>,
}

/// Where one raw event goes: each variant appends to exactly one channel,
/// except `OtherMotion`, which appends nowhere.
pub open spec fn dispatch_spec(m: SinksModel, event: RawEvent) -> SinksModel {
    match event {
        RawEvent::ButtonPress(b) => SinksModel {
            button: m.button.push(ButtonEvent { button: b, state: ButtonState::Pressed }),
            ..m
        },
        RawEvent::ButtonRelease(b) => SinksModel {
            button: m.button.push(ButtonEvent { button: b, state: ButtonState::Released }),
            ..m
        },
        RawEvent::CursorMove(x, y) => SinksModel { mouse_motion: m.mouse_motion.push((x, y)), ..m },
        RawEvent::ScrollMove(dx, dy) => SinksModel { mouse_wheel: m.mouse_wheel.push((dx, dy)), ..m },
        RawEvent::OtherMotion => m,
        RawEvent::TextInput(s) => SinksModel { text: m.text.push(s), ..m },
        RawEvent::Resize(w, h) => SinksModel { window_size: m.window_size.push((w, h)), ..m },
        RawEvent::FocusChange(flag) => SinksModel { focus: m.focus.push(flag), ..m },
    }
}

/// Dispatching a whole sequence of raw events, first event first.
pub open spec fn dispatch_all(m: SinksModel, events: Seq<RawEvent>) -> SinksModel
    decreases events.len(),
{
    if events.len() == 0 {
        m
    } else {
        dispatch_spec(dispatch_all(m, events.drop_last()), events.last())
    }
}

/// The channel set with no pushes yet.
pub open spec fn empty_sinks_model() -> SinksModel {
    SinksModel {
        window_position: Seq::empty(),
        window_size: Seq::empty(),
        button: Seq::empty(),
        mouse_motion: Seq::empty(),
        mouse_wheel: Seq::empty(),
        focus: Seq::empty(),
        text: Seq::empty(),
    }
}

/// The total number of pushes across all channels of the set.
pub open spec fn total_pushes(m: SinksModel) -> int {
    m.window_position.len() as int + m.window_size.len() + m.button.len() + m.mouse_motion.len()
        + m.mouse_wheel.len() + m.focus.len() + m.text.len()
}

/// The value of the wheel signal over the scroll pushes `s`: the running
/// component-wise sum of every delta since start, from `(0, 0)`, with
/// 64-bit wrap-around on each component.
pub open spec fn wheel_value(s: Seq<(i64, i64)>) -> (i64, i64) {
    scan_value(
        s,
        (0i64, 0i64),
        |acc: (i64, i64), d: (i64, i64)|
            (
                vstd::wrapping::i64_specs::wrapping_add(acc.0, d.0),
                vstd::wrapping::i64_specs::wrapping_add(acc.1, d.1),
            ),
    )
}

/// Every channel of `a` is an unchanged prefix of the same channel of `b`:
/// history is only ever appended to, never rewritten or reset.
pub open spec fn sinks_extend(a: SinksModel, b: SinksModel) -> bool {
    &&& a.window_position.is_prefix_of(b.window_position)
    &&& a.window_size.is_prefix_of(b.window_size)
    &&& a.button.is_prefix_of(b.button)
    &&& a.mouse_motion.is_prefix_of(b.mouse_motion)
    &&& a.mouse_wheel.is_prefix_of(b.mouse_wheel)
    &&& a.focus.is_prefix_of(b.focus)
    &&& a.text.is_prefix_of(b.text)
}

proof fn lemma_prefix_refl<T>(s: Seq<T>)
    ensures
        s.is_prefix_of(s),
{
    assert(s.subrange(0, s.len() as int) =~= s);
}

proof fn lemma_prefix_push<T>(s: Seq<T>, v: T)
    ensures
        s.is_prefix_of(s.push(v)),
{
    assert(s.push(v).subrange(0, s.len() as int) =~= s);
}

proof fn lemma_prefix_trans<T>(a: Seq<T>, b: Seq<T>, c: Seq<T>)
    requires
        a.is_prefix_of(b),
        b.is_prefix_of(c),
    ensures
        a.is_prefix_of(c),
{
    assert(a =~= c.subrange(0, a.len() as int)) by {
        assert forall|i: int| 0 <= i < a.len() implies a[i] == c.subrange(0, a.len() as int)[i] by {
            assert(a[i] == b.subrange(0, a.len() as int)[i]);
            assert(b[i] == c.subrange(0, b.len() as int)[i]);
        }
    }
}

/// One dispatched event only appends: the channel set before is a prefix,
/// channel for channel, of the channel set after.
pub proof fn lemma_dispatch_extends(m: SinksModel, event: RawEvent)
    ensures
        sinks_extend(m, dispatch_spec(m, event)),
{
    lemma_prefix_refl(m.window_position);
    lemma_prefix_refl(m.window_size);
    lemma_prefix_refl(m.button);
    lemma_prefix_refl(m.mouse_motion);
    lemma_prefix_refl(m.mouse_wheel);
    lemma_prefix_refl(m.focus);
    lemma_prefix_refl(m.text);
    match event {
        RawEvent::ButtonPress(b) => lemma_prefix_push(
            m.button,
            ButtonEvent { button: b, state: ButtonState::Pressed },
        ),
        RawEvent::ButtonRelease(b) => lemma_prefix_push(
            m.button,
            ButtonEvent { button: b, state: ButtonState::Released },
        ),
        RawEvent::CursorMove(x, y) => lemma_prefix_push(m.mouse_motion, (x, y)),
        RawEvent::ScrollMove(dx, dy) => lemma_prefix_push(m.mouse_wheel, (dx, dy)),
        RawEvent::OtherMotion => (),
        RawEvent::TextInput(s) => lemma_prefix_push(m.text, s),
        RawEvent::Resize(w, h) => lemma_prefix_push(m.window_size, (w, h)),
        RawEvent::FocusChange(flag) => lemma_prefix_push(m.focus, flag),
    }
}

/// Prefix extension composes across channel-set states.
pub proof fn lemma_extend_trans(a: SinksModel, b: SinksModel, c: SinksModel)
    requires
        sinks_extend(a, b),
        sinks_extend(b, c),
    ensures
        sinks_extend(a, c),
{
    lemma_prefix_trans(a.window_position, b.window_position, c.window_position);
    lemma_prefix_trans(a.window_size, b.window_size, c.window_size);
    lemma_prefix_trans(a.button, b.button, c.button);
    lemma_prefix_trans(a.mouse_motion, b.mouse_motion, c.mouse_motion);
    lemma_prefix_trans(a.mouse_wheel, b.mouse_wheel, c.mouse_wheel);
    lemma_prefix_trans(a.focus, b.focus, c.focus);
    lemma_prefix_trans(a.text, b.text, c.text);
}

/// Dispatching any sequence of events only ever appends to the channels:
/// nothing already pushed is rewritten, reordered or reset.
pub proof fn lemma_dispatch_all_extends(m: SinksModel, events: Seq<RawEvent>)
    ensures
        sinks_extend(m, dispatch_all(m, events)),
    decreases events.len(),
{
    if events.len() == 0 {
        lemma_prefix_refl(m.window_position);
        lemma_prefix_refl(m.window_size);
        lemma_prefix_refl(m.button);
        lemma_prefix_refl(m.mouse_motion);
        lemma_prefix_refl(m.mouse_wheel);
        lemma_prefix_refl(m.focus);
        lemma_prefix_refl(m.text);
    } else {
        lemma_dispatch_all_extends(m, events.drop_last());
        lemma_dispatch_extends(dispatch_all(m, events.drop_last()), events.last());
        lemma_extend_trans(
            m,
            dispatch_all(m, events.drop_last()),
            dispatch_all(m, events),
        );
    }
}

/// The button transitions a sequence of raw events pushes, in event order.
pub open spec fn button_pushes(events: Seq<RawEvent>) -> Seq<ButtonEvent>
    decreases events.len(),
{
    if events.len() == 0 {
        Seq::empty()
    } else {
        button_pushes(events.drop_last()) + match events.last() {
            RawEvent::ButtonPress(b) => seq![ButtonEvent { button: b, state: ButtonState::Pressed }],
            RawEvent::ButtonRelease(b) => seq![
                ButtonEvent { button: b, state: ButtonState::Released },
            ],
            _ => Seq::empty(),
        }
    }
}

/// The window sizes a sequence of raw events pushes, in event order.
pub open spec fn size_pushes(events: Seq<RawEvent>) -> Seq<(u32, u32)>
    decreases events.len(),
{
    if events.len() == 0 {
        Seq::empty()
    } else {
        size_pushes(events.drop_last()) + match events.last() {
            RawEvent::Resize(w, h) => seq![(w, h)],
            _ => Seq::empty(),
        }
    }
}

/// The cursor positions a sequence of raw events pushes, in event order.
pub open spec fn cursor_pushes(events: Seq<RawEvent>) -> Seq<(i64, i64)>
    decreases events.len(),
{
    if events.len() == 0 {
        Seq::empty()
    } else {
        cursor_pushes(events.drop_last()) + match events.last() {
            RawEvent::CursorMove(x, y) => seq![(x, y)],
            _ => Seq::empty(),
        }
    }
}

/// The scroll deltas a sequence of raw events pushes, in event order.
pub open spec fn wheel_pushes(events: Seq<RawEvent>) -> Seq<(i64, i64)>
    decreases events.len(),
{
    if events.len() == 0 {
        Seq::empty()
    } else {
        wheel_pushes(events.drop_last()) + match events.last() {
            RawEvent::ScrollMove(dx, dy) => seq![(dx, dy)],
            _ => Seq::empty(),
        }
    }
}

/// The focus flags a sequence of raw events pushes, in event order.
pub open spec fn focus_pushes(events: Seq<RawEvent>) -> Seq<bool>
    decreases events.len(),
{
    if events.len() == 0 {
        Seq::empty()
    } else {
        focus_pushes(events.drop_last()) + match events.last() {
            RawEvent::FocusChange(flag) => seq![flag],
            _ => Seq::empty(),
        }
    }
}

/// The texts a sequence of raw events pushes, in event order.
pub open spec fn text_pushes(events: Seq<RawEvent>) -> Seq<String>
    decreases events.len(),
{
    if events.len() == 0 {
        Seq::empty()
    } else {
        text_pushes(events.drop_last()) + match events.last() {
            RawEvent::TextInput(s) => seq![s],
            _ => Seq::empty(),
        }
    }
}

/// Dispatching a sequence of raw events appends to each channel exactly the
/// pushes the mapping table assigns it, in event order, and never touches
/// the window-position channel: the aggregate form of the mapping table.
pub proof fn lemma_dispatch_all_exact(m: SinksModel, events: Seq<RawEvent>)
    ensures
        dispatch_all(m, events).window_position == m.window_position,
        dispatch_all(m, events).window_size =~= m.window_size + size_pushes(events),
        dispatch_all(m, events).button =~= m.button + button_pushes(events),
        dispatch_all(m, events).mouse_motion =~= m.mouse_motion + cursor_pushes(events),
        dispatch_all(m, events).mouse_wheel =~= m.mouse_wheel + wheel_pushes(events),
        dispatch_all(m, events).focus =~= m.focus + focus_pushes(events),
        dispatch_all(m, events).text =~= m.text + text_pushes(events),
    decreases events.len(),
{
    if events.len() == 0 {
    } else {
        lemma_dispatch_all_exact(m, events.drop_last());
    }
}

/// Every raw event produces at most one channel push, and `OtherMotion`
/// produces none and leaves the whole set unchanged.
pub proof fn lemma_dispatch_at_most_one_push(m: SinksModel, event: RawEvent)
    ensures
        total_pushes(dispatch_spec(m, event)) <= total_pushes(m) + 1,
        event is OtherMotion ==> dispatch_spec(m, event) == m,
        !(event is OtherMotion) ==> total_pushes(dispatch_spec(m, event)) == total_pushes(m) + 1,
{
}

/// Only a focus-change event can move the focus channel: every other event
/// leaves its push log, and hence the focus signal, unchanged.
pub proof fn lemma_focus_unmoved_by_others(m: SinksModel, event: RawEvent)
    requires
        !(event is FocusChange),
    ensures
        dispatch_spec(m, event).focus == m.focus,
{
}

/// The exclusive owner of all channels; state changes only through
/// [`EventSinks::dispatch`].
pub struct EventSinks {
    window_position: Stream<(i32, i32)>,
    window_size: Stream<(u32, u32)>,
    button: Stream<ButtonEvent>,
    mouse_motion: Stream<(i64, i64)>,
    mouse_wheel: Stream<(i64, i64)>,
    focus: Stream<bool>,
    text: Stream<String>,
}

impl View for EventSinks {
    type V = SinksModel;

    closed spec fn view(&self) -> SinksModel {
        SinksModel {
            window_position: self.window_position@,
            window_size: self.window_size@,
            button: self.button@,
            mouse_motion: self.mouse_motion@,
            mouse_wheel: self.mouse_wheel@,
            focus: self.focus@,
            text: self.text@,
        }
    }
}

impl EventSinks {
    /// A channel set with every log empty.
    pub fn new() -> (s: Self)
        ensures
            s@ == empty_sinks_model(),
    {
        let s = EventSinks {
            window_position: Stream::new(),
            window_size: Stream::new(),
            button: Stream::new(),
            mouse_motion: Stream::new(),
            mouse_wheel: Stream::new(),
            focus: Stream::new(),
            text: Stream::new(),
        };
        proof {
            assert(s@ =~= empty_sinks_model());
        }
        s
    }

    /// Route one raw event to its channel, per the mapping table: button
    /// transitions to `button`, cursor moves to `mouse_motion`, scroll deltas
    /// to `mouse_wheel`, text to `text`, resizes to `window_size`, focus
    /// changes to `focus`, and `OtherMotion` nowhere. Total; never fails.
    pub fn dispatch(&mut self, event: RawEvent)
        ensures
            final(self)@ == dispatch_spec(old(self)@, event),
    {
        let ghost ev = event;
        match event {
            RawEvent::ButtonPress(b) => self.button.push(
                ButtonEvent { button: b, state: ButtonState::Pressed },
            ),
            RawEvent::ButtonRelease(b) => self.button.push(
                ButtonEvent { button: b, state: ButtonState::Released },
            ),
            RawEvent::CursorMove(x, y) => self.mouse_motion.push((x, y)),
            RawEvent::ScrollMove(dx, dy) => self.mouse_wheel.push((dx, dy)),
            RawEvent::OtherMotion => (),
            RawEvent::TextInput(s) => self.text.push(s),
            RawEvent::Resize(w, h) => self.window_size.push((w, h)),
            RawEvent::FocusChange(flag) => self.focus.push(flag),
        }
        proof {
            assert(self@ =~= dispatch_spec(old(self)@, ev));
        }
    }

    /// Read access for the derived signals and streams.
    pub fn window_position(&self) -> (r: &Stream<(i32, i32)>)
        ensures
            r@ == self@.window_position,
    {
        &self.window_position
    }

    /// Read access to the window-size channel.
    pub fn window_size(&self) -> (r: &Stream<(u32, u32)>)
        ensures
            r@ == self@.window_size,
    {
        &self.window_size
    }

    /// Read access to the button channel.
    pub fn button(&self) -> (r: &Stream<ButtonEvent>)
        ensures
            r@ == self@.button,
    {
        &self.button
    }

    /// Read access to the cursor channel.
    pub fn mouse_motion(&self) -> (r: &Stream<(i64, i64)>)
        ensures
            r@ == self@.mouse_motion,
    {
        &self.mouse_motion
    }

    /// Read access to the scroll-wheel channel.
    pub fn mouse_wheel(&self) -> (r: &Stream<(i64, i64)>)
        ensures
            r@ == self@.mouse_wheel,
    {
        &self.mouse_wheel
    }

    /// Read access to the focus channel.
    pub fn focus(&self) -> (r: &Stream<bool>)
        ensures
            r@ == self@.focus,
    {
        &self.focus
    }

    /// Read access to the text channel.
    pub fn text(&self) -> (r: &Stream<String>)
        ensures
            r@ == self@.text,
    {
        &self.text
    }
}

} // verus!
