//! Raw input events and the button event type derived from them.

use vstd::prelude::*;

verus! {

/// Whether a button went down or up.
#[derive(Clone, Copy, Debug, PartialEq, Eq, Structural)]
pub enum ButtonState {
    /// The button was pressed.
    Pressed,
    /// The button was released.
    Released,
}

/// A single button transition, one per press or release.
#[derive(Clone, Copy, Debug, PartialEq, Eq, Structural)]
pub struct ButtonEvent {
    /// Identifier of the button, as reported by the backing window.
    pub button: u64,
    /// The transition that occurred.
    pub state: ButtonState,
}

/// A raw event polled from the backing window or input device.
///
/// Cursor and scroll coordinates are carried as plain integer counts so that
/// the accumulation rules over them can be stated exactly; an adapter around
/// a concrete backend converts that backend's coordinates into these.
#[derive(Clone, Debug)]
pub enum RawEvent {
    /// A button went down.
    ButtonPress(u64),
    /// A button went up.
    ButtonRelease(u64),
    /// The pointer moved to an absolute position.
    CursorMove(i64, i64),
    /// The scroll wheel moved by a relative delta.
    ScrollMove(i64, i64),
    /// Any other motion subtype; routed nowhere by design.
    OtherMotion,
    /// Text was entered.
    TextInput(String),
    /// The window was resized.
    Resize(u32, u32),
    /// The window gained or lost focus.
    FocusChange(bool),
}

} // verus!
