//! Input events and what an overlay answers to them.

use vstd::prelude::*;
use crate::geometry::Point;

verus! {

/// A button of a pointing device.
#[derive(Clone, Copy, Debug, PartialEq, Eq, Structural)]
pub enum MouseButton {
    Left,
    Right,
    Middle,
}

/// One input event, as the event loop hands it to an overlay.
///
/// Where the pointer is when a button or a key changes state is not part of
/// the event: the event loop passes the cursor position beside it.
#[derive(Clone, Copy, Debug, PartialEq, Eq, Structural)]
pub enum Event {
    /// The pointer moved to the given position.
    CursorMoved(Point),
    /// A button of the pointing device went down.
    ButtonPressed(MouseButton),
    /// A button of the pointing device came up.
    ButtonReleased(MouseButton),
    /// The key with the given code went down.
    KeyPressed(u32),
    /// The key with the given code came up.
    KeyReleased(u32),
}

/// What became of an event that was offered to an overlay.
#[derive(Clone, Copy, Debug, PartialEq, Eq, Structural)]
pub enum EventInteraction {
    /// The overlay had no use for the event; whatever lies below may have it.
    Ignored,
    /// The overlay consumed the event; nothing below should see it.
    Captured,
}

} // verus!
