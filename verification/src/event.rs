//! The events a window hands to the application.

use vstd::prelude::*;

use crate::input::{Key, MouseButton};

verus! {

/// One normalised input or window event.
#[derive(Clone, Copy, Debug, PartialEq, Eq, Structural)]
pub enum Event {
    /// A key went down.
    KeyboardDown(Key),
    /// A key came up.
    KeyboardUp(Key),
    /// A mouse button went down.
    MouseButtonDown(MouseButton),
    /// A mouse button came up.
    MouseButtonUp(MouseButton),
    /// The wheel was rotated away from the user.
    MouseWheelUp,
    /// The wheel was rotated towards the user.
    MouseWheelDown,
    /// The client area now has this width and height.
    Resize(u32, u32),
}

} // verus!
