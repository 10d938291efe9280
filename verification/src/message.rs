//! Raw window messages and their decoding into typed notifications.

use vstd::prelude::*;

use crate::geometry::{clamped, Rect};
use crate::input::MouseButton;

verus! {

/// The client area changed size; `lparam` packs the new width and height.
pub const WM_SIZE: u32 = 0x0005;

/// The window needs repainting.
pub const WM_PAINT: u32 = 0x000F;

/// The user asked to close the window.
pub const WM_CLOSE: u32 = 0x0010;

/// The background needs erasing before a repaint.
pub const WM_ERASEBKGND: u32 = 0x0014;

/// A key went down; `wparam` holds its virtual-key code.
pub const WM_KEYDOWN: u32 = 0x0100;

/// A key came up; `wparam` holds its virtual-key code.
pub const WM_KEYUP: u32 = 0x0101;

/// The left mouse button went down.
pub const WM_LBUTTONDOWN: u32 = 0x0201;

/// The left mouse button came up.
pub const WM_LBUTTONUP: u32 = 0x0202;

/// The right mouse button went down.
pub const WM_RBUTTONDOWN: u32 = 0x0204;

/// The right mouse button came up.
pub const WM_RBUTTONUP: u32 = 0x0205;

/// The middle mouse button went down.
pub const WM_MBUTTONDOWN: u32 = 0x0207;

/// The middle mouse button came up.
pub const WM_MBUTTONUP: u32 = 0x0208;

/// The wheel was rotated; the high word of `wparam` holds the signed distance.
pub const WM_MOUSEWHEEL: u32 = 0x020A;

/// The user is dragging a border; `lparam` points to the window rectangle.
pub const WM_SIZING: u32 = 0x0214;

/// A window message reduced to what the router acts on.
#[derive(Clone, Copy, Debug, PartialEq, Eq, Structural)]
pub enum Notification {
    /// The window asks to be repainted.
    Paint,
    /// The window asks for its background to be erased.
    EraseBackground,
    /// The user asked to close the window.
    Close,
    /// A key went down, by its virtual-key code.
    KeyDown(u8),
    /// A key came up, by its virtual-key code.
    KeyUp(u8),
    /// A mouse button went down.
    ButtonDown(MouseButton),
    /// A mouse button came up.
    ButtonUp(MouseButton),
    /// The wheel was rotated by this signed distance.
    Wheel(i16),
    /// The client area settled at this width and height.
    Size(u32, u32),
    /// The window is being dragged to this width and height.
    Sizing(u32, u32),
    /// Any message the router has no rule for.
    Other,
}

/// The low 16 bits of `x`, as a number from 0 to 65535.
pub open spec fn low_word(x: int) -> int {
    x % 0x1_0000
}

/// Bits 16 to 31 of `x`, as a number from 0 to 65535.
pub open spec fn high_word(x: int) -> int {
    (x / 0x1_0000) % 0x1_0000
}

/// The low 8 bits of `x`, as a number from 0 to 255.
pub open spec fn low_byte(x: int) -> int {
    x % 0x100
}

/// A 16-bit pattern read as a two's complement number.
pub open spec fn signed_word(w: int) -> int {
    if w >= 0x8000 {
        w - 0x1_0000
    } else {
        w
    }
}

/// What a raw message means.
///
/// `sizing` is the rectangle behind `lparam` of a `WM_SIZING` message; no
/// other message reads it. A `WM_SIZING` without a rectangle carries no size
/// and counts as a message without a rule.
pub open spec fn decoded(msg: u32, wparam: usize, lparam: isize, sizing: Option<Rect>)
    -> Notification {
    if msg == WM_PAINT {
        Notification::Paint
    } else if msg == WM_ERASEBKGND {
        Notification::EraseBackground
    } else if msg == WM_CLOSE {
        Notification::Close
    } else if msg == WM_KEYDOWN {
        Notification::KeyDown(low_byte(wparam as int) as u8)
    } else if msg == WM_KEYUP {
        Notification::KeyUp(low_byte(wparam as int) as u8)
    } else if msg == WM_LBUTTONDOWN {
        Notification::ButtonDown(MouseButton::Left)
    } else if msg == WM_LBUTTONUP {
        Notification::ButtonUp(MouseButton::Left)
    } else if msg == WM_RBUTTONDOWN {
        Notification::ButtonDown(MouseButton::Right)
    } else if msg == WM_RBUTTONUP {
        Notification::ButtonUp(MouseButton::Right)
    } else if msg == WM_MBUTTONDOWN {
        Notification::ButtonDown(MouseButton::Middle)
    } else if msg == WM_MBUTTONUP {
        Notification::ButtonUp(MouseButton::Middle)
    } else if msg == WM_MOUSEWHEEL {
        Notification::Wheel(signed_word(high_word(wparam as int)) as i16)
    } else if msg == WM_SIZE {
        Notification::Size(low_word(lparam as int) as u32, high_word(lparam as int) as u32)
    } else if msg == WM_SIZING {
        match sizing {
            Some(rect) => Notification::Sizing(
                clamped(rect.span_x(), 0, u32::MAX as int) as u32,
                clamped(rect.span_y(), 0, u32::MAX as int) as u32,
            ),
            None => Notification::Other,
        }
    } else {
        Notification::Other
    }
}

/// The low 8 bits of a message parameter.
pub fn key_code(wparam: usize) -> (code: u8)
    ensures
        code == low_byte(wparam as int),
{
    (wparam % 0x100) as u8
}

/// The signed wheel distance in the high word of a message parameter.
pub fn wheel_delta(wparam: usize) -> (delta: i16)
    ensures
        delta == signed_word(high_word(wparam as int)),
{
    let high: usize = (wparam / 0x1_0000) % 0x1_0000;
    if high >= 0x8000 {
        (high as i32 - 0x1_0000) as i16
    } else {
        high as i16
    }
}

/// The width and height packed into the low and high word of a message
/// parameter.
pub fn packed_size(lparam: isize) -> (size: (u32, u32))
    ensures
        size.0 == low_word(lparam as int),
        size.1 == high_word(lparam as int),
{
    let value: i64 = lparam as i64;
    let rem: i64 = value % 0x1_0000;
    let low: i64 = if rem < 0 { rem + 0x1_0000 } else { rem };
    let floor: i64 = (value - low) / 0x1_0000;
    let rem_high: i64 = floor % 0x1_0000;
    let high: i64 = if rem_high < 0 { rem_high + 0x1_0000 } else { rem_high };
    (low as u32, high as u32)
}

impl Notification {
    /// Decodes a raw window message.
    ///
    /// For a `WM_SIZING` message the caller passes the rectangle that
    /// `lparam` points to, or `None` if it could not be read; for every
    /// other message `sizing` is ignored.
    pub fn decode(msg: u32, wparam: usize, lparam: isize, sizing: Option<Rect>) -> (note:
        Notification)
        ensures
            note == decoded(msg, wparam, lparam, sizing),
    {
        if msg == WM_PAINT {
            Notification::Paint
        } else if msg == WM_ERASEBKGND {
            Notification::EraseBackground
        } else if msg == WM_CLOSE {
            Notification::Close
        } else if msg == WM_KEYDOWN {
            Notification::KeyDown(key_code(wparam))
        } else if msg == WM_KEYUP {
            Notification::KeyUp(key_code(wparam))
        } else if msg == WM_LBUTTONDOWN {
            Notification::ButtonDown(MouseButton::Left)
        } else if msg == WM_LBUTTONUP {
            Notification::ButtonUp(MouseButton::Left)
        } else if msg == WM_RBUTTONDOWN {
            Notification::ButtonDown(MouseButton::Right)
        } else if msg == WM_RBUTTONUP {
            Notification::ButtonUp(MouseButton::Right)
        } else if msg == WM_MBUTTONDOWN {
            Notification::ButtonDown(MouseButton::Middle)
        } else if msg == WM_MBUTTONUP {
            Notification::ButtonUp(MouseButton::Middle)
        } else if msg == WM_MOUSEWHEEL {
            Notification::Wheel(wheel_delta(wparam))
        } else if msg == WM_SIZE {
            let size: (u32, u32) = packed_size(lparam);
            Notification::Size(size.0, size.1)
        } else if msg == WM_SIZING {
            match sizing {
                Some(rect) => {
                    let size: (u32, u32) = rect.extent();
                    Notification::Sizing(size.0, size.1)
                },
                None => Notification::Other,
            }
        } else {
            Notification::Other
        }
    }
}

} // verus!
