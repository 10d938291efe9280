//! Window decoration styles and the Win32 style bits that realise them.

use vstd::prelude::*;

use crate::geometry::Rect;

verus! {

/// No style bits: an overlapped window without any decoration.
pub const WS_OVERLAPPED: u32 = 0x0000_0000;

/// The window is a pop-up window.
pub const WS_POPUP: u32 = 0x8000_0000;

/// The window has a title bar (which includes a thin border).
pub const WS_CAPTION: u32 = 0x00C0_0000;

/// The window has a system menu on its title bar.
pub const WS_SYSMENU: u32 = 0x0008_0000;

/// The window has a sizing border.
pub const WS_THICKFRAME: u32 = 0x0004_0000;

/// The window has a minimize button.
pub const WS_MINIMIZEBOX: u32 = 0x0002_0000;

/// The window has a maximize button.
pub const WS_MAXIMIZEBOX: u32 = 0x0001_0000;

/// `SetWindowPos` flag that keeps the window where it is.
pub const SWP_NOMOVE: u32 = 0x0002;

/// `ShowWindow` command that hides the window.
pub const SW_HIDE: i32 = 0;

/// `ShowWindow` command that shows the window at its current size and position.
pub const SW_SHOW: i32 = 5;

/// How a window is decorated.
#[derive(Clone, Copy, Debug, PartialEq, Eq, Structural)]
pub enum Style {
    /// Fixed-size window with a system menu and a minimize button.
    Regular,
    /// Fully decorated window that the user can resize and maximize.
    Resizable,
    /// Overlapped window with no decoration bits at all.
    Undecorated,
    /// Pop-up window without any frame.
    Borderless,
    /// Frameless window covering the whole screen. Not available yet.
    BorderlessFullscreen,
}

/// Why a style could not be resolved.
#[derive(Clone, Copy, Debug, PartialEq, Eq, Structural)]
pub enum StyleError {
    /// The style is known but has no implementation.
    Unsupported,
}

/// Whether a style can be turned into style bits.
pub open spec fn style_supported(style: Style) -> bool {
    style != Style::BorderlessFullscreen
}

/// The Win32 style bits of a supported style.
pub open spec fn style_flags(style: Style) -> u32 {
    match style {
        Style::Regular => WS_OVERLAPPED | WS_MINIMIZEBOX | WS_SYSMENU,
        Style::Resizable => WS_OVERLAPPED | WS_CAPTION | WS_SYSMENU | WS_THICKFRAME
            | WS_MINIMIZEBOX | WS_MAXIMIZEBOX,
        Style::Undecorated => WS_OVERLAPPED,
        Style::Borderless => WS_POPUP,
        Style::BorderlessFullscreen => 0,
    }
}

/// The style bits written out as numbers.
pub proof fn lemma_style_flags_values()
    ensures
        style_flags(Style::Regular) == 0x000A_0000,
        style_flags(Style::Resizable) == 0x00CF_0000,
        style_flags(Style::Undecorated) == 0,
        style_flags(Style::Borderless) == 0x8000_0000,
{
    assert(WS_OVERLAPPED | WS_MINIMIZEBOX | WS_SYSMENU == 0x000A_0000u32) by (bit_vector);
    assert(WS_OVERLAPPED | WS_CAPTION | WS_SYSMENU | WS_THICKFRAME | WS_MINIMIZEBOX
        | WS_MAXIMIZEBOX == 0x00CF_0000u32) by (bit_vector);
}

/// Resolves a decoration style to its Win32 style bits.
///
/// Every style but `BorderlessFullscreen` resolves; that one is reported as
/// unsupported rather than being replaced by another style.
pub fn get_window_style(style: Style) -> (flags: Result<u32, StyleError>)
    ensures
        style_supported(style) ==> flags == Ok::<u32, StyleError>(style_flags(style)),
        !style_supported(style) ==> flags == Err::<u32, StyleError>(StyleError::Unsupported),
{
    match style {
        Style::Regular => Ok(WS_OVERLAPPED | WS_MINIMIZEBOX | WS_SYSMENU),
        Style::Resizable => Ok(
            WS_OVERLAPPED | WS_CAPTION | WS_SYSMENU | WS_THICKFRAME | WS_MINIMIZEBOX
                | WS_MAXIMIZEBOX,
        ),
        Style::Undecorated => Ok(WS_OVERLAPPED),
        Style::Borderless => Ok(WS_POPUP),
        Style::BorderlessFullscreen => Err(StyleError::Unsupported),
    }
}

/// The `ShowWindow` command for a visibility: show when visible, hide when not.
pub open spec fn show_command_of(visible: bool) -> i32 {
    if visible {
        SW_SHOW
    } else {
        SW_HIDE
    }
}

/// Picks the `ShowWindow` command that makes a window visible or hides it.
pub fn show_command(visible: bool) -> (command: i32)
    ensures
        command == show_command_of(visible),
{
    if visible {
        SW_SHOW
    } else {
        SW_HIDE
    }
}

/// What restyling a window asks of the platform: the new style bits, and
/// the client rectangle that the window has to keep under them.
#[derive(Clone, Copy, Debug, PartialEq, Eq, Structural)]
pub struct StyleRequest {
    pub flags: u32,
    pub client: Rect,
}

/// What the platform is told when a window is restyled: the new style bits,
/// the new outer size, and the `SetWindowPos` flags to apply the size with.
#[derive(Clone, Copy, Debug, PartialEq, Eq, Structural)]
pub struct StyleChange {
    pub flags: u32,
    pub width: i32,
    pub height: i32,
    pub position_flags: u32,
}

impl StyleRequest {
    /// Completes a restyling from the window rectangle that the platform
    /// worked out for the client rectangle under the new style: the window
    /// takes the spans of that rectangle as its outer size and stays where
    /// it is. `None` exactly when a span does not fit in an `i32`.
    pub fn change(&self, adjusted: Rect) -> (change: Option<StyleChange>)
        ensures
            adjusted.spans_fit() <==> change is Some,
            change matches Some(c) ==> c == (StyleChange {
                flags: self.flags,
                width: adjusted.span_x() as i32,
                height: adjusted.span_y() as i32,
                position_flags: SWP_NOMOVE,
            }),
    {
        match adjusted.outer_size() {
            Some((width, height)) => Some(
                StyleChange { flags: self.flags, width, height, position_flags: SWP_NOMOVE },
            ),
            None => None,
        }
    }
}

} // verus!
