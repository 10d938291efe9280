//! Rectangles and the arithmetic of window sizes and positions.

use vstd::prelude::*;

verus! {

/// A rectangle in screen or client coordinates, by its edges.
#[derive(Clone, Copy, Debug, PartialEq, Eq, Structural)]
pub struct Rect {
    pub left: i32,
    pub top: i32,
    pub right: i32,
    pub bottom: i32,
}

/// Half of `x`, rounded towards zero.
pub open spec fn half(x: int) -> int {
    if x >= 0 {
        x / 2
    } else {
        -((-x) / 2)
    }
}

/// `x` limited to the range from `lo` to `hi`.
pub open spec fn clamped(x: int, lo: int, hi: int) -> int {
    if x < lo {
        lo
    } else if x > hi {
        hi
    } else {
        x
    }
}

impl Rect {
    /// Signed distance from the left edge to the right edge.
    pub open spec fn span_x(self) -> int {
        self.right - self.left
    }

    /// Signed distance from the top edge to the bottom edge.
    pub open spec fn span_y(self) -> int {
        self.bottom - self.top
    }

    /// Whether both spans can be held in an `i32`.
    pub open spec fn spans_fit(self) -> bool {
        &&& i32::MIN <= self.span_x() <= i32::MAX
        &&& i32::MIN <= self.span_y() <= i32::MAX
    }

    /// The rectangle of a client area of the given size, with its top-left
    /// corner at the origin.
    pub fn client(width: i32, height: i32) -> (rect: Rect)
        ensures
            rect == (Rect { left: 0, top: 0, right: width, bottom: height }),
    {
        Rect { left: 0, top: 0, right: width, bottom: height }
    }

    /// The width and height of the rectangle as window dimensions.
    ///
    /// This is the size to ask the platform for once it has grown a client
    /// rectangle by the decorations. `None` exactly when a span does not fit
    /// in an `i32`.
    pub fn outer_size(&self) -> (size: Option<(i32, i32)>)
        ensures
            self.spans_fit() <==> size is Some,
            size matches Some((w, h)) ==> w == self.span_x() && h == self.span_y(),
    {
        let width: i64 = self.right as i64 - self.left as i64;
        let height: i64 = self.bottom as i64 - self.top as i64;
        if width < i32::MIN as i64 || width > i32::MAX as i64 {
            return None;
        }
        if height < i32::MIN as i64 || height > i32::MAX as i64 {
            return None;
        }
        Some((width as i32, height as i32))
    }

    /// The width and height of the rectangle as a client size: a span that
    /// is negative counts as zero.
    pub fn extent(&self) -> (size: (u32, u32))
        ensures
            size.0 == clamped(self.span_x(), 0, u32::MAX as int),
            size.1 == clamped(self.span_y(), 0, u32::MAX as int),
    {
        let width: i64 = self.right as i64 - self.left as i64;
        let height: i64 = self.bottom as i64 - self.top as i64;
        let w: u32 = if width < 0 { 0 } else { width as u32 };
        let h: u32 = if height < 0 { 0 } else { height as u32 };
        (w, h)
    }
}

/// Limits a requested client dimension to what a window coordinate can hold.
pub fn clamp_client_size(size: u32) -> (clamped_size: i32)
    ensures
        clamped_size == clamped(size as int, 0, i32::MAX as int),
{
    if size > i32::MAX as u32 {
        i32::MAX
    } else {
        size as i32
    }
}

/// The coordinate at which a window of extent `outer` sits centred on a
/// screen of extent `screen`: the screen's half less the window's half,
/// each rounded towards zero.
pub fn centered_origin(screen: i32, outer: i32) -> (origin: i32)
    ensures
        origin == half(screen as int) - half(outer as int),
{
    screen / 2 - outer / 2
}

/// Where a window sits on the screen and how large it is, decorations
/// included.
#[derive(Clone, Copy, Debug, PartialEq, Eq, Structural)]
pub struct Placement {
    pub x: i32,
    pub y: i32,
    pub width: i32,
    pub height: i32,
}

impl Placement {
    /// Places a window in the middle of the screen.
    ///
    /// `adjusted` is the window rectangle that the platform worked out for
    /// the wanted client area; its spans are the window's size. `None`
    /// exactly when a span does not fit in an `i32`.
    pub fn centered(adjusted: Rect, screen_width: i32, screen_height: i32) -> (placement: Option<
        Placement,
    >)
        ensures
            adjusted.spans_fit() <==> placement is Some,
            placement matches Some(p) ==> {
                &&& p.width == adjusted.span_x()
                &&& p.height == adjusted.span_y()
                &&& p.x == half(screen_width as int) - half(adjusted.span_x())
                &&& p.y == half(screen_height as int) - half(adjusted.span_y())
            },
    {
        match adjusted.outer_size() {
            Some((width, height)) => Some(
                Placement {
                    x: centered_origin(screen_width, width),
                    y: centered_origin(screen_height, height),
                    width,
                    height,
                },
            ),
            None => None,
        }
    }
}

} // verus!
