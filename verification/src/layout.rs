//! Window geometry: DPI scaling of logical sizes and the placement computed
//! from a suggested rectangle when the DPI changes.

use vstd::prelude::*;

verus! {

/// The native baseline DPI: at this value logical and physical sizes coincide.
pub const BASELINE_DPI: i32 = 96;

/// Logical width of the main window, in DPI-independent units.
pub const LOGICAL_WIDTH: i32 = 600;

/// Logical height of the main window, in DPI-independent units.
pub const LOGICAL_HEIGHT: i32 = 400;

/// Window style: a popup window without the standard caption.
pub const WS_POPUP: u32 = 0x80000000;

/// Window style: a sizing (thick) frame.
pub const WS_THICKFRAME: u32 = 0x00040000;

/// Window style: a minimize box.
pub const WS_MINIMIZEBOX: u32 = 0x00020000;

/// Window style: a maximize box.
pub const WS_MAXIMIZEBOX: u32 = 0x00010000;

/// Window style: a child window.
pub const WS_CHILD: u32 = 0x40000000;

/// Window style: initially visible.
pub const WS_VISIBLE: u32 = 0x10000000;

/// The style of the main frame: borderless popup, resizable, with minimize
/// and maximize boxes.
pub const MAIN_WINDOW_STYLE: u32 = WS_POPUP | WS_THICKFRAME | WS_MINIMIZEBOX | WS_MAXIMIZEBOX;

/// The style of the caption child: a visible child window.
pub const CHILD_WINDOW_STYLE: u32 = WS_CHILD | WS_VISIBLE;

/// Class style: redraw on horizontal size changes.
pub const CS_HREDRAW: u32 = 0x0002;

/// Class style: redraw on vertical size changes.
pub const CS_VREDRAW: u32 = 0x0001;

/// The class style both window classes use.
pub const CLASS_STYLE: u32 = CS_HREDRAW | CS_VREDRAW;

/// A rectangle as the native API reports it: two corners.
#[derive(Clone, Copy, PartialEq, Eq, Structural, Debug)]
pub struct Rect {
    pub left: i32,
    pub top: i32,
    pub right: i32,
    pub bottom: i32,
}

/// A window placement: origin plus extent.
#[derive(Clone, Copy, PartialEq, Eq, Structural, Debug)]
pub struct Placement {
    pub x: i32,
    pub y: i32,
    pub width: i32,
    pub height: i32,
}

/// Scale a logical size to physical pixels: `size * dpi / BASELINE_DPI`,
/// rounded to the nearest integer (halves away from zero for non-negative
/// operands, as the native scaling helper rounds).
pub fn scale_by_dpi(size: i32, dpi: i32) -> (r: i32)
    requires
        0 <= size,
        0 <= dpi,
        size * dpi + BASELINE_DPI / 2 <= i32::MAX,
    ensures
        r == (size * dpi + BASELINE_DPI / 2) / (BASELINE_DPI as int),
{
    (size * dpi + BASELINE_DPI / 2) / BASELINE_DPI
}

/// The physical size of the main window at creation: the logical 600 by 400
/// scaled by the queried DPI against the baseline.
pub fn main_window_size(dpi: i32) -> (s: (i32, i32))
    requires
        0 <= dpi,
        LOGICAL_WIDTH * dpi + BASELINE_DPI / 2 <= i32::MAX,
    ensures
        s.0 == (LOGICAL_WIDTH * dpi + BASELINE_DPI / 2) / (BASELINE_DPI as int),
        s.1 == (LOGICAL_HEIGHT * dpi + BASELINE_DPI / 2) / (BASELINE_DPI as int),
{
    (scale_by_dpi(LOGICAL_WIDTH, dpi), scale_by_dpi(LOGICAL_HEIGHT, dpi))
}

/// The placement of the caption child: the frame's top-left corner, 200 by 50
/// units, not DPI-scaled.
pub fn child_window_placement() -> (p: Placement)
    ensures
        p == (Placement { x: 0, y: 0, width: 200, height: 50 }),
{
    Placement { x: 0, y: 0, width: 200, height: 50 }
}

/// The placement a window must take when told its DPI changed: exactly the
/// suggested rectangle, origin at its top-left corner.
pub fn placement_of_rect(r: Rect) -> (p: Placement)
    requires
        i32::MIN <= r.right - r.left <= i32::MAX,
        i32::MIN <= r.bottom - r.top <= i32::MAX,
    ensures
        p.x == r.left,
        p.y == r.top,
        p.width == r.right - r.left,
        p.height == r.bottom - r.top,
{
    Placement { x: r.left, y: r.top, width: r.right - r.left, height: r.bottom - r.top }
}

} // verus!
