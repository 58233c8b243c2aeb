//! Where the popover window goes when it opens below the tray icon.
use vstd::prelude::*;

verus! {

/// Width of the popover window, in the units of the tray rectangle.
pub const WINDOW_WIDTH: i64 = 400;

/// Space left between the bottom of the tray icon and the top of the window.
pub const VERTICAL_GAP: i64 = 5;

/// Bounds of the tray icon on screen, in physical pixels.
#[derive(Clone, Copy, Debug, PartialEq, Eq, Structural)]
pub struct TrayRect {
    pub x: i32,
    pub y: i32,
    pub width: u32,
    pub height: u32,
}

/// `v` brought into the range of `i32`, saturating at its bounds.
pub open spec fn saturate_i32(v: int) -> int {
    if v < i32::MIN {
        i32::MIN as int
    } else if v > i32::MAX {
        i32::MAX as int
    } else {
        v
    }
}

/// Left edge of a window centred horizontally on the tray icon's left edge.
pub open spec fn popover_x(rect: TrayRect) -> i32 {
    saturate_i32(rect.x - WINDOW_WIDTH / 2) as i32
}

/// Top edge of a window placed just below the tray icon.
pub open spec fn popover_y(rect: TrayRect) -> i32 {
    saturate_i32(rect.y + rect.height + VERTICAL_GAP) as i32
}

fn saturating_to_i32(v: i64) -> (r: i32)
    ensures
        r == saturate_i32(v as int),
{
    if v < i32::MIN as i64 {
        i32::MIN
    } else if v > i32::MAX as i64 {
        i32::MAX
    } else {
        v as i32
    }
}

/// Position for the popover window below the tray icon `rect`: half a window
/// width to the left of the icon and `VERTICAL_GAP` below its bottom edge.
/// A coordinate beyond the range of `i32` saturates at the nearest bound.
pub fn popover_position(rect: &TrayRect) -> (r: (i32, i32))
    ensures
        r.0 == popover_x(*rect),
        r.1 == popover_y(*rect),
{
    let x: i64 = rect.x as i64 - WINDOW_WIDTH / 2;
    let y: i64 = rect.y as i64 + rect.height as i64 + VERTICAL_GAP;
    (saturating_to_i32(x), saturating_to_i32(y))
}

} // verus!
