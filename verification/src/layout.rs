//! Where the main window goes on the screen.

use vstd::prelude::*;

verus! {

/// Half of a number, rounded toward zero, as Rust's integer division rounds.
pub open spec fn half_toward_zero(v: int) -> int {
    if v >= 0 {
        v / 2
    } else {
        -((-v) / 2)
    }
}

/// The position that centres a window of the given size on a screen of the
/// given size: half the room left over on each axis, rounded toward zero. The
/// window's size is read as `i32`, as the `as i32` cast does.
pub fn center_window_position(screen_width: i32, screen_height: i32, win_width: u32, win_height: u32) -> (pos: (i32, i32))
    requires
        i32::MIN <= screen_width - (win_width as i32) <= i32::MAX,
        i32::MIN <= screen_height - (win_height as i32) <= i32::MAX,
    ensures
        pos.0 == half_toward_zero(screen_width - (win_width as i32)),
        pos.1 == half_toward_zero(screen_height - (win_height as i32)),
{
    let x = (screen_width - win_width as i32) / 2;
    let y = (screen_height - win_height as i32) / 2;
    (x, y)
}

} // verus!
