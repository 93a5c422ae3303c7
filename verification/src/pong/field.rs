//! The playing field of Pong, in whole world units: where the bars start
//! and how far they may move.
use vstd::prelude::*;

verus! {

pub const WINDOW_WIDTH: u32 = 1280;
pub const WINDOW_HEIGHT: u32 = 720;
pub const BAR_HEIGHT: u32 = 150;
/// The gap between a bar's centre and its side of the window.
pub const BAR_INSET: u32 = 5;

/// The horizontal centre of `player`'s bar: player 0 on the left, the other
/// on the right, each `BAR_INSET` from its side of the window.
pub open spec fn spec_bar_home_x(player: u8) -> i32 {
    if player == 0 {
        (-(WINDOW_WIDTH as int) / 2 + BAR_INSET as int) as i32
    } else {
        (WINDOW_WIDTH as int / 2 - BAR_INSET as int) as i32
    }
}

/// The horizontal centre of `player`'s bar.
pub fn bar_home_x(player: u8) -> (x: i32)
    ensures
        x == spec_bar_home_x(player),
{
    if player == 0 {
        -((WINDOW_WIDTH / 2) as i32) + BAR_INSET as i32
    } else {
        (WINDOW_WIDTH / 2) as i32 - BAR_INSET as i32
    }
}

/// The lowest and highest centre a bar may have: the bar's ends reach the
/// window's edges and no further.
pub fn bar_y_bounds() -> (bounds: (i32, i32))
    ensures
        bounds.0 == (-(WINDOW_HEIGHT as int) + BAR_HEIGHT as int) / 2,
        bounds.1 == (WINDOW_HEIGHT as int - BAR_HEIGHT as int) / 2,
{
    ((-(WINDOW_HEIGHT as i32) + BAR_HEIGHT as i32) / 2, (WINDOW_HEIGHT as i32 - BAR_HEIGHT as i32) / 2)
}

/// A bar held within its bounds stays inside the window and can touch both
/// its top and bottom edge; the two bars start mirrored about the middle.
pub proof fn lemma_bars_fit_window()
    ensures
        (-(WINDOW_HEIGHT as int) + BAR_HEIGHT as int) / 2 - BAR_HEIGHT as int / 2 == -(
        WINDOW_HEIGHT as int) / 2,
        (WINDOW_HEIGHT as int - BAR_HEIGHT as int) / 2 + BAR_HEIGHT as int / 2 == WINDOW_HEIGHT
            as int / 2,
        spec_bar_home_x(0) == -spec_bar_home_x(1),
{
}

} // verus!
