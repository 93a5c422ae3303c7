//! Which way the bars move, from the keys held.
use vstd::prelude::*;
use crate::controls::{axis, spec_axis};

verus! {

/// The keys that steer the bars: W and S for the left bar (player 0), the
/// up and down arrows for the right bar.
#[derive(Clone, Copy, Debug, PartialEq, Eq, Structural)]
pub struct BarKeys {
    pub w: bool,
    pub s: bool,
    pub arrow_up: bool,
    pub arrow_down: bool,
}

/// The vertical direction of `player`'s bar: up is +1, down is -1.
pub open spec fn spec_bar_input(player: u8, keys: BarKeys) -> i8 {
    if player == 0 {
        spec_axis(keys.s, keys.w)
    } else {
        spec_axis(keys.arrow_down, keys.arrow_up)
    }
}

/// The vertical direction of `player`'s bar for the keys held.
pub fn bar_input(player: u8, keys: BarKeys) -> (direction: i8)
    ensures
        direction == spec_bar_input(player, keys),
{
    if player == 0 {
        axis(keys.s, keys.w)
    } else {
        axis(keys.arrow_down, keys.arrow_up)
    }
}

/// Each bar answers only to its own keys.
pub proof fn lemma_bars_independent(keys: BarKeys, other: BarKeys)
    ensures
        (keys.w == other.w && keys.s == other.s) ==> spec_bar_input(0, keys) == spec_bar_input(
            0,
            other,
        ),
        (keys.arrow_up == other.arrow_up && keys.arrow_down == other.arrow_down)
            ==> spec_bar_input(1, keys) == spec_bar_input(1, other),
{
}

} // verus!
