//! Which way the bar moves, from the keys held.
use vstd::prelude::*;
use crate::controls::{axis, spec_axis};

verus! {

/// The keys that steer the bar: the left arrow or A to the left, the right
/// arrow or D to the right.
#[derive(Clone, Copy, Debug, PartialEq, Eq, Structural)]
pub struct BarKeys {
    pub arrow_left: bool,
    pub key_a: bool,
    pub arrow_right: bool,
    pub key_d: bool,
}

/// The bar's horizontal direction: right is +1, left is -1. The direction
/// is a unit or zero, so normalising it changes nothing.
pub open spec fn spec_bar_input(keys: BarKeys) -> i8 {
    spec_axis(keys.arrow_left || keys.key_a, keys.arrow_right || keys.key_d)
}

/// The bar's horizontal direction for the keys held.
pub fn bar_input(keys: BarKeys) -> (direction: i8)
    ensures
        direction == spec_bar_input(keys),
{
    axis(keys.arrow_left || keys.key_a, keys.arrow_right || keys.key_d)
}

/// The arrow keys and the letter keys steer alike.
pub proof fn lemma_keys_alike(left: bool, right: bool)
    ensures
        spec_bar_input(BarKeys { arrow_left: left, key_a: false, arrow_right: right, key_d: false })
            == spec_bar_input(
            BarKeys { arrow_left: false, key_a: left, arrow_right: false, key_d: right },
        ),
{
}

} // verus!
