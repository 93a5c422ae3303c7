//! Turning held keys into a movement direction along one axis.
use vstd::prelude::*;

verus! {

/// The direction along an axis: +1 when only the positive key is held, -1
/// when only the negative one is, 0 when both or neither are.
pub open spec fn spec_axis(negative_held: bool, positive_held: bool) -> i8 {
    ((if positive_held { 1int } else { 0int }) - (if negative_held { 1int } else { 0int })) as i8
}

/// The direction along an axis for the held keys.
pub fn axis(negative_held: bool, positive_held: bool) -> (direction: i8)
    ensures
        direction == spec_axis(negative_held, positive_held),
        -1 <= direction <= 1,
{
    let mut direction: i8 = 0;
    if negative_held {
        direction = direction - 1;
    }
    if positive_held {
        direction = direction + 1;
    }
    direction
}

/// Holding both keys is the same as holding none, and swapping the keys
/// reverses the direction.
pub proof fn lemma_axis_symmetric(negative_held: bool, positive_held: bool)
    ensures
        spec_axis(true, true) == spec_axis(false, false),
        spec_axis(positive_held, negative_held) == -spec_axis(negative_held, positive_held),
{
}

} // verus!
