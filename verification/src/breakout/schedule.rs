//! The order of Breakout's gameplay sets within a frame.
use vstd::prelude::*;

verus! {

/// The gameplay sets, which run one after the other, in this order, while
/// in game.
#[derive(Clone, Copy, Debug, PartialEq, Eq, Structural)]
pub enum GameSet {
    Input,
    Movement,
    Bounds,
    Collision,
}

/// The place of a set in a frame.
pub open spec fn spec_rank(set: GameSet) -> nat {
    match set {
        GameSet::Input => 0,
        GameSet::Movement => 1,
        GameSet::Bounds => 2,
        GameSet::Collision => 3,
    }
}

impl GameSet {
    /// The place of this set in a frame.
    pub fn rank(self) -> (r: u8)
        ensures
            r == spec_rank(self),
    {
        match self {
            GameSet::Input => 0,
            GameSet::Movement => 1,
            GameSet::Bounds => 2,
            GameSet::Collision => 3,
        }
    }

    /// Whether this set runs before `other` in a frame.
    pub fn runs_before(self, other: GameSet) -> (b: bool)
        ensures
            b == (spec_rank(self) < spec_rank(other)),
    {
        self.rank() < other.rank()
    }
}

/// The sets run in a chain: input is read before anything moves, things
/// move before they are held within bounds, and collisions come last; no
/// two sets share a place.
pub proof fn lemma_chain(a: GameSet, b: GameSet)
    ensures
        spec_rank(GameSet::Input) < spec_rank(GameSet::Movement),
        spec_rank(GameSet::Movement) < spec_rank(GameSet::Bounds),
        spec_rank(GameSet::Bounds) < spec_rank(GameSet::Collision),
        (spec_rank(a) == spec_rank(b)) == (a == b),
{
}

} // verus!
