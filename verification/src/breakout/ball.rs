//! The ball of Breakout and how its speed grows as bricks break.
use vstd::prelude::*;
use crate::breakout::arena::SUBUNITS;
use crate::breakout::brick::{BRICK_COLUMNS, BRICK_ROWS, BrokenBricks};

verus! {

/// The ball's speed with no brick broken, in world units per second.
pub const BALL_START_SPEED: u32 = 500;
/// The ball's speed with every brick broken, in world units per second.
pub const BALL_END_SPEED: u32 = 1000;
/// The ball's radius, in world units.
pub const BALL_RADIUS: u32 = 10;

/// The ball's speed, in sub-units per second, after `broken` bricks: from
/// the start speed it grows in proportion to the share of the wall broken,
/// reaching the end speed when the whole wall is gone.
pub open spec fn spec_ball_speed(broken: nat) -> int {
    (BALL_START_SPEED as int) * (SUBUNITS as int) + (broken as int) * ((BALL_END_SPEED
        - BALL_START_SPEED) as int) * (SUBUNITS as int) / ((BRICK_COLUMNS * BRICK_ROWS) as int)
}

/// The ball's speed, in sub-units per second, for the bricks broken.
pub fn update_speed(broken_bricks: BrokenBricks) -> (speed: u64)
    ensures
        speed == spec_ball_speed(broken_bricks.0 as nat),
{
    let sub: u64 = SUBUNITS as u64;
    let bricks: u64 = (BRICK_COLUMNS * BRICK_ROWS) as u64;
    let gain: u64 = (BALL_END_SPEED - BALL_START_SPEED) as u64;
    assert(sub == 32 && bricks == 128 && gain == 500);
    let step: u64 = gain * sub / bricks;
    assert(step == 125);
    proof {
        lemma_speed_step(broken_bricks.0 as nat);
    }
    (BALL_START_SPEED as u64) * sub + (broken_bricks.0 as u64) * step
}

proof fn lemma_speed_step(broken: nat)
    ensures
        spec_ball_speed(broken) == 16000 + 125 * broken,
{
    assert((broken as int) * 500 * 32 / 128 == 125 * broken) by (nonlinear_arith);
}

/// The speed is exact, not rounded, for every count of bricks; it starts at
/// the start speed, reaches the end speed with the last brick, and never
/// drops as more bricks break.
pub proof fn lemma_speed_grows(b1: nat, b2: nat)
    requires
        b1 <= b2,
    ensures
        spec_ball_speed(b1) * ((BRICK_COLUMNS * BRICK_ROWS) as int) == (BALL_START_SPEED as int)
            * (SUBUNITS as int) * ((BRICK_COLUMNS * BRICK_ROWS) as int) + (b1 as int) * ((
        BALL_END_SPEED - BALL_START_SPEED) as int) * (SUBUNITS as int),
        spec_ball_speed(0) == (BALL_START_SPEED as int) * (SUBUNITS as int),
        spec_ball_speed((BRICK_COLUMNS * BRICK_ROWS) as nat) == (BALL_END_SPEED as int) * (
        SUBUNITS as int),
        spec_ball_speed(b1) <= spec_ball_speed(b2),
{
    lemma_speed_step(b1);
    lemma_speed_step(b2);
    lemma_speed_step(0);
    lemma_speed_step(128);
}

} // verus!
