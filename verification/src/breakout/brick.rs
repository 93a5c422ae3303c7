//! The wall of bricks of Breakout: where each brick stands, its colour and
//! the count of bricks broken.
//!
//! Positions and sizes are in sub-units (see `arena`).
use vstd::prelude::*;
use crate::breakout::arena::{ARENA_HEIGHT, ARENA_WIDTH, ColliderBox, SUBUNITS};
use crate::breakout::collision::ColliderType;

verus! {

/// Rows of bricks.
pub const BRICK_ROWS: u32 = 8;
/// Bricks in a row.
pub const BRICK_COLUMNS: u32 = 16;
/// The gap between two bricks, and between the outer bricks and the arena's
/// edges, in world units.
pub const BRICK_GAP: i32 = 5;
/// Height of a brick, in world units.
pub const BRICK_HEIGHT: i32 = 20;
/// The number of brick colours; each colour covers the same number of rows.
pub const BRICK_COLOR_COUNT: u32 = 4;

/// Width of a brick in sub-units: the arena's width less the gaps, shared
/// among the columns.
pub open spec fn spec_brick_width() -> int {
    ((ARENA_WIDTH as int) * (SUBUNITS as int) - (BRICK_GAP as int) * (SUBUNITS as int) * (
    BRICK_COLUMNS as int + 1)) / (BRICK_COLUMNS as int)
}

/// Height of a brick in sub-units.
pub open spec fn spec_brick_height() -> int {
    (BRICK_HEIGHT as int) * (SUBUNITS as int)
}

/// The gap in sub-units.
pub open spec fn spec_gap() -> int {
    (BRICK_GAP as int) * (SUBUNITS as int)
}

/// The horizontal centre of the bricks of `column`: the first one a gap
/// from the left edge, then one brick and one gap further for each column.
pub open spec fn spec_brick_x(column: int) -> int {
    -(ARENA_WIDTH as int) * (SUBUNITS as int) / 2 + spec_gap() + spec_brick_width() / 2 + (spec_gap()
        + spec_brick_width()) * column
}

/// The vertical centre of the bricks of `row`: the first row a gap below
/// the top edge, then one brick and one gap lower for each row.
pub open spec fn spec_brick_y(row: int) -> int {
    (ARENA_HEIGHT as int) * (SUBUNITS as int) / 2 - (spec_gap() + spec_brick_height() / 2) - (
    spec_gap() + spec_brick_height()) * row
}

/// The colour of the bricks of `row`: rows are shared evenly among the
/// colours, top rows first.
pub open spec fn spec_brick_color(row: int) -> int {
    row * (BRICK_COLOR_COUNT as int) / (BRICK_ROWS as int)
}

/// A brick of the wall: its row and column, the index of its colour and its
/// collision box.
#[derive(Clone, Copy, Debug, PartialEq, Eq, Structural)]
pub struct BrickSpec {
    pub row: u32,
    pub column: u32,
    pub color: u32,
    pub collider: ColliderBox,
}

/// The brick in `row` and `column`.
pub open spec fn spec_brick(row: int, column: int) -> BrickSpec {
    BrickSpec {
        row: row as u32,
        column: column as u32,
        color: spec_brick_color(row) as u32,
        collider: ColliderBox {
            collider_type: ColliderType::Brick,
            center_x: spec_brick_x(column) as i32,
            center_y: spec_brick_y(row) as i32,
            half_width: (spec_brick_width() / 2) as i32,
            half_height: (spec_brick_height() / 2) as i32,
        },
    }
}

/// The `i`-th brick spawned: row by row from the top, each row from the
/// left.
pub open spec fn spec_brick_at(i: int) -> BrickSpec {
    spec_brick(i / (BRICK_COLUMNS as int), i % (BRICK_COLUMNS as int))
}

/// The sizes of the wall in sub-units, and where its bricks stand.
pub proof fn lemma_wall_numbers()
    ensures
        spec_brick_width() == 1830,
        spec_brick_height() == 640,
        spec_gap() == 160,
        forall|c: int| #[trigger] spec_brick_x(c) == -14925 + 1990 * c,
        forall|r: int| #[trigger] spec_brick_y(r) == 15520 - 800 * r,
{
    assert(32000int - 160 * 17 == 29280);
    assert(29280int / 16 == 1830);
    assert(-32000int / 2 == -16000);
}

/// The brick in `row` and `column`.
pub fn brick(row: u32, column: u32) -> (b: BrickSpec)
    requires
        row < BRICK_ROWS,
        column < BRICK_COLUMNS,
    ensures
        b == spec_brick(row as int, column as int),
{
    let width: i32 = (ARENA_WIDTH * SUBUNITS - BRICK_GAP * SUBUNITS * (BRICK_COLUMNS as i32 + 1))
        / BRICK_COLUMNS as i32;
    let height: i32 = BRICK_HEIGHT * SUBUNITS;
    let gap: i32 = BRICK_GAP * SUBUNITS;
    let x_start: i32 = -(ARENA_WIDTH * SUBUNITS / 2) + gap + width / 2;
    let y_start: i32 = ARENA_HEIGHT * SUBUNITS / 2 - (gap + height / 2);
    proof {
        lemma_wall_numbers();
    }
    BrickSpec {
        row,
        column,
        color: row * BRICK_COLOR_COUNT / BRICK_ROWS,
        collider: ColliderBox {
            collider_type: ColliderType::Brick,
            center_x: x_start + (gap + width) * column as i32,
            center_y: y_start - (gap + height) * row as i32,
            half_width: width / 2,
            half_height: height / 2,
        },
    }
}

/// The whole wall, in the order it is spawned.
pub fn brick_layout() -> (bricks: Vec<BrickSpec>)
    ensures
        bricks@.len() == BRICK_ROWS * BRICK_COLUMNS,
        forall|i: int| 0 <= i < bricks@.len() ==> #[trigger] bricks@[i] == spec_brick_at(i),
{
    let mut bricks: Vec<BrickSpec> = Vec::new();
    let mut row: u32 = 0;
    while row < BRICK_ROWS
        invariant
            row <= BRICK_ROWS,
            bricks@.len() == row * BRICK_COLUMNS,
            forall|i: int| 0 <= i < bricks@.len() ==> #[trigger] bricks@[i] == spec_brick_at(i),
        decreases BRICK_ROWS - row,
    {
        let mut column: u32 = 0;
        while column < BRICK_COLUMNS
            invariant
                row < BRICK_ROWS,
                column <= BRICK_COLUMNS,
                bricks@.len() == row * BRICK_COLUMNS + column,
                forall|i: int| 0 <= i < bricks@.len() ==> #[trigger] bricks@[i] == spec_brick_at(i),
            decreases BRICK_COLUMNS - column,
        {
            let b = brick(row, column);
            proof {
                let i: int = row * BRICK_COLUMNS + column;
                assert(i / (BRICK_COLUMNS as int) == row as int && i % (BRICK_COLUMNS as int)
                    == column as int) by (nonlinear_arith)
                    requires
                        i == row * 16 + column,
                        column < 16,
                        BRICK_COLUMNS == 16,
                ;
            }
            bricks.push(b);
            column = column + 1;
        }
        row = row + 1;
    }
    bricks
}

/// Every brick stands inside the arena, its outer edge a gap from the
/// arena's edge, with the top row a gap below the top.
pub proof fn lemma_bricks_inside_arena(row: int, column: int)
    requires
        0 <= row < BRICK_ROWS,
        0 <= column < BRICK_COLUMNS,
    ensures
        spec_brick_x(column) - spec_brick_width() / 2 >= -(ARENA_WIDTH as int) * (SUBUNITS as int)
            / 2 + spec_gap(),
        spec_brick_x(column) + spec_brick_width() / 2 <= (ARENA_WIDTH as int) * (SUBUNITS as int)
            / 2 - spec_gap(),
        spec_brick_y(row) + spec_brick_height() / 2 <= (ARENA_HEIGHT as int) * (SUBUNITS as int)
            / 2 - spec_gap(),
        spec_brick_y(row) - spec_brick_height() / 2 > -(ARENA_HEIGHT as int) * (SUBUNITS as int)
            / 2,
        column == 0 ==> spec_brick_x(column) - spec_brick_width() / 2 == -(ARENA_WIDTH as int) * (
        SUBUNITS as int) / 2 + spec_gap(),
        column == BRICK_COLUMNS - 1 ==> spec_brick_x(column) + spec_brick_width() / 2 == (
        ARENA_WIDTH as int) * (SUBUNITS as int) / 2 - spec_gap(),
{
    lemma_wall_numbers();
}

/// Two different bricks do not overlap: side by side they are a gap
/// apart, one above the other they are a gap apart.
pub proof fn lemma_bricks_apart(r1: int, c1: int, r2: int, c2: int)
    requires
        0 <= r1 < BRICK_ROWS,
        0 <= c1 < BRICK_COLUMNS,
        0 <= r2 < BRICK_ROWS,
        0 <= c2 < BRICK_COLUMNS,
        r1 != r2 || c1 != c2,
    ensures
        c1 < c2 ==> spec_brick_x(c2) - spec_brick_width() / 2 - (spec_brick_x(c1)
            + spec_brick_width() / 2) >= spec_gap(),
        r1 < r2 ==> spec_brick_y(r1) - spec_brick_height() / 2 - (spec_brick_y(r2)
            + spec_brick_height() / 2) >= spec_gap(),
        c1 + 1 == c2 ==> spec_brick_x(c2) - spec_brick_width() / 2 - (spec_brick_x(c1)
            + spec_brick_width() / 2) == spec_gap(),
{
    lemma_wall_numbers();
}

/// The wall's `BRICK_ROWS * BRICK_COLUMNS` bricks stand in distinct cells.
pub proof fn lemma_bricks_distinct(i: int, j: int)
    requires
        0 <= i < j < BRICK_ROWS * BRICK_COLUMNS,
    ensures
        spec_brick_at(i).row != spec_brick_at(j).row || spec_brick_at(i).column != spec_brick_at(
            j,
        ).column,
{
    assert(i / 16 != j / 16 || i % 16 != j % 16) by (nonlinear_arith)
        requires
            0 <= i < j,
    ;
}

/// Colours come in bands from the top: a valid colour index, never
/// decreasing downwards, each colour covering exactly
/// `BRICK_ROWS / BRICK_COLOR_COUNT` consecutive rows.
pub proof fn lemma_color_bands(r1: int, r2: int)
    requires
        0 <= r1 <= r2 < BRICK_ROWS,
    ensures
        0 <= spec_brick_color(r1) < BRICK_COLOR_COUNT,
        spec_brick_color(r1) <= spec_brick_color(r2),
        spec_brick_color(r1) == r1 / ((BRICK_ROWS / BRICK_COLOR_COUNT) as int),
{
    assert(r1 * 4 / 8 <= r2 * 4 / 8) by (nonlinear_arith)
        requires
            0 <= r1 <= r2,
    ;
    assert(r1 * 4 / 8 == r1 / 2) by (nonlinear_arith)
        requires
            0 <= r1,
    ;
}

/// The count of bricks broken since the wall was last spawned.
#[derive(Clone, Copy, Debug, PartialEq, Eq, Structural)]
pub struct BrokenBricks(pub u32);

impl BrokenBricks {
    /// None broken: the count at startup and whenever the wall is spawned.
    pub fn new() -> (b: BrokenBricks)
        ensures
            b.0 == 0,
    {
        BrokenBricks(0)
    }
}

} // verus!
