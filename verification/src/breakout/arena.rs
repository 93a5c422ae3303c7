//! The arena of Breakout: its size, its walls and ceiling, and where the
//! bar and the ball start.
//!
//! Lengths are counted in sub-units, `SUBUNITS` to a world unit. Every
//! size and position of the arena and of the brick wall is a whole number
//! of sub-units, so each is exact here; the engine divides by `SUBUNITS`.
use vstd::prelude::*;
use crate::breakout::collision::ColliderType;

verus! {

/// Sub-units per world unit.
pub const SUBUNITS: i32 = 32;
/// Width of the arena, in world units.
pub const ARENA_WIDTH: i32 = 1000;
/// Height of the arena, in world units.
pub const ARENA_HEIGHT: i32 = 1000;
/// Thickness of the walls and of the ceiling, in world units.
pub const WALL_THICKNESS: i32 = 15;
/// Width of the bar, in world units.
pub const BAR_WIDTH: i32 = 100;
/// Height of the bar, in world units.
pub const BAR_HEIGHT: i32 = 10;

/// A box that the ball can hit: its kind, its centre and its half extents,
/// in sub-units.
#[derive(Clone, Copy, Debug, PartialEq, Eq, Structural)]
pub struct ColliderBox {
    pub collider_type: ColliderType,
    pub center_x: i32,
    pub center_y: i32,
    pub half_width: i32,
    pub half_height: i32,
}

/// The walls, right then left, and the ceiling: each flush with its edge
/// of the arena, `WALL_THICKNESS` thick, as long as the arena.
pub open spec fn spec_arena_colliders() -> Seq<ColliderBox> {
    let s: int = SUBUNITS as int;
    let wall = ColliderBox {
        collider_type: ColliderType::Wall,
        center_x: (((ARENA_WIDTH - WALL_THICKNESS) as int) * s / 2) as i32,
        center_y: 0,
        half_width: ((WALL_THICKNESS as int) * s / 2) as i32,
        half_height: ((ARENA_HEIGHT as int) * s / 2) as i32,
    };
    seq![
        wall,
        ColliderBox { center_x: (-wall.center_x) as i32, ..wall },
        ColliderBox {
            collider_type: ColliderType::Ceiling,
            center_x: 0,
            center_y: (((ARENA_HEIGHT - WALL_THICKNESS) as int) * s / 2) as i32,
            half_width: ((ARENA_WIDTH as int) * s / 2) as i32,
            half_height: ((WALL_THICKNESS as int) * s / 2) as i32,
        },
    ]
}

/// The walls and the ceiling, in the order they are spawned.
pub fn arena_colliders() -> (boxes: Vec<ColliderBox>)
    ensures
        boxes@ == spec_arena_colliders(),
{
    let center_x: i32 = (ARENA_WIDTH - WALL_THICKNESS) * SUBUNITS / 2;
    let wall = ColliderBox {
        collider_type: ColliderType::Wall,
        center_x,
        center_y: 0,
        half_width: WALL_THICKNESS * SUBUNITS / 2,
        half_height: ARENA_HEIGHT * SUBUNITS / 2,
    };
    let mut boxes: Vec<ColliderBox> = Vec::new();
    boxes.push(wall);
    boxes.push(ColliderBox { center_x: -center_x, ..wall });
    boxes.push(
        ColliderBox {
            collider_type: ColliderType::Ceiling,
            center_x: 0,
            center_y: (ARENA_HEIGHT - WALL_THICKNESS) * SUBUNITS / 2,
            half_width: ARENA_WIDTH * SUBUNITS / 2,
            half_height: WALL_THICKNESS * SUBUNITS / 2,
        },
    );
    assert(boxes@ =~= spec_arena_colliders());
    boxes
}

/// The bar's collision box where it is spawned: centred, a tenth of the
/// arena's height above its bottom edge.
pub open spec fn spec_bar_collider() -> ColliderBox {
    let s: int = SUBUNITS as int;
    ColliderBox {
        collider_type: ColliderType::Bar,
        center_x: 0,
        center_y: ((-(ARENA_HEIGHT as int) / 2 + (ARENA_HEIGHT as int) / 10) * s) as i32,
        half_width: ((BAR_WIDTH as int) * s / 2) as i32,
        half_height: ((BAR_HEIGHT as int) * s / 2) as i32,
    }
}

/// The bar's collision box where it is spawned.
pub fn bar_collider() -> (b: ColliderBox)
    ensures
        b == spec_bar_collider(),
{
    ColliderBox {
        collider_type: ColliderType::Bar,
        center_x: 0,
        center_y: (-(ARENA_HEIGHT / 2) + ARENA_HEIGHT / 10) * SUBUNITS,
        half_width: BAR_WIDTH * SUBUNITS / 2,
        half_height: BAR_HEIGHT * SUBUNITS / 2,
    }
}

/// The range of the bar's horizontal centre, in sub-units: the bar may
/// move until its ends reach the arena's edges.
pub fn bar_x_bounds() -> (bounds: (i32, i32))
    ensures
        bounds.0 == ((BAR_WIDTH - ARENA_WIDTH) as int) * (SUBUNITS as int) / 2,
        bounds.1 == ((ARENA_WIDTH - BAR_WIDTH) as int) * (SUBUNITS as int) / 2,
{
    ((BAR_WIDTH - ARENA_WIDTH) * SUBUNITS / 2, (ARENA_WIDTH - BAR_WIDTH) * SUBUNITS / 2)
}

/// Where the ball is served from, in sub-units: centred, a fifth of the
/// arena's height above its bottom edge.
pub fn ball_spawn() -> (position: (i32, i32))
    ensures
        position.0 == 0,
        position.1 == (-(ARENA_HEIGHT as int) / 2 + (ARENA_HEIGHT as int) / 5) * (SUBUNITS as int),
{
    (0, (-(ARENA_HEIGHT / 2) + ARENA_HEIGHT / 5) * SUBUNITS)
}

/// The walls and the ceiling close the arena: their outer faces lie on the
/// arena's edges and they are `WALL_THICKNESS` thick. A bar held within
/// its bounds reaches both edges of the arena and never passes them.
pub proof fn lemma_arena_closed()
    ensures
        ({
            let b = spec_arena_colliders();
            let s: int = SUBUNITS as int;
            &&& b[0].center_x + b[0].half_width == (ARENA_WIDTH as int) * s / 2
            &&& b[1].center_x - b[1].half_width == -(ARENA_WIDTH as int) * s / 2
            &&& b[2].center_y + b[2].half_height == (ARENA_HEIGHT as int) * s / 2
            &&& 2 * b[0].half_width == (WALL_THICKNESS as int) * s
            &&& 2 * b[2].half_height == (WALL_THICKNESS as int) * s
            &&& b[0].center_y - b[0].half_height == -(ARENA_HEIGHT as int) * s / 2
            &&& b[2].center_x - b[2].half_width == -(ARENA_WIDTH as int) * s / 2
        }),
        ((BAR_WIDTH - ARENA_WIDTH) as int) * (SUBUNITS as int) / 2 - spec_bar_collider().half_width
            == -(ARENA_WIDTH as int) * (SUBUNITS as int) / 2,
        ((ARENA_WIDTH - BAR_WIDTH) as int) * (SUBUNITS as int) / 2 + spec_bar_collider().half_width
            == (ARENA_WIDTH as int) * (SUBUNITS as int) / 2,
{
}

} // verus!
