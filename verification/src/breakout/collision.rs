//! What the ball does when it touches something: which collider a frame
//! handles, and how the ball's direction changes.
use vstd::prelude::*;

verus! {

/// The kinds of things the ball can hit.
#[derive(Clone, Copy, Debug, PartialEq, Eq, Structural)]
pub enum ColliderType {
    Bar,
    Wall,
    Ceiling,
    Brick,
}

/// How the ball's direction changes.
#[derive(Clone, Copy, Debug, PartialEq, Eq, Structural)]
pub enum Bounce {
    /// Off the bar: the new direction is set from where on the bar the
    /// ball landed, at most 45 degrees from straight up.
    OffBar,
    /// The horizontal component changes sign.
    FlipX,
    /// The vertical component changes sign.
    FlipY,
}

/// How a collision is answered.
#[derive(Clone, Copy, Debug, PartialEq, Eq, Structural)]
pub struct CollisionResponse {
    pub bounce: Bounce,
    /// Whether the collider is removed.
    pub despawn: bool,
}

/// Walls turn the ball back horizontally and the ceiling vertically; a
/// brick turns it back along the axis on which the ball lies farther from
/// the brick (vertically when the two are equal) and is removed; the bar
/// sends it off at an angle.
pub open spec fn spec_collision_response(collider: ColliderType, x_farther: bool) -> CollisionResponse {
    match collider {
        ColliderType::Bar => CollisionResponse { bounce: Bounce::OffBar, despawn: false },
        ColliderType::Wall => CollisionResponse { bounce: Bounce::FlipX, despawn: false },
        ColliderType::Ceiling => CollisionResponse { bounce: Bounce::FlipY, despawn: false },
        ColliderType::Brick => CollisionResponse {
            bounce: if x_farther { Bounce::FlipX } else { Bounce::FlipY },
            despawn: true,
        },
    }
}

/// How a collision with `collider` is answered; `x_farther` tells whether,
/// after the ball was slid out, its offset from the collider's closest
/// point is larger in size horizontally than vertically.
pub fn collision_response(collider: ColliderType, x_farther: bool) -> (response: CollisionResponse)
    ensures
        response == spec_collision_response(collider, x_farther),
        collider == ColliderType::Wall ==> response.bounce == Bounce::FlipX,
        collider == ColliderType::Ceiling ==> response.bounce == Bounce::FlipY,
        collider == ColliderType::Bar ==> response.bounce == Bounce::OffBar,
        collider == ColliderType::Brick ==> (response.bounce == Bounce::FlipX) == x_farther,
        collider == ColliderType::Brick ==> response.bounce != Bounce::OffBar,
        response.despawn == (collider == ColliderType::Brick),
{
    match collider {
        ColliderType::Bar => CollisionResponse { bounce: Bounce::OffBar, despawn: false },
        ColliderType::Wall => CollisionResponse { bounce: Bounce::FlipX, despawn: false },
        ColliderType::Ceiling => CollisionResponse { bounce: Bounce::FlipY, despawn: false },
        ColliderType::Brick => CollisionResponse {
            bounce: if x_farther { Bounce::FlipX } else { Bounce::FlipY },
            despawn: true,
        },
    }
}

/// The index of the collider a frame handles, given for each collider, in
/// the order they are visited, whether the ball touches it: the first one
/// touched. A frame handles at most one collision.
pub fn first_contact(touching: &Vec<bool>) -> (first: Option<usize>)
    ensures
        match first {
            Some(i) => i < touching@.len() && touching@[i as int] && forall|j: int|
                0 <= j < i ==> !touching@[j],
            None => forall|j: int| 0 <= j < touching@.len() ==> !touching@[j],
        },
{
    let mut i: usize = 0;
    while i < touching.len()
        invariant
            i <= touching@.len(),
            forall|j: int| 0 <= j < i ==> !touching@[j],
        decreases touching@.len() - i,
    {
        if touching[i] {
            return Some(i);
        }
        i = i + 1;
    }
    None
}

/// Only bricks are removed, and only the bar sends the ball off at an
/// angle; everything else reverses one component of its direction.
pub proof fn lemma_only_bricks_break(collider: ColliderType, x_farther: bool)
    ensures
        spec_collision_response(collider, x_farther).despawn == (collider == ColliderType::Brick),
        (spec_collision_response(collider, x_farther).bounce == Bounce::OffBar) == (collider
            == ColliderType::Bar),
{
}

/// Walls always reverse the horizontal component and the ceiling the
/// vertical one, whichever way the ball lies from them; the bar always sends
/// the ball off at an angle; a brick reverses the horizontal component when
/// the ball lies farther from it horizontally and the vertical one
/// otherwise, and is the only collider removed. The answer to a wall, the
/// ceiling or the bar does not depend on the offset.
pub proof fn lemma_response_by_collider(x_farther: bool)
    ensures
        spec_collision_response(ColliderType::Wall, x_farther) == (CollisionResponse {
            bounce: Bounce::FlipX,
            despawn: false,
        }),
        spec_collision_response(ColliderType::Ceiling, x_farther) == (CollisionResponse {
            bounce: Bounce::FlipY,
            despawn: false,
        }),
        spec_collision_response(ColliderType::Bar, x_farther) == (CollisionResponse {
            bounce: Bounce::OffBar,
            despawn: false,
        }),
        spec_collision_response(ColliderType::Brick, true).bounce == Bounce::FlipX,
        spec_collision_response(ColliderType::Brick, false).bounce == Bounce::FlipY,
        spec_collision_response(ColliderType::Brick, x_farther).despawn,
        spec_collision_response(ColliderType::Wall, true) == spec_collision_response(
            ColliderType::Wall,
            false,
        ),
        spec_collision_response(ColliderType::Ceiling, true) == spec_collision_response(
            ColliderType::Ceiling,
            false,
        ),
{
}

} // verus!
