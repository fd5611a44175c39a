//! Axis-aligned overlap testing, and the two kinds of world object that
//! exist only to collide: projectiles and pickups. Positions are box
//! centers; each actor carries its own extents and there is no rotation.

use vstd::prelude::*;
use crate::vec2::{Vec2i, POS_LIMIT};
use crate::config::{SPEED_LIMIT, AMOUNT_LIMIT};

verus! {

/// Axis-aligned bounding size of an actor. `size` spans the full box, so
/// the box reaches half of it to each side of the position.
#[derive(Clone, Copy, PartialEq, Eq, Structural, Debug)]
pub struct Collider {
    pub size: Vec2i,
}

impl Collider {
    pub open spec fn wf(self) -> bool {
        &&& 0 <= self.size.x <= POS_LIMIT
        &&& 0 <= self.size.y <= POS_LIMIT
    }
}

/// Strict axis-aligned overlap of two boxes given by their centers and
/// full sizes: on each axis, twice the center distance stays strictly
/// inside the sum of the sizes.
pub open spec fn spec_collide(a_pos: Vec2i, a_size: Vec2i, b_pos: Vec2i, b_size: Vec2i) -> bool {
    let sx = a_size.x + b_size.x;
    let sy = a_size.y + b_size.y;
    let dx = 2 * (a_pos.x - b_pos.x);
    let dy = 2 * (a_pos.y - b_pos.y);
    -sx < dx < sx && -sy < dy < sy
}

/// Whether the two boxes overlap.
pub fn collide(a_pos: Vec2i, a_size: Vec2i, b_pos: Vec2i, b_size: Vec2i) -> (r: bool)
    requires
        a_pos.in_world_range(),
        b_pos.in_world_range(),
        0 <= a_size.x <= POS_LIMIT,
        0 <= a_size.y <= POS_LIMIT,
        0 <= b_size.x <= POS_LIMIT,
        0 <= b_size.y <= POS_LIMIT,
    ensures
        r == spec_collide(a_pos, a_size, b_pos, b_size),
{
    let sx = a_size.x + b_size.x;
    let sy = a_size.y + b_size.y;
    let dx = 2 * (a_pos.x - b_pos.x);
    let dy = 2 * (a_pos.y - b_pos.y);
    -sx < dx && dx < sx && -sy < dy && dy < sy
}

/// A shot fired by a ranged enemy; destroyed on leaving the world or on
/// being resolved against the player.
#[derive(Clone, Copy, PartialEq, Eq, Structural, Debug)]
pub struct Projectile {
    pub position: Vec2i,
    pub speed: i64,
    pub direction: Vec2i,
    pub collider: Collider,
}

impl Projectile {
    pub open spec fn wf(self) -> bool {
        &&& self.position.in_world_range()
        &&& self.direction.is_unit_range()
        &&& 0 <= self.speed <= SPEED_LIMIT
        &&& self.collider.wf()
    }
}

/// What a pickup restores when collected.
#[derive(Clone, Copy, PartialEq, Eq, Structural, Debug)]
pub enum PickupKind {
    Fuel,
    Health,
}

/// A drifting restorative item; collected on player contact or destroyed
/// on leaving the world.
#[derive(Clone, Copy, PartialEq, Eq, Structural, Debug)]
pub struct Pickup {
    pub position: Vec2i,
    pub collider: Collider,
    pub kind: PickupKind,
    /// Milli-units of fuel for a fuel pickup; whole health points for a
    /// health pickup.
    pub restore: i64,
}

impl Pickup {
    pub open spec fn wf(self) -> bool {
        &&& self.position.in_world_range()
        &&& self.collider.wf()
        &&& 0 <= self.restore <= AMOUNT_LIMIT
    }
}

} // verus!
