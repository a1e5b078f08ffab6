//! What the world is made of: obstacles and pickups.

use vstd::prelude::*;
use crate::geometry::Aabb;

verus! {

/// The two kinds of obstacle.
#[derive(Clone, Copy, Debug, PartialEq, Eq, Structural)]
pub enum ObstacleKind {
    /// Walkable: the character can land on it.
    Platform,
    /// Only blocks attacks; never a landing surface.
    Tree,
}

/// A box in world space that the character can collide with.
#[derive(Clone, Copy, Debug, PartialEq, Eq, Structural)]
pub struct Obstacle {
    pub aabb: Aabb,
    pub kind: ObstacleKind,
}

/// A pickup that adds to the basket.
#[derive(Clone, Copy, Debug, PartialEq, Eq, Structural)]
pub struct Apple {
    pub aabb: Aabb,
}

/// A pickup that extends the countdown.
#[derive(Clone, Copy, Debug, PartialEq, Eq, Structural)]
pub struct TimeExtender {
    pub aabb: Aabb,
}

/// Whether some obstacle of `list` intersects `aabb`.
pub open spec fn any_overlap(list: Seq<Obstacle>, aabb: Aabb) -> bool {
    exists|i: int| 0 <= i < list.len() && (#[trigger] list[i]).aabb.overlaps(aabb)
}

/// Whether some obstacle of `list` intersects `aabb`.
pub fn intersects_any(list: &Vec<Obstacle>, aabb: &Aabb) -> (hit: bool)
    ensures
        hit == any_overlap(list@, *aabb),
{
    let mut i: usize = 0;
    while i < list.len()
        invariant
            i <= list.len(),
            forall|k: int| 0 <= k < i ==> !(#[trigger] list@[k]).aabb.overlaps(*aabb),
        decreases list.len() - i,
    {
        if list[i].aabb.intersects(aabb) {
            return true;
        }
        i += 1;
    }
    false
}

} // verus!
