//! A small filter/reduce example over positioned entities: the entity
//! closest to a point in Manhattan distance.

use vstd::prelude::*;
use vstd::slice::slice_index_get;

verus! {

/// What an entity is.
#[derive(Clone, Copy, Debug, PartialEq, Eq, Structural)]
pub enum Kind {
    Player,
    Enemy,
}

/// An entity of some kind standing at a grid position.
#[derive(Clone, Copy)]
pub struct Entity {
    pub kind: Kind,
    pub position: (i32, i32),
}

/// The absolute value of a mathematical integer.
pub open spec fn int_abs(x: int) -> int {
    if x < 0 {
        -x
    } else {
        x
    }
}

/// The Manhattan distance between two grid positions.
pub open spec fn manhattan(a: (i32, i32), b: (i32, i32)) -> int {
    int_abs(a.0 - b.0) + int_abs(a.1 - b.1)
}

/// Both coordinates are small enough that a Manhattan distance between two
/// such positions fits the sample type.
pub open spec fn coord_ok(p: (i32, i32)) -> bool {
    &&& -0x2000_0000 < p.0 < 0x2000_0000
    &&& -0x2000_0000 < p.1 < 0x2000_0000
}

/// The Manhattan distance from an entity to a position.
pub fn distance_to_entity(entity: &Entity, position: (i32, i32)) -> (r: i32)
    requires
        coord_ok(entity.position),
        coord_ok(position),
    ensures
        r == manhattan(entity.position, position),
{
    let dx: i32 = if entity.position.0 >= position.0 {
        entity.position.0 - position.0
    } else {
        position.0 - entity.position.0
    };
    let dy: i32 = if entity.position.1 >= position.1 {
        entity.position.1 - position.1
    } else {
        position.1 - entity.position.1
    };
    dx + dy
}

/// The index of the entity closest to `position` in Manhattan distance, or
/// `None` on an empty slice.  Of several equally close entities, the first
/// one is picked.
pub fn closest_entity(entities: &[Entity], position: (i32, i32)) -> (r: Option<usize>)
    requires
        coord_ok(position),
        forall|k: int| 0 <= k < entities@.len() ==> coord_ok(#[trigger] entities@[k].position),
    ensures
        r is None <==> entities@.len() == 0,
        r matches Some(best) ==> {
            &&& best < entities@.len()
            &&& forall|k: int|
                0 <= k < entities@.len() ==> manhattan(entities@[best as int].position, position)
                    <= manhattan(#[trigger] entities@[k].position, position)
            &&& forall|k: int|
                0 <= k < best ==> manhattan(#[trigger] entities@[k].position, position)
                    > manhattan(entities@[best as int].position, position)
        },
{
    if entities.len() == 0 {
        return None;
    }
    let mut best: usize = 0;
    let mut best_d: i32 = distance_to_entity(slice_index_get(entities, 0), position);
    let mut k: usize = 1;
    while k < entities.len()
        invariant
            1 <= k <= entities@.len(),
            best < k,
            coord_ok(position),
            forall|m: int| 0 <= m < entities@.len() ==> coord_ok(#[trigger] entities@[m].position),
            best_d == manhattan(entities@[best as int].position, position),
            forall|m: int|
                0 <= m < k ==> best_d <= manhattan(#[trigger] entities@[m].position, position),
            forall|m: int|
                0 <= m < best ==> manhattan(#[trigger] entities@[m].position, position) > best_d,
        decreases entities@.len() - k,
    {
        let d = distance_to_entity(slice_index_get(entities, k), position);
        if d < best_d {
            best = k;
            best_d = d;
        }
        k += 1;
    }
    Some(best)
}

} // verus!
