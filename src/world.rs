//! The collision world's types that the library hands around, and the
//! static tile layer built from a level's occupied cells.
use vstd::prelude::*;
use macroquad_platformer::{Actor, Tile};

verus! {

/// A handle to an actor of the collision world; the world keeps its
/// position, the library only carries the handle.
#[verifier::external_type_specification]
#[verifier::external_body]
pub struct ExActor(Actor);

/// A cell of the collision world's static layer.
#[verifier::external_type_specification]
pub struct ExTile(Tile);

/// The collider for a cell of the level: solid where a tile stands.
pub open spec fn collider_for(occupied: bool) -> Tile {
    if occupied {
        Tile::Solid
    } else {
        Tile::Empty
    }
}

/// The colliders of a static layer, one per cell of the level in the
/// order given: a cell holding a tile is solid, any other is empty.
pub fn tile_layer(occupied: &Vec<bool>) -> (r: Vec<Tile>)
    ensures
        r@.len() == occupied@.len(),
        forall|i: int| 0 <= i < r@.len() ==> r@[i] == collider_for(#[trigger] occupied@[i]),
{
    let mut r: Vec<Tile> = Vec::new();
    let mut i: usize = 0;
    while i < occupied.len()
        invariant
            i <= occupied@.len(),
            r@.len() == i,
            forall|j: int| 0 <= j < i ==> r@[j] == collider_for(#[trigger] occupied@[j]),
        decreases occupied@.len() - i,
    {
        if occupied[i] {
            r.push(Tile::Solid);
        } else {
            r.push(Tile::Empty);
        }
        i = i + 1;
    }
    r
}

} // verus!
