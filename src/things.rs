//! Entities that stand on tiles: pickups, doors, save points and stones.
use vstd::prelude::*;
use crate::geometry::Tile;

verus! {

/// The kinds of entity placed by the map.
#[derive(Clone, Copy, Debug, PartialEq, Eq, Structural)]
pub enum ThingKind {
    Bush,
    Diamond,
    Key,
    Door,
    Life,
    SavePoint,
    Stone,
}

/// An entity at a tile. A collected or opened entity stays in its slot with
/// `present` cleared, so that a slot's number names the same entity for the
/// whole game.
#[derive(Clone, Copy, Debug, PartialEq, Eq, Structural)]
pub struct Thing {
    pub kind: ThingKind,
    pub pos: Tile,
    pub present: bool,
}

/// Whether a present entity of kind `k` stands at `t`.
pub open spec fn thing_at(things: Seq<Thing>, k: ThingKind, t: Tile) -> bool {
    exists|i: int|
        0 <= i < things.len() && #[trigger] things[i].present && things[i].kind == k
            && things[i].pos == t
}

/// Whether a present entity of kind `k` stands at `t`.
pub fn has_thing(things: &Vec<Thing>, k: ThingKind, t: Tile) -> (r: bool)
    ensures
        r == thing_at(things@, k, t),
{
    let mut i: usize = 0;
    while i < things.len()
        invariant
            i <= things@.len(),
            forall|j: int|
                0 <= j < i ==> !(#[trigger] things@[j].present && things@[j].kind == k
                    && things@[j].pos == t),
        decreases things@.len() - i,
    {
        let th = things[i];
        if th.present && th.kind == k && th.pos == t {
            return true;
        }
        i = i + 1;
    }
    false
}

} // verus!
