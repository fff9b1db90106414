//! Which atlas index draws each tile, entity and enemy.
use vstd::prelude::*;
use rand::Rng;
use crate::things::ThingKind;
use crate::world::TileKind;

verus! {

/// A bush.
pub const BUSH_IDX: usize = 3;
/// A diamond.
pub const DIAMOND_IDX: usize = 8;
/// A key.
pub const SILVER_KEY_IDX: usize = 12;
/// A closed door.
pub const DOOR_IDX: usize = 24;
/// An extra life.
pub const LIFE_IDX: usize = 5;
/// A save point.
pub const SAVE_POINT_IDX: usize = 26;
/// An enemy.
pub const ENEMY_IDX: usize = 29;
/// A brittle wall.
pub const BRITLE_IDX: usize = 22;
/// A wall.
pub const OBSTACLE_IDX: usize = 18;
/// Floor, also drawn under a brittle wall.
pub const GRASS_IDX: usize = 23;

/// The looks a stone may take.
pub open spec fn stone_sprites() -> Seq<usize> {
    seq![13, 14, 15, 16, 3]
}

/// The stone look that a draw `roll` picks: the roll modulo the number of
/// looks.
pub fn stone_sprite(roll: usize) -> (r: usize)
    ensures
        r == stone_sprites()[(roll % 5) as int],
{
    let looks: Vec<usize> = vec![13, 14, 15, 16, 3];
    looks[roll % 5]
}

/// Relies on `rand::thread_rng` and `Rng::gen::<usize>`: some number, drawn
/// from the thread's generator. Nothing is known of which.
#[verifier::external_body]
fn random_roll() -> (r: usize) {
    rand::thread_rng().gen::<usize>()
}


/// The atlas index that draws a tile: the floor under a brittle wall is
/// drawn apart from it.
pub fn tile_sprite(k: TileKind) -> (r: usize)
    ensures
        r == match k {
            TileKind::Wall => OBSTACLE_IDX,
            TileKind::BrittleWall => BRITLE_IDX,
            TileKind::Empty => GRASS_IDX,
        },
{
    match k {
        TileKind::Wall => OBSTACLE_IDX,
        TileKind::BrittleWall => BRITLE_IDX,
        TileKind::Empty => GRASS_IDX,
    }
}

/// The atlas index that draws an entity; a stone takes the look that
/// `roll` picks.
pub open spec fn thing_sprite_spec(k: ThingKind, roll: usize) -> usize {
    match k {
        ThingKind::Bush => BUSH_IDX,
        ThingKind::Diamond => DIAMOND_IDX,
        ThingKind::Key => SILVER_KEY_IDX,
        ThingKind::Door => DOOR_IDX,
        ThingKind::Life => LIFE_IDX,
        ThingKind::SavePoint => SAVE_POINT_IDX,
        ThingKind::Stone => stone_sprites()[(roll % 5) as int],
    }
}

/// The atlas index that draws an entity; a stone takes the look that
/// `roll` picks.
pub fn thing_sprite(k: ThingKind, roll: usize) -> (r: usize)
    ensures
        r == thing_sprite_spec(k, roll),
{
    match k {
        ThingKind::Bush => BUSH_IDX,
        ThingKind::Diamond => DIAMOND_IDX,
        ThingKind::Key => SILVER_KEY_IDX,
        ThingKind::Door => DOOR_IDX,
        ThingKind::Life => LIFE_IDX,
        ThingKind::SavePoint => SAVE_POINT_IDX,
        ThingKind::Stone => stone_sprite(roll),
    }
}

/// The atlas index that draws an entity, a stone's look drawn at random
/// among the five.
pub fn draw_thing_sprite(k: ThingKind) -> (r: usize)
    ensures
        k != ThingKind::Stone ==> r == thing_sprite_spec(k, 0),
        k == ThingKind::Stone ==> stone_sprites().contains(r),
{
    let roll = random_roll();
    let r = thing_sprite(k, roll);
    assert(k == ThingKind::Stone ==> stone_sprites()[(roll % 5) as int] == r);
    r
}

} // verus!
