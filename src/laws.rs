//! Properties of the game that hold across ticks, proved from the phases'
//! definitions.
use vstd::prelude::*;
use crate::enemy::{Enemy, enemy_step};
use crate::game::{
    GameView, Input, Request, after_enemies, after_hammer,
    after_pickups, after_player, after_respawn, after_walk, enemies_wf, enemy_at, hammer_target,
    after_contact, open_ahead, player_after_touches, respawn_due, solid, step_open, things_after_touches,
    tick_spec, touch,
};
use crate::geometry::{FacingDirection, Tile, offset_spec};
use crate::graphics::AnimationDirection;
use crate::map::describes;
use crate::player::{MINIMUM_LIFE_BREAK, MINIMUM_MOVE_BREAK, Player, cooled};
use crate::things::{Thing, ThingKind, thing_at};
use crate::world::{TileKind, World, cell_index, grid_after_strike, grid_blocks, grid_kind, in_grid};

verus! {

/// The consistency a tick keeps: the player record, the animation state,
/// the dead animation only for a dead player, and every enemy's step.
pub open spec fn view_wf(v: GameView) -> bool {
    &&& v.player.wf()
    &&& v.graphics.wf()
    &&& (v.graphics.animation == AnimationDirection::Dead ==> v.player.dead)
    &&& enemies_wf(v.enemies)
}

proof fn lemma_touches(p: Player, things: Seq<Thing>, at: Tile, doors: bool, n: nat)
    ensures
        ({
            let q = player_after_touches(p, things, at, doors, n);
            &&& q == Player { diamonds: q.diamonds, keys: q.keys, health: q.health, ..p }
            &&& q.diamonds >= p.diamonds
            &&& q.health >= p.health
            &&& !doors ==> q.keys >= p.keys
            &&& p.wf() ==> q.wf()
            &&& q.keys < p.keys ==> exists|i: int|
                0 <= i < n && i < things.len() && things[i].kind == ThingKind::Door
                    && things[i].present && things[i].pos == at
                    && !(#[trigger] things_after_touches(p, things, at, doors)[i]).present
        }),
    decreases n,
{
    if n == 0 || n > things.len() {
    } else {
        lemma_touches(p, things, at, doors, (n - 1) as nat);
        let q0 = player_after_touches(p, things, at, doors, (n - 1) as nat);
        let q = player_after_touches(p, things, at, doors, n);
        if q.keys < p.keys && !(q0.keys < p.keys) {
            let i = n - 1;
            assert(things_after_touches(p, things, at, doors)[i] == touch(q0, things[i], at, doors).1);
        }
    }
}

/// A round of touches keeps each entity's kind and tile, never removes a
/// stone or a save point, and in the first round leaves doors alone.
proof fn lemma_round_keeps(p: Player, things: Seq<Thing>, at: Tile, doors: bool, t: Tile)
    ensures
        ({
            let after = things_after_touches(p, things, at, doors);
            &&& after.len() == things.len()
            &&& forall|i: int|
                0 <= i < things.len() ==> (#[trigger] after[i]).kind == things[i].kind
                    && after[i].pos == things[i].pos && (after[i].kind == ThingKind::Stone
                    || after[i].kind == ThingKind::SavePoint ==> after[i].present
                    == things[i].present) && (!doors && things[i].kind == ThingKind::Door
                    ==> after[i] == things[i])
            &&& thing_at(after, ThingKind::Stone, t) <==> thing_at(things, ThingKind::Stone, t)
            &&& thing_at(after, ThingKind::SavePoint, t) <==> thing_at(things, ThingKind::SavePoint, t)
        }),
{
    let after = things_after_touches(p, things, at, doors);
    assert forall|i: int| 0 <= i < things.len() implies (#[trigger] after[i]).kind == things[i].kind
        && after[i].pos == things[i].pos && (after[i].kind == ThingKind::Stone || after[i].kind
        == ThingKind::SavePoint ==> after[i].present == things[i].present) && (!doors
        && things[i].kind == ThingKind::Door ==> after[i] == things[i]) by {}
    if thing_at(things, ThingKind::Stone, t) {
        let i = choose|i: int|
            0 <= i < things.len() && #[trigger] things[i].present && things[i].kind
                == ThingKind::Stone && things[i].pos == t;
        assert(after[i].present);
    }
    if thing_at(things, ThingKind::SavePoint, t) {
        let i = choose|i: int|
            0 <= i < things.len() && #[trigger] things[i].present && things[i].kind
                == ThingKind::SavePoint && things[i].pos == t;
        assert(after[i].present);
    }
}

/// What the pickup phase keeps and changes: only the entities and the
/// player's counters and flags; stones and save points stay; diamonds and
/// health never go down; keys go down only where a door on the player's
/// tile was opened.
pub proof fn lemma_pickups(v: GameView, t: Tile)
    requires
        view_wf(v),
    ensures
        ({
            let r = after_pickups(v);
            &&& r.width == v.width && r.height == v.height && r.cells == v.cells
            &&& r.enemies == v.enemies && r.position == v.position && r.start == v.start
            &&& r.graphics == v.graphics && r.frame == v.frame
            &&& r.player == Player {
                diamonds: r.player.diamonds,
                keys: r.player.keys,
                health: r.player.health,
                unchecked_movement: r.player.unchecked_movement,
                on_save_point: r.player.on_save_point,
                ..v.player
            }
            &&& view_wf(r)
            &&& r.player.diamonds >= v.player.diamonds
            &&& r.player.health >= v.player.health
            &&& (thing_at(r.things, ThingKind::Stone, t) <==> thing_at(v.things, ThingKind::Stone, t))
            &&& r.things.len() == v.things.len()
            &&& r.player.keys < v.player.keys ==> exists|i: int|
                0 <= i < v.things.len() && v.things[i].kind == ThingKind::Door
                    && v.things[i].present && v.things[i].pos == v.position
                    && !(#[trigger] r.things[i]).present
        }),
{
    if v.player.unchecked_movement {
        let at = v.position;
        let n = v.things.len();
        let p1 = player_after_touches(v.player, v.things, at, false, n);
        let t1 = things_after_touches(v.player, v.things, at, false);
        let p2 = player_after_touches(p1, t1, at, true, n);
        let t2 = things_after_touches(p1, t1, at, true);
        lemma_touches(v.player, v.things, at, false, n);
        lemma_touches(p1, t1, at, true, n);
        lemma_round_keeps(v.player, v.things, at, false, t);
        lemma_round_keeps(p1, t1, at, true, t);
        if p2.keys < v.player.keys {
            assert(p2.keys < p1.keys);
            let i = choose|i: int|
                0 <= i < n && i < t1.len() && t1[i].kind == ThingKind::Door && t1[i].present
                    && t1[i].pos == at && !(#[trigger] things_after_touches(p1, t1, at, true)[i]).present;
            assert(t1[i] == v.things[i]);
            assert(!after_pickups(v).things[i].present);
        }
    }
}

proof fn lemma_strike_unblocks_only(width: int, height: int, cells: Seq<TileKind>, s: Tile, t: Tile)
    requires
        cells.len() == width * height,
    ensures
        grid_blocks(width, height, grid_after_strike(width, height, cells, s), t) ==> grid_blocks(
            width,
            height,
            cells,
            t,
        ),
{
    if grid_kind(width, height, cells, s) == Some(TileKind::BrittleWall) && in_grid(
        width,
        height,
        t,
    ) {
        crate::world::lemma_cell_index_bounds(width, height, t);
        crate::world::lemma_cell_index_bounds(width, height, s);
        if cell_index(width, t) == cell_index(width, s) {
        }
    }
}

/// What the player phase keeps: the grid's size, the entities, the enemies,
/// the keys and diamonds, the consistency of the state; health goes down by
/// at most one, and only through a hit stamped now; and no tile becomes
/// solid.
pub proof fn lemma_player_phase(v: GameView, input: Input, now: i64, t: Tile)
    requires
        view_wf(v),
        v.cells.len() == v.width * v.height,
    ensures
        ({
            let r = after_player(v, input, now);
            &&& r.width == v.width && r.height == v.height && r.cells.len() == v.cells.len()
            &&& r.things == v.things
            &&& r.enemies == v.enemies
            &&& r.start == v.start
            &&& view_wf(r)
            &&& r.player.diamonds == v.player.diamonds
            &&& r.player.keys == v.player.keys
            &&& r.player.health + 1 >= v.player.health
            &&& r.player.health < v.player.health ==> r.player.health_lost == now
            &&& solid(r, t) ==> solid(v, t)
        }),
{
    if !v.player.dead {
        match hammer_target(v.position, v.graphics.facing) {
            Some(s) => {
                lemma_strike_unblocks_only(v.width, v.height, v.cells, s, t);
                if in_grid(v.width, v.height, s) {
                    crate::world::lemma_cell_index_bounds(v.width, v.height, s);
                }
            },
            None => {},
        }
    }
}

/// The state just before the enemies move in a tick.
pub open spec fn before_enemies(v: GameView, input: Input, now: i64) -> GameView {
    if respawn_due(v, input, now) {
        GameView { player: Player { last_space_movement: now, ..v.player }, ..v }
    } else {
        after_pickups(after_player(v, input, now))
    }
}

proof fn lemma_tick_shape(v: GameView, input: Input, now: i64, delta: u64)
    ensures
        ({
            let b = before_enemies(v, input, now);
            let r = tick_spec(v, input, now, delta).0;
            &&& r.cells == b.cells && r.things == b.things && r.width == b.width && r.height
                == b.height
            &&& r.player == b.player && r.position == b.position
            &&& r.enemies == after_enemies(b, now).enemies
        }),
{
}

/// Counters stay counts, and move only as the rules say: diamonds never go
/// down; health goes down by at most one per tick and only through a hit
/// taken at that tick; keys go down only where a door on the player's tile
/// was opened.
pub proof fn lemma_counters(v: GameView, input: Input, now: i64, delta: u64)
    requires
        view_wf(v),
        v.cells.len() == v.width * v.height,
    ensures
        ({
            let r = tick_spec(v, input, now, delta).0;
            &&& r.player.diamonds >= v.player.diamonds
            &&& r.player.health + 1 >= v.player.health
            &&& r.player.health < v.player.health ==> r.player.health_lost == now
            &&& r.player.keys < v.player.keys ==> exists|i: int|
                0 <= i < v.things.len() && v.things[i].kind == ThingKind::Door
                    && v.things[i].present && v.things[i].pos == r.position
                    && !(#[trigger] r.things[i]).present
        }),
{
    lemma_tick_shape(v, input, now, delta);
    if !respawn_due(v, input, now) {
        let v1 = after_player(v, input, now);
        lemma_player_phase(v, input, now, v1.position);
        lemma_pickups(v1, v1.position);
    }
}

/// A dead player does not move: a tick leaves the player's tile as it was.
pub proof fn lemma_dead_stay(v: GameView, input: Input, now: i64, delta: u64)
    requires
        v.player.dead,
    ensures
        tick_spec(v, input, now, delta).0.position == v.position,
{
    lemma_tick_shape(v, input, now, delta);
}

/// The player never ends a tick on a solid tile (a wall, a brittle wall
/// or a stone) where it did not start on one.
pub proof fn lemma_never_in_wall(v: GameView, input: Input, now: i64, delta: u64)
    requires
        view_wf(v),
        v.cells.len() == v.width * v.height,
        !solid(v, v.position),
    ensures
        !solid(tick_spec(v, input, now, delta).0, tick_spec(v, input, now, delta).0.position),
{
    lemma_tick_shape(v, input, now, delta);
    if !respawn_due(v, input, now) {
        let v1 = after_player(v, input, now);
        let v2 = after_pickups(v1);
        lemma_player_phase(v, input, now, v1.position);
        if !v.player.dead {
            lemma_player_phase(v, input, now, v.position);
            assert(!solid(v1, v1.position));
        }
        lemma_pickups(v1, v1.position);
        assert(!solid(v2, v2.position));
    }
}

/// A step onto a closed door is taken only with a key in hand.
pub proof fn lemma_door_needs_key(v: GameView, input: Input, now: i64)
    ensures
        ({
            let r = after_player(v, input, now);
            r.position != v.position && thing_at(r.things, ThingKind::Door, r.position)
                ==> r.player.keys > 0
        }),
{
}

/// Enemies stay off solid tiles: where every enemy starts a tick on an
/// open tile, every enemy ends it on one.
pub proof fn lemma_enemies_stay_open(v: GameView, input: Input, now: i64, delta: u64)
    requires
        view_wf(v),
        v.cells.len() == v.width * v.height,
        forall|i: int| 0 <= i < v.enemies.len() ==> !solid(v, (#[trigger] v.enemies[i]).pos),
    ensures
        ({
            let r = tick_spec(v, input, now, delta).0;
            forall|i: int| 0 <= i < r.enemies.len() ==> !solid(r, (#[trigger] r.enemies[i]).pos)
        }),
{
    lemma_tick_shape(v, input, now, delta);
    let b = before_enemies(v, input, now);
    let r = tick_spec(v, input, now, delta).0;
    assert(b.enemies == v.enemies) by {
        if !respawn_due(v, input, now) {
            lemma_player_phase(v, input, now, v.position);
            lemma_pickups(after_player(v, input, now), v.position);
        }
    }
    assert forall|i: int| 0 <= i < r.enemies.len() implies !solid(r, (#[trigger] r.enemies[i]).pos) by {
        let e = v.enemies[i];
        if !respawn_due(v, input, now) {
            let v1 = after_player(v, input, now);
            lemma_player_phase(v, input, now, e.pos);
            lemma_pickups(v1, e.pos);
            match e.ahead() {
                Some(a) => {
                    lemma_pickups(v1, a);
                },
                None => {},
            }
        }
        assert(!solid(b, e.pos));
        assert(r.enemies[i] == enemy_step(e, now, open_ahead(b, e)));
    }
}

/// What a save point hands out is what a respawn restores: the player
/// rebuilt from a saved snapshot has its record (but for the respawn's own
/// cooldown stamp), its tile, its facing and its animation.
pub proof fn lemma_save_restores(v: GameView, input: Input, now: i64, delta: u64, later: GameView)
    requires
        view_wf(v),
        v.cells.len() == v.width * v.height,
    ensures
        tick_spec(v, input, now, delta).1 matches Request::Save(s) ==> {
            let r = after_respawn(later, Some(s));
            &&& r.player == Player { last_space_movement: later.player.last_space_movement, ..s.player }
            &&& r.position == s.position
            &&& r.graphics.facing == s.facing
            &&& r.graphics.animation == s.animation
        },
{
    if !respawn_due(v, input, now) {
        let v1 = after_player(v, input, now);
        lemma_player_phase(v, input, now, v1.position);
        lemma_pickups(v1, v1.position);
    }
}

proof fn lemma_index_is_tile(width: int, height: int, i: int)
    requires
        0 <= i < width * height,
        0 < width,
    ensures
        0 <= i / width < height,
        0 <= i % width < width,
        (i / width) * width + i % width == i,
{
    vstd::arithmetic::div_mod::lemma_fundamental_div_mod(i, width);
    vstd::arithmetic::div_mod::lemma_div_pos_is_pos(i, width);
    vstd::arithmetic::div_mod::lemma_mod_pos_bound(i, width);
    let q = i / width;
    let r = i % width;
    assert(q * width + r == i && q < height) by (nonlinear_arith)
        requires
            i == width * q + r,
            0 <= r < width,
            0 <= q,
            i < width * height,
    ;
}

/// Reading a map is a function of its text: two readings of one text give
/// the same grid and the same entities.
pub proof fn lemma_parse_stable(text: Seq<char>, w1: World, t1: Seq<Thing>, w2: World, t2: Seq<Thing>)
    requires
        describes(text, w1, t1),
        describes(text, w2, t2),
    ensures
        w1.width == w2.width,
        w1.height == w2.height,
        w1.cells@ == w2.cells@,
        t1 == t2,
{
    assert forall|i: int| 0 <= i < w1.cells@.len() implies w1.cells@[i] == w2.cells@[i] by {
        let w = w1.width as int;
        let h = w1.height as int;
        if w == 0 {
            assert(w * h == 0) by (nonlinear_arith)
                requires
                    w == 0,
            ;
        }
        lemma_index_is_tile(w, h, i);
        let t = Tile { x: (i % w) as i64, y: (i / w) as i64 };
        assert(w1.kind_at(t) == w2.kind_at(t));
    }
    assert(w1.cells@ =~= w2.cells@);
}

/// Holding right moves the player exactly one tile right once the last step
/// right is 0.1 s or more ago and the tile is open, and not at all before.
pub proof fn lemma_hold_right(v: GameView, now: i64, delta: u64)
    requires
        !v.player.dead,
    ensures
        ({
            let input = Input { up: false, down: false, left: false, right: true, space: false, x: false };
            let r = tick_spec(v, input, now, delta).0;
            let ahead = offset_spec(v.position, 1, 0);
            &&& cooled(v.player.last_right_movement, now, MINIMUM_MOVE_BREAK) && v.position.x
                < i64::MAX && step_open(v, ahead, v.player.keys) ==> r.position == ahead
                && r.player.last_right_movement == now
            &&& !cooled(v.player.last_right_movement, now, MINIMUM_MOVE_BREAK) ==> r.position
                == v.position && r.player.last_right_movement == v.player.last_right_movement
        }),
{
    let input = Input { up: false, down: false, left: false, right: true, space: false, x: false };
    let v1 = after_player(v, input, now);
    let w = after_walk(v, input, now);
    lemma_tick_shape(v, input, now, delta);
    assert(after_hammer(v, input, now) == v);
    assert(v1.position == w.position);
    assert(v1.player.last_right_movement == w.player.last_right_movement);
    lemma_touches(v1.player, v1.things, v1.position, false, v1.things.len());
    let p1 = player_after_touches(v1.player, v1.things, v1.position, false, v1.things.len());
    let t1 = things_after_touches(v1.player, v1.things, v1.position, false);
    lemma_touches(p1, t1, v1.position, true, v1.things.len());
}

/// A hammer strike on a tile without a brittle wall changes only the
/// hammer's stamp and the animation: the grid, the entities, the enemies,
/// the player's tile and the rest of its record stay.
pub proof fn lemma_hammer_miss(v: GameView, input: Input, now: i64)
    requires
        input.x,
        cooled(v.player.hammer_used, now, crate::player::MINIMUM_HAMMER_BREAK),
        hammer_target(v.position, v.graphics.facing) matches Some(t) ==> grid_kind(
            v.width,
            v.height,
            v.cells,
            t,
        ) != Some(TileKind::BrittleWall),
    ensures
        ({
            let r = after_hammer(v, input, now);
            &&& r.cells == v.cells
            &&& r.things == v.things
            &&& r.enemies == v.enemies
            &&& r.position == v.position
            &&& r.player == (Player { hammer_used: now, ..v.player })
        }),
{
}

/// A hit taken with one health left kills: the player is dead with no
/// health and shown dead, and is still dead and shown dead when the tick
/// ends.
pub proof fn lemma_last_hit_kills(v: GameView, now: i64, delta: u64)
    requires
        !v.player.dead,
        v.player.health == 1,
        enemy_at(v.enemies, v.position),
        cooled(v.player.health_lost, now, MINIMUM_LIFE_BREAK),
    ensures
        ({
            let idle = Input { up: false, down: false, left: false, right: false, space: false, x: false };
            let hit = after_player(v, idle, now);
            let r = tick_spec(v, idle, now, delta).0;
            &&& hit.player.dead
            &&& hit.player.health == 0
            &&& hit.graphics.animation == AnimationDirection::Dead
            &&& r.player.dead
            &&& r.graphics.animation == AnimationDirection::Dead
        }),
{
    let idle = Input { up: false, down: false, left: false, right: false, space: false, x: false };
    let v1 = after_player(v, idle, now);
    assert(after_walk(after_hammer(v, idle, now), idle, now).position == v.position);
    lemma_tick_shape(v, idle, now, delta);
    lemma_touches(v1.player, v1.things, v1.position, false, v1.things.len());
    let p1 = player_after_touches(v1.player, v1.things, v1.position, false, v1.things.len());
    let t1 = things_after_touches(v1.player, v1.things, v1.position, false);
    lemma_touches(p1, t1, v1.position, true, v1.things.len());
}

/// A hammer swung by a player facing right breaks a brittle wall on the
/// tile to its right, leaves every other cell as it was, shows the right
/// swing and keeps the player on its tile.
pub proof fn lemma_hammer_right(v: GameView, now: i64)
    requires
        view_wf(v),
        !v.player.dead,
        v.graphics.facing == FacingDirection::Right,
        cooled(v.player.hammer_used, now, crate::player::MINIMUM_HAMMER_BREAK),
        v.position.x < i64::MAX,
    ensures
        ({
            let input = Input { up: false, down: false, left: false, right: false, space: false, x: true };
            let r = after_hammer(v, input, now);
            let t = offset_spec(v.position, 1, 0);
            &&& r.cells == grid_after_strike(v.width, v.height, v.cells, t)
            &&& r.graphics.animation == AnimationDirection::HammerRight
            &&& r.player.hammer_used == now
            &&& r.position == v.position
            &&& r.things == v.things
        }),
{
}

/// A hit takes one health and stamps the hit; within two seconds of the
/// last hit, an enemy on the player's tile takes nothing.
pub proof fn lemma_hit_window(v: GameView, now: i64)
    requires
        view_wf(v),
        !v.player.dead,
    ensures
        ({
            let r = after_contact(v, now);
            &&& !cooled(v.player.health_lost, now, MINIMUM_LIFE_BREAK) ==> r.player.health
                == v.player.health && r.player.health_lost == v.player.health_lost
            &&& cooled(v.player.health_lost, now, MINIMUM_LIFE_BREAK) && enemy_at(v.enemies, v.position)
                ==> r.player.health == v.player.health - 1 && r.player.health_lost == now
        }),
{
}

/// An enemy whose way ahead is shut turns round and stays on its tile.
pub proof fn lemma_enemy_turns(e: Enemy, now: i64)
    requires
        e.wf(),
        cooled(e.last_movement, now, crate::enemy::MINIMUM_ENEMY_MOVEMENT_BREAK),
    ensures
        enemy_step(e, now, false).pos == e.pos,
        enemy_step(e, now, false).dir == -e.dir,
        enemy_step(e, now, false).last_movement == e.last_movement,
{
}

} // verus!
