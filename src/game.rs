//! The game state and the phases of one tick.
use vstd::prelude::*;
use crate::enemy::{
    Enemy, MINIMUM_ENEMY_MOVEMENT_BREAK, enemy_spawn_list, enemy_spawns, enemy_step,
};
use crate::geometry::{
    FacingDirection, Tile, facing_dx, facing_dy, offset, offset_fits, offset_spec,
};
use crate::graphics::{
    AnimationDirection, FrameAnimation, PlayerGraphics, animate_spec, animation_is_left,
    first_frame, frame_animation, frames_spec, is_animation_left, sides_agree,
};
use crate::map::{MapError, describes, lines_of, parse_map, widest};
use crate::player::{
    MINIMUM_HAMMER_BREAK, MINIMUM_LIFE_BREAK, MINIMUM_MOVE_BREAK, MINIMUM_SPACE_BREAK, Player,
    cooldown_over, cooled, initial_player,
};
use crate::things::{Thing, ThingKind, has_thing, thing_at};
use crate::world::{TileKind, World, grid_after_strike, grid_blocks};

verus! {

/// The tile the player starts on, and respawns on.
pub const START_TILE_X: i64 = 2;

/// The tile the player starts on, and respawns on.
pub const START_TILE_Y: i64 = 2;

/// The keys held down during a frame.
#[derive(Clone, Copy, Debug, PartialEq, Eq, Structural)]
pub struct Input {
    pub up: bool,
    pub down: bool,
    pub left: bool,
    pub right: bool,
    /// Respawn from the last save.
    pub space: bool,
    /// Swing the hammer.
    pub x: bool,
}

/// What a tick asks of the caller.
#[derive(Clone, Copy, Debug, PartialEq, Eq, Structural)]
pub enum Request {
    /// Nothing.
    Idle,
    /// Write this snapshot to the save store.
    Save(Snapshot),
    /// Read the save store and hand what it holds to `Game::respawn`.
    Respawn,
}

/// What a save point records and a respawn restores: the player's record,
/// its tile, its facing and its animation state.
#[derive(Clone, Copy, Debug, PartialEq, Eq, Structural)]
pub struct Snapshot {
    pub player: Player,
    pub position: Tile,
    pub facing: FacingDirection,
    pub animation: AnimationDirection,
}

impl Snapshot {
    /// The record is consistent, the facing agrees with the animation, and
    /// only a dead player is shown dead.
    pub open spec fn wf(&self) -> bool {
        &&& self.player.wf()
        &&& sides_agree(self.facing, self.animation)
        &&& (self.animation == AnimationDirection::Dead ==> self.player.dead)
    }

    /// Whether the snapshot is consistent.
    pub fn is_consistent(&self) -> (r: bool)
        ensures
            r == self.wf(),
    {
        let left = match self.animation {
            AnimationDirection::Left | AnimationDirection::HitLeft | AnimationDirection::HammerLeft => true,
            _ => false,
        };
        let dead_shown = match self.animation {
            AnimationDirection::Dead => true,
            _ => false,
        };
        let facing_ok = match self.facing {
            FacingDirection::Left => left,
            FacingDirection::Right => !left,
            _ => true,
        };
        self.player.is_consistent() && (dead_shown || facing_ok) && (!dead_shown || self.player.dead)
    }
}

/// A fresh player on `start`, facing and walking right.
pub open spec fn fresh_snapshot(start: Tile) -> Snapshot {
    Snapshot {
        player: initial_player(),
        position: start,
        facing: FacingDirection::Right,
        animation: AnimationDirection::Right,
    }
}

/// The snapshot to build the player from, given what the save store held:
/// the stored one where there is one and it is consistent, else a fresh
/// player on `start`.
pub open spec fn restored(stored: Option<Snapshot>, start: Tile) -> Snapshot {
    match stored {
        Some(s) => if s.wf() {
            s
        } else {
            fresh_snapshot(start)
        },
        None => fresh_snapshot(start),
    }
}

/// The snapshot to build the player from, given what the save store held:
/// the stored one where there is one and it is consistent, else a fresh
/// player on `start`.
pub fn read_or_defaults(stored: Option<Snapshot>, start: Tile) -> (r: Snapshot)
    ensures
        r == restored(stored, start),
        r.wf(),
{
    let fresh = Snapshot {
        player: Player::new(),
        position: start,
        facing: FacingDirection::Right,
        animation: AnimationDirection::Right,
    };
    match stored {
        Some(s) => if s.is_consistent() {
            s
        } else {
            fresh
        },
        None => fresh,
    }
}

/// The animation state a snapshot starts in: its animation and facing, no
/// swing under way.
pub open spec fn graphics_of(s: Snapshot) -> PlayerGraphics {
    PlayerGraphics { animation: s.animation, facing: s.facing, hammer_done: 0 }
}

/// The frame timer a snapshot starts with: the first frame of its
/// animation, just begun.
pub open spec fn frame_of(s: Snapshot) -> FrameAnimation {
    FrameAnimation { elapsed: 0, current_frame: 0, sprite: frames_spec(s.animation)[0] }
}

/// What a save point records of the game.
pub open spec fn snapshot_of(v: GameView) -> Snapshot {
    Snapshot {
        player: v.player,
        position: v.position,
        facing: v.graphics.facing,
        animation: v.graphics.animation,
    }
}

/// The whole game: the grid, the entities on it, the enemies and the
/// player with its tile and animation.
pub struct Game {
    pub world: World,
    pub things: Vec<Thing>,
    pub enemies: Vec<Enemy>,
    pub player: Player,
    pub position: Tile,
    pub graphics: PlayerGraphics,
    pub frame: FrameAnimation,
    pub start: Tile,
}

/// The game as plain values.
pub struct GameView {
    pub width: int,
    pub height: int,
    pub cells: Seq<TileKind>,
    pub things: Seq<Thing>,
    pub enemies: Seq<Enemy>,
    pub player: Player,
    pub position: Tile,
    pub graphics: PlayerGraphics,
    pub frame: FrameAnimation,
    pub start: Tile,
}

impl View for Game {
    type V = GameView;

    open spec fn view(&self) -> GameView {
        GameView {
            width: self.world.width as int,
            height: self.world.height as int,
            cells: self.world.cells@,
            things: self.things@,
            enemies: self.enemies@,
            player: self.player,
            position: self.position,
            graphics: self.graphics,
            frame: self.frame,
            start: self.start,
        }
    }
}

/// Whether `t` stops motion: a wall, a brittle wall, or a stone.
pub open spec fn solid(v: GameView, t: Tile) -> bool {
    grid_blocks(v.width, v.height, v.cells, t) || thing_at(v.things, ThingKind::Stone, t)
}

/// Whether some enemy stands at `t`.
pub open spec fn enemy_at(enemies: Seq<Enemy>, t: Tile) -> bool {
    exists|i: int| 0 <= i < enemies.len() && (#[trigger] enemies[i]).pos == t
}

/// Whether all enemies step one tile forward or back.
pub open spec fn enemies_wf(enemies: Seq<Enemy>) -> bool {
    forall|i: int| 0 <= i < enemies.len() ==> (#[trigger] enemies[i]).wf()
}

/// The tile the hammer hits: one step in the facing direction.
pub open spec fn hammer_target(pos: Tile, facing: FacingDirection) -> Option<Tile> {
    if offset_fits(pos, facing_dx(facing), facing_dy(facing)) {
        Some(offset_spec(pos, facing_dx(facing), facing_dy(facing)))
    } else {
        None
    }
}

/// The game after the hammer phase: with `X` held and the hammer cooled
/// down, the swing starts (to the side the player is shown turned), a brittle
/// wall on the tile ahead is broken, and the stamp is taken.
pub open spec fn after_hammer(v: GameView, input: Input, now: i64) -> GameView {
    if input.x && cooled(v.player.hammer_used, now, MINIMUM_HAMMER_BREAK) {
        let a = if animation_is_left(v.graphics.animation) {
            AnimationDirection::HammerLeft
        } else {
            AnimationDirection::HammerRight
        };
        let cells = match hammer_target(v.position, v.graphics.facing) {
            Some(t) => grid_after_strike(v.width, v.height, v.cells, t),
            None => v.cells,
        };
        GameView {
            cells,
            player: Player { hammer_used: now, ..v.player },
            graphics: PlayerGraphics { animation: a, ..v.graphics },
            frame: FrameAnimation { sprite: frames_spec(a)[0], ..v.frame },
            ..v
        }
    } else {
        v
    }
}

/// Whether the player may step onto `t` holding `keys` keys: it is not
/// solid, and a closed door there needs a key.
pub open spec fn step_open(v: GameView, t: Tile, keys: u64) -> bool {
    !solid(v, t) && !(keys == 0 && thing_at(v.things, ThingKind::Door, t))
}

/// The directions whose arrow is held and whose cooldown is over, in the
/// order up, down, left, right.
pub open spec fn walk_dirs(p: Player, input: Input, now: i64) -> (bool, bool, bool, bool) {
    (
        input.up && cooled(p.last_up_movement, now, MINIMUM_MOVE_BREAK),
        input.down && cooled(p.last_down_movement, now, MINIMUM_MOVE_BREAK),
        input.left && cooled(p.last_left_movement, now, MINIMUM_MOVE_BREAK),
        input.right && cooled(p.last_right_movement, now, MINIMUM_MOVE_BREAK),
    )
}

/// The game after the walking phase.
///
/// Each direction whose arrow is held and whose cooldown is over adds one
/// tile to the step and takes its stamp; the last of up, down, left, right
/// among them sets the facing. Going left turns a right-turned player left,
/// and going right turns a left-turned one right. The step is taken where the
/// tile it leads to is open.
pub open spec fn after_walk(v: GameView, input: Input, now: i64) -> GameView {
    let p = v.player;
    let (up, down, left, right) = walk_dirs(p, input, now);
    let facing = if right {
        FacingDirection::Right
    } else if left {
        FacingDirection::Left
    } else if down {
        FacingDirection::Down
    } else if up {
        FacingDirection::Up
    } else {
        v.graphics.facing
    };
    let a0 = v.graphics.animation;
    let turn_left = left && !animation_is_left(a0);
    let a1 = if turn_left {
        AnimationDirection::Left
    } else {
        a0
    };
    let turn_right = right && animation_is_left(a1);
    let a2 = if turn_right {
        AnimationDirection::Right
    } else {
        a1
    };
    let sprite = if turn_right {
        frames_spec(AnimationDirection::Right)[0]
    } else if turn_left {
        frames_spec(AnimationDirection::Left)[0]
    } else {
        v.frame.sprite
    };
    let dx = (if right { 1int } else { 0int }) - (if left { 1int } else { 0int });
    let dy = (if down { 1int } else { 0int }) - (if up { 1int } else { 0int });
    let moved = (dx != 0 || dy != 0) && offset_fits(v.position, dx, dy) && step_open(
        v,
        offset_spec(v.position, dx, dy),
        p.keys,
    );
    GameView {
        player: Player {
            last_up_movement: if up { now } else { p.last_up_movement },
            last_down_movement: if down { now } else { p.last_down_movement },
            last_left_movement: if left { now } else { p.last_left_movement },
            last_right_movement: if right { now } else { p.last_right_movement },
            unchecked_movement: moved || p.unchecked_movement,
            ..p
        },
        position: if moved { offset_spec(v.position, dx, dy) } else { v.position },
        graphics: PlayerGraphics { animation: a2, facing, ..v.graphics },
        frame: FrameAnimation { sprite, ..v.frame },
        ..v
    }
}

/// The game after the enemy-contact phase.
///
/// An enemy on the player's tile, with the last hit two seconds or more
/// ago, takes one health and stamps the hit; the last health lost kills.
/// Then the animation shows it: a dead player is dead; while the hit is
/// recent a walking player is shown hit; after that a hit one walks again.
pub open spec fn after_contact(v: GameView, now: i64) -> GameView {
    let p = v.player;
    let hit = enemy_at(v.enemies, v.position) && cooled(p.health_lost, now, MINIMUM_LIFE_BREAK);
    let hurt = if hit {
        Player {
            health_lost: now,
            health: (p.health - 1) as u64,
            dead: p.dead || p.health == 1,
            ..p
        }
    } else {
        p
    };
    let a = v.graphics.animation;
    let a1 = if hurt.dead {
        AnimationDirection::Dead
    } else if !cooled(hurt.health_lost, now, MINIMUM_LIFE_BREAK) {
        if a == AnimationDirection::Left {
            AnimationDirection::HitLeft
        } else if a == AnimationDirection::Right {
            AnimationDirection::HitRight
        } else {
            a
        }
    } else if a == AnimationDirection::HitLeft {
        AnimationDirection::Left
    } else if a == AnimationDirection::HitRight {
        AnimationDirection::Right
    } else {
        a
    };
    GameView { player: hurt, graphics: PlayerGraphics { animation: a1, ..v.graphics }, ..v }
}

/// The game after the player phase of a tick: a dead player only shows as
/// dead; a living one swings the hammer, walks and meets enemies.
pub open spec fn after_player(v: GameView, input: Input, now: i64) -> GameView {
    if v.player.dead {
        GameView {
            graphics: PlayerGraphics { animation: AnimationDirection::Dead, ..v.graphics },
            ..v
        }
    } else {
        after_contact(after_walk(after_hammer(v, input, now), input, now), now)
    }
}

/// One more, stopping at the largest count.
pub open spec fn bump(n: u64) -> u64 {
    if n < u64::MAX {
        (n + 1) as u64
    } else {
        n
    }
}

/// What touching `th` on tile `at` does to the player and to the entity,
/// in the first round (`doors` false: everything but doors) or the second
/// (`doors` true: doors only).
///
/// A bush is trampled; a diamond, a key or a life is taken and counted; a
/// door is opened with one key where one is held. Save points and stones
/// stay, and entities elsewhere, already gone, or not of the round are left
/// alone.
pub open spec fn touch(p: Player, th: Thing, at: Tile, doors: bool) -> (Player, Thing) {
    let gone = Thing { present: false, ..th };
    if !th.present || th.pos != at || (th.kind == ThingKind::Door) != doors {
        (p, th)
    } else {
        match th.kind {
            ThingKind::Bush => (p, gone),
            ThingKind::Diamond => (Player { diamonds: bump(p.diamonds), ..p }, gone),
            ThingKind::Key => (Player { keys: bump(p.keys), ..p }, gone),
            ThingKind::Life => (Player { health: bump(p.health), ..p }, gone),
            ThingKind::Door => if p.keys > 0 {
                (Player { keys: (p.keys - 1) as u64, ..p }, gone)
            } else {
                (p, th)
            },
            _ => (p, th),
        }
    }
}

/// The player after touching the first `n` entities in turn, in one round.
pub open spec fn player_after_touches(
    p: Player,
    things: Seq<Thing>,
    at: Tile,
    doors: bool,
    n: nat,
) -> Player
    decreases n,
{
    if n == 0 || n > things.len() {
        p
    } else {
        touch(player_after_touches(p, things, at, doors, (n - 1) as nat), things[n - 1], at, doors).0
    }
}

/// The entities after the player touched each in turn, in one round.
pub open spec fn things_after_touches(p: Player, things: Seq<Thing>, at: Tile, doors: bool) -> Seq<
    Thing,
> {
    Seq::new(
        things.len(),
        |i: int| touch(player_after_touches(p, things, at, doors, i as nat), things[i], at, doors).1,
    )
}

/// The game after the pickup phase: after a step, the entities on the
/// player's tile are touched in list order, first everything but doors,
/// then the doors, so that keys found there open doors there; and whether
/// the tile holds a save point is noted.
pub open spec fn after_pickups(v: GameView) -> GameView {
    if v.player.unchecked_movement {
        let at = v.position;
        let n = v.things.len();
        let p1 = player_after_touches(v.player, v.things, at, false, n);
        let t1 = things_after_touches(v.player, v.things, at, false);
        let p2 = player_after_touches(p1, t1, at, true, n);
        GameView {
            player: Player {
                unchecked_movement: false,
                on_save_point: thing_at(v.things, ThingKind::SavePoint, at),
                ..p2
            },
            things: things_after_touches(p1, t1, at, true),
            ..v
        }
    } else {
        v
    }
}

/// Whether the pickup phase ends on a save point, which asks for a save.
pub open spec fn saves(v: GameView) -> bool {
    v.player.unchecked_movement && thing_at(v.things, ThingKind::SavePoint, v.position)
}

/// Whether an enemy's next tile can be entered.
pub open spec fn open_ahead(v: GameView, e: Enemy) -> bool {
    match e.ahead() {
        Some(t) => !solid(v, t),
        None => false,
    }
}

/// The game after the enemy phase: each enemy takes its step.
pub open spec fn after_enemies(v: GameView, now: i64) -> GameView {
    GameView {
        enemies: Seq::new(
            v.enemies.len(),
            |i: int| enemy_step(v.enemies[i], now, open_ahead(v, v.enemies[i])),
        ),
        ..v
    }
}

/// The game after the animation phase, `delta` milliseconds on.
pub open spec fn after_animation(v: GameView, delta: u64) -> GameView {
    let (g, f) = animate_spec(v.graphics, v.frame, delta);
    GameView { graphics: g, frame: f, ..v }
}

/// Whether a tick asks for a respawn: space held and its cooldown over.
pub open spec fn respawn_due(v: GameView, input: Input, now: i64) -> bool {
    input.space && cooled(v.player.last_space_movement, now, MINIMUM_SPACE_BREAK)
}

/// One tick at time `now`, `delta` milliseconds after the last, and what it
/// asks of the caller.
///
/// A due respawn stamps the cooldown, lets the enemies and the animation
/// run, and asks for the save store. Otherwise the player phase, the
/// pickups, the enemies and the animation run in turn, and a save is asked
/// for where the pickups end on a save point.
pub open spec fn tick_spec(v: GameView, input: Input, now: i64, delta: u64) -> (GameView, Request) {
    if respawn_due(v, input, now) {
        let v1 = GameView { player: Player { last_space_movement: now, ..v.player }, ..v };
        (after_animation(after_enemies(v1, now), delta), Request::Respawn)
    } else {
        let v1 = after_player(v, input, now);
        let v2 = after_pickups(v1);
        let v3 = after_enemies(v2, now);
        let v4 = after_animation(v3, delta);
        (v4, if saves(v1) { Request::Save(snapshot_of(v2)) } else { Request::Idle })
    }
}

/// The game after a respawn from what the save store held: the player
/// rebuilt from the stored snapshot (or afresh on the start tile), keeping
/// the respawn's own cooldown stamp.
pub open spec fn after_respawn(v: GameView, stored: Option<Snapshot>) -> GameView {
    let s = restored(stored, v.start);
    GameView {
        player: Player { last_space_movement: v.player.last_space_movement, ..s.player },
        position: s.position,
        graphics: graphics_of(s),
        frame: frame_of(s),
        ..v
    }
}

impl Game {
    /// The grid is consistent, the player record is, the animation is, and
    /// every enemy walks one step at a time.
    pub open spec fn wf(&self) -> bool {
        &&& self.world.wf()
        &&& self.player.wf()
        &&& self.graphics.wf()
        &&& self.frame.wf()
        &&& (self.graphics.animation == AnimationDirection::Dead ==> self.player.dead)
        &&& enemies_wf(self.enemies@)
    }

    /// A game on `world` with `things` and `enemies`, the player on `start`
    /// built from what the save store held.
    pub fn new(
        world: World,
        things: Vec<Thing>,
        enemies: Vec<Enemy>,
        start: Tile,
        stored: Option<Snapshot>,
    ) -> (r: Game)
        requires
            world.wf(),
            enemies_wf(enemies@),
        ensures
            r.wf(),
            r.world == world,
            r.things@ == things@,
            r.enemies@ == enemies@,
            r.start == start,
            snapshot_of(r@) == restored(stored, start),
            r.graphics == graphics_of(restored(stored, start)),
            r.frame == frame_of(restored(stored, start)),
    {
        let s = read_or_defaults(stored, start);
        Game {
            world,
            things,
            enemies,
            player: s.player,
            position: s.position,
            graphics: PlayerGraphics { animation: s.animation, facing: s.facing, hammer_done: 0 },
            frame: FrameAnimation { elapsed: 0, current_frame: 0, sprite: first_frame(s.animation) },
            start,
        }
    }

    /// What a save point records of the game.
    pub fn snapshot(&self) -> (r: Snapshot)
        ensures
            r == snapshot_of(self@),
    {
        Snapshot {
            player: self.player,
            position: self.position,
            facing: self.graphics.facing,
            animation: self.graphics.animation,
        }
    }

    /// The game that a map text describes, with the fixed enemies and the
    /// player on the start tile, built from what the save store held.
    pub fn from_map(text: &str, stored: Option<Snapshot>) -> (r: Result<Game, MapError>)
        requires
            text@.len() <= i64::MAX,
        ensures
            match r {
                Ok(g) => {
                    &&& g.wf()
                    &&& describes(text@, g.world, g.things@)
                    &&& g.enemies@ == enemy_spawn_list()
                    &&& g.start == (Tile { x: START_TILE_X, y: START_TILE_Y })
                    &&& snapshot_of(g@) == restored(stored, g.start)
                    &&& g.graphics == graphics_of(restored(stored, g.start))
                    &&& g.frame == frame_of(restored(stored, g.start))
                },
                Err(e) => e == MapError::TooLarge && lines_of(text@).len() * widest(
                    lines_of(text@),
                ) > usize::MAX,
            },
    {
        match parse_map(text) {
            Ok((world, things)) => {
                let enemies = enemy_spawns();
                Ok(Game::new(world, things, enemies, Tile { x: START_TILE_X, y: START_TILE_Y }, stored))
            },
            Err(e) => Err(e),
        }
    }

    /// Whether `t` stops motion: a wall, a brittle wall, or a stone.
    pub fn would_collide_with_wall(&self, t: &Tile) -> (r: bool)
        requires
            self.world.wf(),
        ensures
            r == solid(self@, *t),
    {
        self.world.is_blocking(*t) || has_thing(&self.things, ThingKind::Stone, *t)
    }

    /// Whether a closed door stands at `t`.
    pub fn would_collide_with_door(&self, t: &Tile) -> (r: bool)
        ensures
            r == thing_at(self.things@, ThingKind::Door, *t),
    {
        has_thing(&self.things, ThingKind::Door, *t)
    }

    /// The hammer phase of a tick.
    pub fn hammer(&mut self, input: &Input, now: i64)
        requires
            old(self).wf(),
            !old(self).player.dead,
            0 <= now,
        ensures
            final(self).wf(),
            final(self)@ == after_hammer(old(self)@, *input, now),
    {
        if input.x && cooldown_over(self.player.hammer_used, now, MINIMUM_HAMMER_BREAK) {
            let a = if is_animation_left(&self.graphics) {
                AnimationDirection::HammerLeft
            } else {
                AnimationDirection::HammerRight
            };
            self.player.hammer_used = now;
            self.graphics.animation = a;
            self.frame.sprite = first_frame(a);
            let f = self.graphics.facing;
            let (dx, dy): (i64, i64) = match f {
                FacingDirection::Left => (-1, 0),
                FacingDirection::Right => (1, 0),
                FacingDirection::Up => (0, -1),
                FacingDirection::Down => (0, 1),
            };
            match offset(self.position, dx, dy) {
                Some(t) => {
                    self.world.destroy_brittle(t);
                },
                None => {},
            }
        }
    }

    /// The walking phase of a tick.
    pub fn walk(&mut self, input: &Input, now: i64)
        requires
            old(self).wf(),
            !old(self).player.dead,
            0 <= now,
        ensures
            final(self).wf(),
            final(self)@ == after_walk(old(self)@, *input, now),
    {
        let up = input.up && cooldown_over(self.player.last_up_movement, now, MINIMUM_MOVE_BREAK);
        let down = input.down && cooldown_over(
            self.player.last_down_movement,
            now,
            MINIMUM_MOVE_BREAK,
        );
        let left = input.left && cooldown_over(
            self.player.last_left_movement,
            now,
            MINIMUM_MOVE_BREAK,
        );
        let right = input.right && cooldown_over(
            self.player.last_right_movement,
            now,
            MINIMUM_MOVE_BREAK,
        );
        let mut dx: i64 = 0;
        let mut dy: i64 = 0;
        if up {
            self.graphics.facing = FacingDirection::Up;
            dy = dy - 1;
            self.player.last_up_movement = now;
        }
        if down {
            self.graphics.facing = FacingDirection::Down;
            dy = dy + 1;
            self.player.last_down_movement = now;
        }
        if left {
            self.graphics.facing = FacingDirection::Left;
            dx = dx - 1;
            if !is_animation_left(&self.graphics) {
                self.graphics.animation = AnimationDirection::Left;
                self.frame.sprite = first_frame(AnimationDirection::Left);
            }
            self.player.last_left_movement = now;
        }
        if right {
            self.graphics.facing = FacingDirection::Right;
            dx = dx + 1;
            if is_animation_left(&self.graphics) {
                self.graphics.animation = AnimationDirection::Right;
                self.frame.sprite = first_frame(AnimationDirection::Right);
            }
            self.player.last_right_movement = now;
        }
        if dx != 0 || dy != 0 {
            match offset(self.position, dx, dy) {
                Some(t) => {
                    let blocked = self.would_collide_with_wall(&t) || (self.player.keys == 0
                        && self.would_collide_with_door(&t));
                    if !blocked {
                        self.position = t;
                        self.player.unchecked_movement = true;
                    }
                },
                None => {},
            }
        }
    }

    /// Whether some enemy stands at `t`.
    pub fn enemy_on(&self, t: &Tile) -> (r: bool)
        ensures
            r == enemy_at(self.enemies@, *t),
    {
        let mut i: usize = 0;
        while i < self.enemies.len()
            invariant
                i <= self.enemies@.len(),
                forall|j: int| 0 <= j < i ==> (#[trigger] self.enemies@[j]).pos != *t,
            decreases self.enemies@.len() - i,
        {
            if self.enemies[i].pos == *t {
                return true;
            }
            i = i + 1;
        }
        false
    }

    /// The enemy-contact phase of a tick.
    pub fn contact(&mut self, now: i64)
        requires
            old(self).wf(),
            !old(self).player.dead,
            0 <= now,
        ensures
            final(self).wf(),
            final(self)@ == after_contact(old(self)@, now),
    {
        let here = self.position;
        if self.enemy_on(&here) && cooldown_over(self.player.health_lost, now, MINIMUM_LIFE_BREAK) {
            self.player.health_lost = now;
            self.player.health = self.player.health - 1;
            if self.player.health == 0 {
                self.player.dead = true;
            }
        }
        let a = self.graphics.animation;
        if self.player.dead {
            self.graphics.animation = AnimationDirection::Dead;
        } else if !cooldown_over(self.player.health_lost, now, MINIMUM_LIFE_BREAK) {
            if a == AnimationDirection::Left {
                self.graphics.animation = AnimationDirection::HitLeft;
            } else if a == AnimationDirection::Right {
                self.graphics.animation = AnimationDirection::HitRight;
            }
        } else if a == AnimationDirection::HitLeft {
            self.graphics.animation = AnimationDirection::Left;
        } else if a == AnimationDirection::HitRight {
            self.graphics.animation = AnimationDirection::Right;
        }
    }

    /// The player phase of a tick, after the respawn check.
    pub fn move_player(&mut self, input: &Input, now: i64)
        requires
            old(self).wf(),
            0 <= now,
        ensures
            final(self).wf(),
            final(self)@ == after_player(old(self)@, *input, now),
    {
        if self.player.dead {
            self.graphics.animation = AnimationDirection::Dead;
        } else {
            self.hammer(input, now);
            self.walk(input, now);
            self.contact(now);
        }
    }

    /// One round of touching the entities on the player's tile.
    fn touch_all(&mut self, doors: bool)
        requires
            old(self).wf(),
        ensures
            final(self).wf(),
            final(self).player == player_after_touches(
                old(self).player,
                old(self).things@,
                old(self).position,
                doors,
                old(self).things@.len(),
            ),
            final(self).things@ == things_after_touches(
                old(self).player,
                old(self).things@,
                old(self).position,
                doors,
            ),
            final(self).world == old(self).world,
            final(self).enemies == old(self).enemies,
            final(self).position == old(self).position,
            final(self).graphics == old(self).graphics,
            final(self).frame == old(self).frame,
            final(self).start == old(self).start,
    {
        let ghost first = self.player;
        let ghost things0 = self.things@;
        let at = self.position;
        let mut i: usize = 0;
        while i < self.things.len()
            invariant
                i <= self.things@.len(),
                self.things@.len() == things0.len(),
                self.position == at,
                self.world == old(self).world,
                self.enemies == old(self).enemies,
                self.graphics == old(self).graphics,
                self.frame == old(self).frame,
                self.start == old(self).start,
                first == old(self).player,
                things0 == old(self).things@,
                at == old(self).position,
                self.player == player_after_touches(first, things0, at, doors, i as nat),
                self.player.dead == first.dead,
                self.player.wf(),
                forall|j: int|
                    0 <= j < i ==> #[trigger] self.things@[j] == things_after_touches(
                        first,
                        things0,
                        at,
                        doors,
                    )[j],
                forall|j: int| i <= j < things0.len() ==> #[trigger] self.things@[j] == things0[j],
            decreases things0.len() - i,
        {
            let th = self.things[i];
            let mut p = self.player;
            let mut t = th;
            let is_door = match th.kind {
                ThingKind::Door => true,
                _ => false,
            };
            if th.present && th.pos == at && is_door == doors {
                match th.kind {
                    ThingKind::Bush => {
                        t.present = false;
                    },
                    ThingKind::Diamond => {
                        t.present = false;
                        if p.diamonds < u64::MAX {
                            p.diamonds = p.diamonds + 1;
                        }
                    },
                    ThingKind::Key => {
                        t.present = false;
                        if p.keys < u64::MAX {
                            p.keys = p.keys + 1;
                        }
                    },
                    ThingKind::Life => {
                        t.present = false;
                        if p.health < u64::MAX {
                            p.health = p.health + 1;
                        }
                    },
                    ThingKind::Door => {
                        if p.keys > 0 {
                            t.present = false;
                            p.keys = p.keys - 1;
                        }
                    },
                    _ => {},
                }
            }
            assert((p, t) == touch(self.player, th, at, doors));
            self.player = p;
            self.things.set(i, t);
            i = i + 1;
        }
        assert(self.things@ =~= things_after_touches(first, things0, at, doors));
    }

    /// The pickup phase of a tick. Returns the snapshot to save where the
    /// tile holds a save point.
    pub fn player_collisions(&mut self) -> (r: Option<Snapshot>)
        requires
            old(self).wf(),
        ensures
            final(self).wf(),
            final(self)@ == after_pickups(old(self)@),
            r == (if saves(old(self)@) {
                Some(snapshot_of(final(self)@))
            } else {
                None
            }),
    {
        if !self.player.unchecked_movement {
            return None;
        }
        let at = self.position;
        let on_save = has_thing(&self.things, ThingKind::SavePoint, at);
        self.touch_all(false);
        self.touch_all(true);
        self.player.unchecked_movement = false;
        self.player.on_save_point = on_save;
        if on_save {
            Some(self.snapshot())
        } else {
            None
        }
    }

    /// The enemy phase of a tick.
    pub fn move_enemies(&mut self, now: i64)
        requires
            old(self).wf(),
            0 <= now,
        ensures
            final(self).wf(),
            final(self)@ == after_enemies(old(self)@, now),
    {
        let ghost v0 = self@;
        let mut i: usize = 0;
        while i < self.enemies.len()
            invariant
                i <= self.enemies@.len(),
                self.enemies@.len() == v0.enemies.len(),
                self.world == old(self).world,
                self.things == old(self).things,
                self.player == old(self).player,
                self.position == old(self).position,
                self.graphics == old(self).graphics,
                self.frame == old(self).frame,
                self.start == old(self).start,
                v0 == old(self)@,
                0 <= now,
                self.world.wf(),
                enemies_wf(v0.enemies),
                forall|j: int|
                    0 <= j < i ==> #[trigger] self.enemies@[j] == enemy_step(
                        v0.enemies[j],
                        now,
                        open_ahead(v0, v0.enemies[j]),
                    ),
                forall|j: int|
                    i <= j < v0.enemies.len() ==> #[trigger] self.enemies@[j] == v0.enemies[j],
            decreases v0.enemies.len() - i,
        {
            let e = self.enemies[i];
            if cooldown_over(e.last_movement, now, MINIMUM_ENEMY_MOVEMENT_BREAK) {
                let e2 = match e.next_tile() {
                    Some(t) => if self.would_collide_with_wall(&t) {
                        Enemy { dir: -e.dir, ..e }
                    } else {
                        Enemy { pos: t, last_movement: now, ..e }
                    },
                    None => Enemy { dir: -e.dir, ..e },
                };
                self.enemies.set(i, e2);
            }
            i = i + 1;
        }
        assert(self.enemies@ =~= after_enemies(v0, now).enemies);
        assert forall|j: int| 0 <= j < self.enemies@.len() implies (#[trigger] self.enemies@[j]).wf() by {
            assert(v0.enemies[j].wf());
        }
    }

    /// The animation phase of a tick, `delta` milliseconds on.
    pub fn animate(&mut self, delta: u64)
        requires
            old(self).wf(),
        ensures
            final(self).wf(),
            final(self)@ == after_animation(old(self)@, delta),
    {
        frame_animation(&mut self.graphics, &mut self.frame, delta);
    }

    /// Rebuilds the player from what the save store held (its record, tile,
    /// facing and animation), or afresh on the start tile where it held
    /// nothing usable; the respawn's cooldown stamp is kept.
    pub fn respawn(&mut self, stored: Option<Snapshot>)
        requires
            old(self).wf(),
        ensures
            final(self).wf(),
            final(self)@ == after_respawn(old(self)@, stored),
    {
        let s = read_or_defaults(stored, self.start);
        let stamp = self.player.last_space_movement;
        self.player = s.player;
        self.player.last_space_movement = stamp;
        self.position = s.position;
        self.graphics = PlayerGraphics { animation: s.animation, facing: s.facing, hammer_done: 0 };
        self.frame = FrameAnimation { elapsed: 0, current_frame: 0, sprite: first_frame(s.animation) };
    }

    /// Runs one tick at time `now` (milliseconds since start), `delta`
    /// milliseconds after the last, and says what it asks of the caller.
    pub fn tick(&mut self, input: &Input, now: i64, delta: u64) -> (r: Request)
        requires
            old(self).wf(),
            0 <= now,
        ensures
            final(self).wf(),
            (final(self)@, r) == tick_spec(old(self)@, *input, now, delta),
    {
        if input.space && cooldown_over(self.player.last_space_movement, now, MINIMUM_SPACE_BREAK) {
            self.player.last_space_movement = now;
            self.move_enemies(now);
            self.animate(delta);
            return Request::Respawn;
        }
        self.move_player(input, now);
        let saved = self.player_collisions();
        self.move_enemies(now);
        self.animate(delta);
        match saved {
            Some(p) => Request::Save(p),
            None => Request::Idle,
        }
    }
}

} // verus!
