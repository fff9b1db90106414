use diamond_rust::enemy::{Axis, Enemy};
use diamond_rust::game::{Game, Input, Request, Snapshot};
use diamond_rust::geometry::{FacingDirection, Tile};
use diamond_rust::graphics::AnimationDirection;
use diamond_rust::map::parse_map;
use diamond_rust::player::Player;
use diamond_rust::world::TileKind;

fn keys(right: bool, x: bool) -> Input {
    Input { up: false, down: false, left: false, right, space: false, x }
}

fn idle() -> Input {
    keys(false, false)
}

fn game_at(text: &str, x: i64, y: i64, enemies: Vec<Enemy>, stored: Option<Snapshot>) -> Game {
    let (world, things) = parse_map(text).unwrap();
    Game::new(world, things, enemies, Tile { x, y }, stored)
}

fn fresh_at(text: &str, x: i64, y: i64) -> Game {
    game_at(text, x, y, Vec::new(), None)
}

#[test]
fn key_then_door_in_one_row() {
    let mut g = fresh_at("xkd.", 0, 0);
    assert_eq!(g.tick(&keys(true, false), 0, 0), Request::Idle);
    assert_eq!(g.position, Tile { x: 1, y: 0 });
    assert_eq!(g.player.keys, 1);
    assert_eq!(g.tick(&keys(true, false), 150, 150), Request::Idle);
    assert_eq!(g.position, Tile { x: 2, y: 0 });
    assert_eq!(g.player.keys, 0);
    assert!(!g.things[1].present);
}

#[test]
fn key_off_path_leaves_player_short_of_wall() {
    let mut g = fresh_at("xxxx\nx..x\nxkdx\nxxxx", 1, 1);
    g.tick(&keys(true, false), 0, 0);
    g.tick(&keys(true, false), 150, 150);
    g.tick(&keys(true, false), 300, 150);
    assert_eq!(g.position, Tile { x: 2, y: 1 });
    assert_eq!(g.player.keys, 0);
}

#[test]
fn locked_door_blocks_without_key() {
    let mut g = fresh_at(".d.", 0, 0);
    g.tick(&keys(true, false), 0, 0);
    assert_eq!(g.position, Tile { x: 0, y: 0 });
    assert!(g.things[0].present);
}

#[test]
fn hammer_breaks_brittle_wall_then_step_succeeds() {
    let map = "xxxxxxx\nx.....x\nx.....x\nx.....x\nx.....x\nx....0x\nxxxxxxx";
    let mut g = fresh_at(map, 4, 5);
    assert_eq!(g.world.tile_kind(Tile { x: 5, y: 5 }), Some(TileKind::BrittleWall));
    g.tick(&keys(true, false), 0, 0);
    assert_eq!(g.position, Tile { x: 4, y: 5 });
    g.tick(&keys(false, true), 200, 200);
    assert_eq!(g.world.tile_kind(Tile { x: 5, y: 5 }), Some(TileKind::Empty));
    assert_eq!(g.player.hammer_used, 200);
    assert_eq!(g.graphics.animation, AnimationDirection::HammerRight);
    g.tick(&keys(true, false), 300, 100);
    assert_eq!(g.position, Tile { x: 5, y: 5 });
}

#[test]
fn hammer_on_plain_floor_only_stamps() {
    let mut g = fresh_at("....", 1, 0);
    let cells = g.world.cells.clone();
    let things = g.things.clone();
    let before = g.player;
    g.tick(&keys(false, true), 500, 0);
    assert_eq!(g.world.cells, cells);
    assert_eq!(g.things, things);
    assert_eq!(g.position, Tile { x: 1, y: 0 });
    assert_eq!(g.player, Player { hammer_used: 500, unchecked_movement: false, ..before });
    g.tick(&keys(false, true), 700, 0);
    assert_eq!(g.player.hammer_used, 500);
    g.tick(&keys(false, true), 800, 0);
    assert_eq!(g.player.hammer_used, 800);
}

#[test]
fn enemy_hit_then_invulnerable_window() {
    let map = "xxxxxxx\nxxxxxxx\nxx....x\nxxxxxxx";
    let enemy = Enemy { pos: Tile { x: 5, y: 2 }, last_movement: 0, dir: 1, axis: Axis::Horizontal };
    let mut g = game_at(map, 2, 2, vec![enemy], None);
    let mut now: i64 = 0;
    let mut hit_at: i64 = -1;
    while now <= 2000 {
        g.tick(&idle(), now, 50);
        if g.player.health == 2 && hit_at < 0 {
            hit_at = now;
        }
        now += 50;
    }
    assert!(hit_at >= 0);
    assert_eq!(g.player.health_lost, hit_at);
    while now < hit_at + 2000 {
        g.tick(&idle(), now, 50);
        assert_eq!(g.player.health, 2);
        now += 50;
    }
}

#[test]
fn save_point_then_restart_restores_player() {
    let text = "p*.";
    let mut g = fresh_at(text, 0, 0);
    g.tick(&idle(), 0, 0);
    assert_eq!(g.player.diamonds, 1);
    let saved = match g.tick(&keys(true, false), 100, 100) {
        Request::Save(s) => s,
        other => panic!("expected a save, got {:?}", other),
    };
    assert!(saved.player.on_save_point);
    assert_eq!(saved.player, g.player);
    assert_eq!(saved.position, Tile { x: 1, y: 0 });
    assert_eq!(saved.facing, FacingDirection::Right);
    assert_eq!(saved.animation, AnimationDirection::Right);
    // a restart reads the save at startup
    let restarted = Game::from_map(text, Some(saved)).unwrap();
    assert_eq!(restarted.player, saved.player);
    assert_eq!(restarted.position, Tile { x: 1, y: 0 });
    assert_eq!(restarted.graphics.facing, FacingDirection::Right);
    // a respawn after walking on reads it again, keeping its own stamp
    let mut other = fresh_at(text, 0, 0);
    other.tick(&keys(true, false), 0, 0);
    other.tick(&keys(true, false), 100, 100);
    assert_eq!(other.position, Tile { x: 2, y: 0 });
    let space = Input { up: false, down: false, left: false, right: false, space: true, x: false };
    assert_eq!(other.tick(&space, 5000, 100), Request::Respawn);
    other.respawn(Some(saved));
    assert_eq!(other.player, Player { last_space_movement: 5000, ..saved.player });
    assert_eq!(other.position, Tile { x: 1, y: 0 });
    assert_eq!(other.graphics.animation, AnimationDirection::Right);
}

#[test]
fn last_health_hit_kills_and_freezes() {
    let weak = Snapshot {
        player: Player { health: 1, ..Player::new() },
        position: Tile { x: 1, y: 0 },
        facing: FacingDirection::Right,
        animation: AnimationDirection::Right,
    };
    let enemy = Enemy { pos: Tile { x: 1, y: 0 }, last_movement: 100000, dir: 1, axis: Axis::Horizontal };
    let mut g = game_at("....", 1, 0, vec![enemy], Some(weak));
    g.tick(&idle(), 0, 0);
    assert_eq!(g.player.health, 0);
    assert!(g.player.dead);
    assert_eq!(g.graphics.animation, AnimationDirection::Dead);
    g.tick(&keys(true, false), 500, 500);
    g.tick(&keys(true, false), 1000, 500);
    assert_eq!(g.position, Tile { x: 1, y: 0 });
    assert_eq!(g.graphics.animation, AnimationDirection::Dead);
}

#[test]
fn hundred_right_presses_in_short_corridor() {
    let mut g = fresh_at("...........x", 0, 0);
    let mut moves = 0;
    for k in 0..100i64 {
        let before = g.position;
        g.tick(&keys(true, false), k * 100, 100);
        if g.position != before {
            moves += 1;
        }
        assert_eq!(g.player.last_right_movement, k * 100);
    }
    assert_eq!(g.position, Tile { x: 10, y: 0 });
    assert_eq!(moves, 10);
}

#[test]
fn holding_right_moves_once_per_tenth_second() {
    let mut g = fresh_at("..........", 0, 0);
    let mut now: i64 = 0;
    while now <= 450 {
        g.tick(&keys(true, false), now, 30);
        now += 30;
    }
    // steps at 0, 120, 240, 360
    assert_eq!(g.position, Tile { x: 4, y: 0 });
    assert_eq!(g.player.last_right_movement, 360);
}

#[test]
fn respawn_after_cooldown_without_save_gives_fresh_player() {
    let mut g = fresh_at("pp..", 0, 0);
    g.tick(&keys(true, false), 0, 0);
    assert_eq!(g.player.diamonds, 1);
    let space = Input { up: false, down: false, left: false, right: false, space: true, x: false };
    assert_eq!(g.tick(&space, 2000, 100), Request::Respawn);
    assert_eq!(g.player.last_space_movement, 2000);
    g.respawn(None);
    assert_eq!(g.player, Player { last_space_movement: 2000, ..Player::new() });
    assert_eq!(g.position, Tile { x: 0, y: 0 });
    // holding space does not respawn again within a second
    assert_eq!(g.tick(&space, 2500, 100), Request::Idle);
    assert_eq!(g.tick(&space, 3000, 100), Request::Respawn);
}

#[test]
fn leaving_save_point_clears_flag_and_saves_nothing() {
    let mut g = fresh_at(".*..", 0, 0);
    g.tick(&idle(), 0, 0);
    assert!(matches!(g.tick(&keys(true, false), 100, 100), Request::Save(_)));
    assert!(g.player.on_save_point);
    assert_eq!(g.tick(&idle(), 200, 100), Request::Idle);
    assert_eq!(g.tick(&keys(true, false), 300, 100), Request::Idle);
    assert_eq!(g.position, Tile { x: 2, y: 0 });
    assert!(!g.player.on_save_point);
    assert!(g.things[0].present);
}
