use diamond_rust::enemy::{enemy_spawns, Axis, Enemy};
use diamond_rust::game::{read_or_defaults, Game, Input, Snapshot, START_TILE_X, START_TILE_Y};
use diamond_rust::geometry::{check_simple_collision, offset, FacingDirection, Tile};
use diamond_rust::graphics::{
    frame_animation, frames_for, is_animation_left, AnimationDirection, FrameAnimation,
    PlayerGraphics,
};
use diamond_rust::map::parse_map;
use diamond_rust::player::{cooldown_over, Player};
use diamond_rust::sprites::{draw_thing_sprite, stone_sprite, thing_sprite, tile_sprite};
use diamond_rust::things::{Thing, ThingKind};
use diamond_rust::world::TileKind;

fn fresh_at(text: &str, x: i64, y: i64, enemies: Vec<Enemy>) -> Game {
    let (world, things) = parse_map(text).unwrap();
    Game::new(world, things, enemies, Tile { x, y }, None)
}

fn idle() -> Input {
    Input { up: false, down: false, left: false, right: false, space: false, x: false }
}

#[test]
fn enemy_turns_at_wall_without_moving() {
    let enemy = Enemy { pos: Tile { x: 1, y: 1 }, last_movement: 0, dir: 1, axis: Axis::Horizontal };
    let mut g = fresh_at("xxxx\nx.xx\nxxxx", 0, 0, vec![enemy]);
    g.tick(&idle(), 500, 0);
    assert_eq!(g.enemies[0].pos, Tile { x: 1, y: 1 });
    assert_eq!(g.enemies[0].dir, -1);
    assert_eq!(g.enemies[0].last_movement, 0);
}

#[test]
fn vertical_enemy_walks_down_and_waits_its_turn() {
    let enemy = Enemy { pos: Tile { x: 0, y: 0 }, last_movement: 0, dir: 1, axis: Axis::Vertical };
    let mut g = fresh_at(".\n.\n.\n.", 0, 3, vec![enemy]);
    g.tick(&idle(), 200, 0);
    assert_eq!(g.enemies[0].pos, Tile { x: 0, y: 1 });
    assert_eq!(g.enemies[0].last_movement, 200);
    g.tick(&idle(), 300, 100);
    assert_eq!(g.enemies[0].pos, Tile { x: 0, y: 1 });
}

#[test]
fn enemy_does_not_enter_stone_but_passes_doors() {
    let e1 = Enemy { pos: Tile { x: 0, y: 0 }, last_movement: 0, dir: 1, axis: Axis::Horizontal };
    let e2 = Enemy { pos: Tile { x: 0, y: 1 }, last_movement: 0, dir: 1, axis: Axis::Horizontal };
    let mut g = fresh_at(".@\n.d", 0, 0, vec![e1, e2]);
    g.tick(&idle(), 1000, 0);
    assert_eq!(g.enemies[0].pos, Tile { x: 0, y: 0 });
    assert_eq!(g.enemies[0].dir, -1);
    assert_eq!(g.enemies[1].pos, Tile { x: 1, y: 1 });
}

#[test]
fn fixed_enemy_spawns() {
    let e = enemy_spawns();
    assert_eq!(e.len(), 4);
    assert_eq!(e[0], Enemy { pos: Tile { x: 7, y: 1 }, last_movement: 2000, dir: 1, axis: Axis::Vertical });
    assert_eq!(e[1].pos, Tile { x: 28, y: 11 });
    assert_eq!(e[2].pos, Tile { x: 2, y: 11 });
    assert_eq!(e[3].pos, Tile { x: 16, y: 11 });
    assert!(e[1..].iter().all(|x| x.axis == Axis::Horizontal));
}

#[test]
fn from_map_places_player_on_start_tile() {
    let g = Game::from_map("xxxx\nx..x\nx..x\nxxxx", None).unwrap();
    assert_eq!(g.position, Tile { x: START_TILE_X, y: START_TILE_Y });
    assert_eq!(g.position, Tile { x: 2, y: 2 });
    assert_eq!(g.enemies.len(), 4);
    assert_eq!(g.player, Player::new());
}

#[test]
fn pickups_count_and_bushes_vanish() {
    let mut g = fresh_at(".pb+k", 0, 0, Vec::new());
    let right = Input { up: false, down: false, left: false, right: true, space: false, x: false };
    let mut now = 0;
    for _ in 0..4 {
        g.tick(&right, now, 100);
        now += 100;
    }
    assert_eq!(g.position, Tile { x: 4, y: 0 });
    assert_eq!(g.player.diamonds, 1);
    assert_eq!(g.player.health, 4);
    assert_eq!(g.player.keys, 1);
    assert!(g.things.iter().all(|t| !t.present));
}

#[test]
fn walls_and_stones_block_the_player() {
    let mut g = fresh_at(".x\n@.", 0, 0, Vec::new());
    let right = Input { up: false, down: false, left: false, right: true, space: false, x: false };
    let down = Input { up: false, down: true, left: false, right: false, space: false, x: false };
    g.tick(&right, 0, 0);
    assert_eq!(g.position, Tile { x: 0, y: 0 });
    g.tick(&down, 100, 0);
    assert_eq!(g.position, Tile { x: 0, y: 0 });
    assert_eq!(g.graphics.facing, FacingDirection::Down);
}

#[test]
fn tiles_off_the_grid_are_open() {
    let enemy = Enemy { pos: Tile { x: 0, y: 2 }, last_movement: 0, dir: -1, axis: Axis::Horizontal };
    let mut g = fresh_at("x.
..
..", 1, 0, vec![enemy]);
    let up = Input { up: true, down: false, left: false, right: false, space: false, x: false };
    g.tick(&up, 200, 0);
    assert_eq!(g.position, Tile { x: 1, y: -1 });
    assert_eq!(g.enemies[0].pos, Tile { x: -1, y: 2 });
    assert_eq!(g.enemies[0].dir, -1);
}

#[test]
fn diagonal_step_when_two_arrows_held() {
    let mut g = fresh_at("..\n..", 0, 0, Vec::new());
    let both = Input { up: false, down: true, left: false, right: true, space: false, x: false };
    g.tick(&both, 0, 0);
    assert_eq!(g.position, Tile { x: 1, y: 1 });
    assert_eq!(g.graphics.facing, FacingDirection::Right);
}

#[test]
fn turning_left_changes_animation_and_sprite() {
    let mut g = fresh_at("...", 2, 0, Vec::new());
    let left = Input { up: false, down: false, left: true, right: false, space: false, x: false };
    g.tick(&left, 0, 0);
    assert_eq!(g.position, Tile { x: 1, y: 0 });
    assert_eq!(g.graphics.animation, AnimationDirection::Left);
    assert_eq!(g.frame.sprite, 6);
    let hammer = Input { up: false, down: false, left: false, right: false, space: false, x: true };
    g.tick(&hammer, 100, 0);
    assert_eq!(g.graphics.animation, AnimationDirection::HammerLeft);
    assert_eq!(g.frame.sprite, 13);
}

#[test]
fn frame_timer_cycles_frames() {
    let mut g = PlayerGraphics::new();
    let mut f = FrameAnimation::new();
    frame_animation(&mut g, &mut f, 150);
    assert_eq!((f.current_frame, f.sprite, f.elapsed), (0, 0, 150));
    frame_animation(&mut g, &mut f, 100);
    assert_eq!((f.current_frame, f.sprite, f.elapsed), (1, 1, 50));
    for _ in 0..4 {
        frame_animation(&mut g, &mut f, 200);
    }
    assert_eq!((f.current_frame, f.sprite), (0, 0));
    frame_animation(&mut g, &mut f, 450);
    assert_eq!((f.current_frame, f.sprite, f.elapsed), (1, 1, 100));
}

#[test]
fn hammer_swing_lasts_three_ticks() {
    let mut g = PlayerGraphics { animation: AnimationDirection::HammerLeft, facing: FacingDirection::Up, hammer_done: 0 };
    let mut f = FrameAnimation::new();
    for k in 1..=3u8 {
        frame_animation(&mut g, &mut f, 10);
        assert_eq!(g.hammer_done, k);
        assert_eq!(g.animation, AnimationDirection::HammerLeft);
    }
    frame_animation(&mut g, &mut f, 10);
    assert_eq!(g.animation, AnimationDirection::Left);
    assert_eq!(g.hammer_done, 0);
}

#[test]
fn animation_sides_and_frames() {
    let left = PlayerGraphics { animation: AnimationDirection::HitLeft, facing: FacingDirection::Left, hammer_done: 0 };
    let right = PlayerGraphics { animation: AnimationDirection::Dead, facing: FacingDirection::Left, hammer_done: 0 };
    assert!(is_animation_left(&left));
    assert!(!is_animation_left(&right));
    assert_eq!(frames_for(AnimationDirection::Right), vec![0, 1, 2, 3, 4]);
    assert_eq!(frames_for(AnimationDirection::Left), vec![6, 7, 8, 9, 10]);
    assert_eq!(frames_for(AnimationDirection::HitRight), vec![24, 0]);
    assert_eq!(frames_for(AnimationDirection::HitLeft), vec![26, 6]);
    assert_eq!(frames_for(AnimationDirection::HammerRight), vec![12, 0]);
    assert_eq!(frames_for(AnimationDirection::HammerLeft), vec![13, 6]);
    assert_eq!(frames_for(AnimationDirection::Dead), vec![25]);
}

#[test]
fn hit_shows_then_fades() {
    let enemy = Enemy { pos: Tile { x: 0, y: 0 }, last_movement: 100000, dir: 1, axis: Axis::Horizontal };
    let mut g = fresh_at("..", 0, 0, vec![enemy]);
    g.tick(&idle(), 0, 0);
    assert_eq!(g.player.health, 2);
    assert_eq!(g.graphics.animation, AnimationDirection::HitRight);
    g.tick(&idle(), 1999, 0);
    assert_eq!(g.player.health, 2);
    assert_eq!(g.graphics.animation, AnimationDirection::HitRight);
    g.tick(&idle(), 2000, 0);
    assert_eq!(g.player.health, 1);
    assert_eq!(g.graphics.animation, AnimationDirection::HitRight);
    g.enemies[0].pos = Tile { x: 1, y: 0 };
    g.tick(&idle(), 4000, 0);
    assert_eq!(g.graphics.animation, AnimationDirection::Right);
}

fn snap(player: Player, facing: FacingDirection, animation: AnimationDirection) -> Snapshot {
    Snapshot { player, position: Tile { x: 5, y: 6 }, facing, animation }
}

#[test]
fn restore_rejects_inconsistent_record() {
    let start = Tile { x: 2, y: 2 };
    let fresh = Snapshot {
        player: Player::new(),
        position: start,
        facing: FacingDirection::Right,
        animation: AnimationDirection::Right,
    };
    let broken = snap(Player { health: 0, dead: false, ..Player::new() }, FacingDirection::Right, AnimationDirection::Right);
    assert_eq!(read_or_defaults(Some(broken), start), fresh);
    let wrong_side = snap(Player::new(), FacingDirection::Left, AnimationDirection::Right);
    assert_eq!(read_or_defaults(Some(wrong_side), start), fresh);
    let dead_shown_alive = snap(Player::new(), FacingDirection::Up, AnimationDirection::Dead);
    assert_eq!(read_or_defaults(Some(dead_shown_alive), start), fresh);
    let fine = snap(Player { health: 7, keys: 2, ..Player::new() }, FacingDirection::Left, AnimationDirection::HitLeft);
    assert_eq!(read_or_defaults(Some(fine), start), fine);
    let up = snap(Player::new(), FacingDirection::Up, AnimationDirection::Left);
    assert_eq!(read_or_defaults(Some(up), start), up);
    assert_eq!(read_or_defaults(None, start), fresh);
    let p = Player::new();
    assert_eq!(p.health, 3);
    assert_eq!(p.last_up_movement, -100000);
    assert!(p.unchecked_movement);
}

#[test]
fn hammer_swing_ends_even_on_frame_boundary() {
    let mut g = PlayerGraphics { animation: AnimationDirection::HammerRight, facing: FacingDirection::Right, hammer_done: 0 };
    let mut f = FrameAnimation::new();
    for _ in 0..3 {
        frame_animation(&mut g, &mut f, 200);
    }
    assert_eq!(g.hammer_done, 3);
    frame_animation(&mut g, &mut f, 200);
    assert_eq!(g.animation, AnimationDirection::Right);
    assert_eq!(g.hammer_done, 0);
}

#[test]
fn keys_on_a_tile_open_its_door_whatever_the_order() {
    let (world, _) = parse_map("..").unwrap();
    let door = Thing { kind: ThingKind::Door, pos: Tile { x: 1, y: 0 }, present: true };
    let key = Thing { kind: ThingKind::Key, pos: Tile { x: 1, y: 0 }, present: true };
    let mut g = Game::new(world, vec![door, key], Vec::new(), Tile { x: 1, y: 0 }, None);
    g.tick(&idle(), 0, 0);
    assert_eq!(g.player.keys, 0);
    assert!(!g.things[0].present);
    assert!(!g.things[1].present);
}

#[test]
fn cooldowns_and_offsets() {
    assert!(cooldown_over(-100000, 0, 2000));
    assert!(cooldown_over(100, 200, 100));
    assert!(!cooldown_over(101, 200, 100));
    assert_eq!(offset(Tile { x: 1, y: 1 }, -1, 1), Some(Tile { x: 0, y: 2 }));
    assert_eq!(offset(Tile { x: i64::MAX, y: 0 }, 1, 0), None);
    assert!(check_simple_collision(&Tile { x: 3, y: 4 }, &Tile { x: 3, y: 4 }));
    assert!(!check_simple_collision(&Tile { x: 3, y: 4 }, &Tile { x: 4, y: 3 }));
}

#[test]
fn sprite_indices() {
    assert_eq!(tile_sprite(TileKind::Wall), 18);
    assert_eq!(tile_sprite(TileKind::BrittleWall), 22);
    assert_eq!(tile_sprite(TileKind::Empty), 23);
    assert_eq!(thing_sprite(ThingKind::Bush, 0), 3);
    assert_eq!(thing_sprite(ThingKind::Diamond, 0), 8);
    assert_eq!(thing_sprite(ThingKind::Key, 0), 12);
    assert_eq!(thing_sprite(ThingKind::Door, 0), 24);
    assert_eq!(thing_sprite(ThingKind::Life, 0), 5);
    assert_eq!(thing_sprite(ThingKind::SavePoint, 0), 26);
    assert_eq!(thing_sprite(ThingKind::Stone, 7), 15);
    assert_eq!(stone_sprite(4), 3);
    assert_eq!(stone_sprite(5), 13);
    for _ in 0..20 {
        let s = draw_thing_sprite(ThingKind::Stone);
        assert!([13, 14, 15, 16, 3].contains(&s));
    }
    assert_eq!(draw_thing_sprite(ThingKind::Door), 24);
}
