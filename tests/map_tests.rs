use diamond_rust::map::parse_map;
use diamond_rust::things::{Thing, ThingKind};
use diamond_rust::geometry::Tile;
use diamond_rust::world::TileKind;

fn thing(kind: ThingKind, x: i64, y: i64) -> Thing {
    Thing { kind, pos: Tile { x, y }, present: true }
}

#[test]
fn parse_reads_walls_and_spawns() {
    let (world, things) = parse_map("x0.\nbpk\nd+*\n@o?\n").unwrap();
    assert_eq!(world.dims(), (3, 4));
    assert_eq!(world.tile_kind(Tile { x: 0, y: 0 }), Some(TileKind::Wall));
    assert_eq!(world.tile_kind(Tile { x: 1, y: 0 }), Some(TileKind::BrittleWall));
    assert_eq!(world.tile_kind(Tile { x: 2, y: 0 }), Some(TileKind::Empty));
    assert_eq!(world.tile_kind(Tile { x: 1, y: 3 }), Some(TileKind::Empty));
    assert_eq!(world.tile_kind(Tile { x: 3, y: 0 }), None);
    assert_eq!(
        things,
        vec![
            thing(ThingKind::Bush, 0, 1),
            thing(ThingKind::Diamond, 1, 1),
            thing(ThingKind::Key, 2, 1),
            thing(ThingKind::Door, 0, 2),
            thing(ThingKind::Life, 1, 2),
            thing(ThingKind::SavePoint, 2, 2),
            thing(ThingKind::Stone, 0, 3),
        ]
    );
}

#[test]
fn parse_pads_short_lines_and_handles_crlf() {
    let (world, things) = parse_map("xxxx\r\nx\r\n\r\nxp").unwrap();
    assert_eq!(world.dims(), (4, 4));
    assert_eq!(world.tile_kind(Tile { x: 3, y: 0 }), Some(TileKind::Wall));
    assert_eq!(world.tile_kind(Tile { x: 1, y: 1 }), Some(TileKind::Empty));
    assert_eq!(world.tile_kind(Tile { x: 0, y: 2 }), Some(TileKind::Empty));
    assert_eq!(world.tile_kind(Tile { x: 0, y: 3 }), Some(TileKind::Wall));
    assert_eq!(things, vec![thing(ThingKind::Diamond, 1, 3)]);
}

#[test]
fn parse_empty_text_gives_empty_grid() {
    let (world, things) = parse_map("").unwrap();
    assert_eq!(world.dims(), (0, 0));
    assert!(things.is_empty());
    assert!(!world.is_blocking(Tile { x: 0, y: 0 }));
}

#[test]
fn parse_twice_gives_the_same_map() {
    let text = "xxxx\nx.0x\nxkdx\nx@*x\nxxxx";
    let (w1, t1) = parse_map(text).unwrap();
    let (w2, t2) = parse_map(text).unwrap();
    assert_eq!(w1.dims(), w2.dims());
    assert_eq!(w1.cells, w2.cells);
    assert_eq!(t1, t2);
}

#[test]
fn blocking_and_brittle_destruction() {
    let (mut world, _) = parse_map("x0.").unwrap();
    assert!(world.is_blocking(Tile { x: 0, y: 0 }));
    assert!(world.is_blocking(Tile { x: 1, y: 0 }));
    assert!(!world.is_blocking(Tile { x: 2, y: 0 }));
    assert!(!world.is_blocking(Tile { x: -1, y: 0 }));
    assert!(!world.is_blocking(Tile { x: 3, y: 0 }));
    assert!(!world.destroy_brittle(Tile { x: 0, y: 0 }));
    assert!(world.destroy_brittle(Tile { x: 1, y: 0 }));
    assert!(!world.is_blocking(Tile { x: 1, y: 0 }));
    assert_eq!(world.tile_kind(Tile { x: 1, y: 0 }), Some(TileKind::Empty));
    assert!(!world.destroy_brittle(Tile { x: 1, y: 0 }));
}
