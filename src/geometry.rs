//! Tile coordinates and directions.
use vstd::prelude::*;

verus! {

/// A cell of the grid: `x` grows rightward, `y` grows downward.
#[derive(Clone, Copy, Debug, PartialEq, Eq, Structural)]
pub struct Tile {
    pub x: i64,
    pub y: i64,
}

/// The direction the player faces.
#[derive(Clone, Copy, Debug, PartialEq, Eq, Structural)]
pub enum FacingDirection {
    Left,
    Right,
    Up,
    Down,
}

/// Whether two positions name the same tile.
pub fn check_simple_collision(a: &Tile, b: &Tile) -> (r: bool)
    ensures
        r == (*a == *b),
{
    a.x == b.x && a.y == b.y
}

/// The horizontal part of one step in direction `f`.
pub open spec fn facing_dx(f: FacingDirection) -> int {
    match f {
        FacingDirection::Left => -1,
        FacingDirection::Right => 1,
        _ => 0,
    }
}

/// The vertical part of one step in direction `f` (down is positive).
pub open spec fn facing_dy(f: FacingDirection) -> int {
    match f {
        FacingDirection::Up => -1,
        FacingDirection::Down => 1,
        _ => 0,
    }
}

/// Whether a tile lies `dx`, `dy` away from another is representable.
pub open spec fn offset_fits(t: Tile, dx: int, dy: int) -> bool {
    i64::MIN <= t.x + dx <= i64::MAX && i64::MIN <= t.y + dy <= i64::MAX
}

/// The tile `dx`, `dy` away from `t`.
pub open spec fn offset_spec(t: Tile, dx: int, dy: int) -> Tile {
    Tile { x: (t.x + dx) as i64, y: (t.y + dy) as i64 }
}

/// The tile `dx`, `dy` away from `t`, where it can be named; `None` at the
/// edge of the coordinate range.
pub fn offset(t: Tile, dx: i64, dy: i64) -> (r: Option<Tile>)
    requires
        -1 <= dx <= 1,
        -1 <= dy <= 1,
    ensures
        r == (if offset_fits(t, dx as int, dy as int) {
            Some(offset_spec(t, dx as int, dy as int))
        } else {
            None
        }),
{
    if (dx > 0 && t.x == i64::MAX) || (dx < 0 && t.x == i64::MIN) || (dy > 0 && t.y == i64::MAX)
        || (dy < 0 && t.y == i64::MIN) {
        None
    } else {
        Some(Tile { x: t.x + dx, y: t.y + dy })
    }
}

} // verus!
