//! Patrolling enemies.
use vstd::prelude::*;
use crate::geometry::{Tile, offset, offset_fits, offset_spec};

verus! {

/// Minimum time between two enemy steps, in milliseconds.
pub const MINIMUM_ENEMY_MOVEMENT_BREAK: i64 = 200;

/// The line an enemy patrols along.
#[derive(Clone, Copy, Debug, PartialEq, Eq, Structural)]
pub enum Axis {
    Horizontal,
    Vertical,
}

/// An enemy: its tile, when it last stepped, and which way it walks along
/// its axis (`1` toward growing coordinates, `-1` back).
#[derive(Clone, Copy, Debug, PartialEq, Eq, Structural)]
pub struct Enemy {
    pub pos: Tile,
    pub last_movement: i64,
    pub dir: i64,
    pub axis: Axis,
}

impl Enemy {
    /// The direction is one step forward or back.
    pub open spec fn wf(&self) -> bool {
        self.dir == 1 || self.dir == -1
    }

    /// The tile one step ahead, where it can be named.
    pub open spec fn ahead(&self) -> Option<Tile> {
        let (dx, dy) = match self.axis {
            Axis::Horizontal => (self.dir as int, 0int),
            Axis::Vertical => (0int, self.dir as int),
        };
        if offset_fits(self.pos, dx, dy) {
            Some(offset_spec(self.pos, dx, dy))
        } else {
            None
        }
    }

    /// The tile one step ahead, where it can be named.
    pub fn next_tile(&self) -> (r: Option<Tile>)
        requires
            self.wf(),
        ensures
            r == self.ahead(),
    {
        match self.axis {
            Axis::Horizontal => offset(self.pos, self.dir, 0),
            Axis::Vertical => offset(self.pos, 0, self.dir),
        }
    }
}

/// The enemy after one tick at time `now`, where `open_ahead` says whether
/// the tile ahead can be entered: once its cooldown is over it steps ahead,
/// or, where the way is shut, turns round and stays put.
pub open spec fn enemy_step(e: Enemy, now: i64, open_ahead: bool) -> Enemy {
    if e.last_movement + MINIMUM_ENEMY_MOVEMENT_BREAK <= now {
        if open_ahead && e.ahead() is Some {
            Enemy { pos: e.ahead()->0, last_movement: now, ..e }
        } else {
            Enemy { dir: (-e.dir) as i64, ..e }
        }
    } else {
        e
    }
}

/// The enemies placed at the start of every game.
pub open spec fn enemy_spawn_list() -> Seq<Enemy> {
    seq![
        Enemy { pos: Tile { x: 7, y: 1 }, last_movement: 2000, dir: 1, axis: Axis::Vertical },
        Enemy { pos: Tile { x: 28, y: 11 }, last_movement: 2000, dir: 1, axis: Axis::Horizontal },
        Enemy { pos: Tile { x: 2, y: 11 }, last_movement: 2000, dir: 1, axis: Axis::Horizontal },
        Enemy { pos: Tile { x: 16, y: 11 }, last_movement: 2000, dir: 1, axis: Axis::Horizontal },
    ]
}

/// The enemies placed at the start of every game.
pub fn enemy_spawns() -> (r: Vec<Enemy>)
    ensures
        r@ == enemy_spawn_list(),
{
    vec![
        Enemy { pos: Tile { x: 7, y: 1 }, last_movement: 2000, dir: 1, axis: Axis::Vertical },
        Enemy { pos: Tile { x: 28, y: 11 }, last_movement: 2000, dir: 1, axis: Axis::Horizontal },
        Enemy { pos: Tile { x: 2, y: 11 }, last_movement: 2000, dir: 1, axis: Axis::Horizontal },
        Enemy { pos: Tile { x: 16, y: 11 }, last_movement: 2000, dir: 1, axis: Axis::Horizontal },
    ]
}

} // verus!
