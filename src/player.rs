//! The player's persistent state: inventory, health and cooldown stamps.
use vstd::prelude::*;

verus! {

/// Minimum time between two steps in one direction, in milliseconds.
pub const MINIMUM_MOVE_BREAK: i64 = 100;

/// Minimum time between two respawns, in milliseconds.
pub const MINIMUM_SPACE_BREAK: i64 = 1000;

/// Minimum time between two hammer strikes, in milliseconds.
pub const MINIMUM_HAMMER_BREAK: i64 = 300;

/// How long the player cannot be hit again after a hit, in milliseconds.
pub const MINIMUM_LIFE_BREAK: i64 = 2000;

/// The stamp that every cooldown starts from: long enough ago that nothing
/// waits on it.
pub const NEVER: i64 = -100000;

/// The health a new player starts with.
pub const START_HEALTH: u64 = 3;

/// The player's state that a save point records and a respawn restores.
/// Times are milliseconds since start.
#[derive(Clone, Copy, Debug, PartialEq, Eq, Structural)]
pub struct Player {
    pub health: u64,
    pub diamonds: u64,
    pub keys: u64,
    pub last_up_movement: i64,
    pub last_down_movement: i64,
    pub last_right_movement: i64,
    pub last_left_movement: i64,
    /// A step was taken whose tile has not yet been checked for pickups.
    pub unchecked_movement: bool,
    pub last_space_movement: i64,
    pub on_save_point: bool,
    pub dead: bool,
    /// When the player was last hit.
    pub health_lost: i64,
    /// When the hammer was last swung.
    pub hammer_used: i64,
}

/// Whether at least `gap` milliseconds separate `last` from `now`.
pub open spec fn cooled(last: i64, now: i64, gap: i64) -> bool {
    last + gap <= now
}

/// Whether at least `gap` milliseconds separate `last` from `now`.
pub fn cooldown_over(last: i64, now: i64, gap: i64) -> (r: bool)
    requires
        0 <= now,
        0 <= gap <= MINIMUM_LIFE_BREAK,
    ensures
        r == cooled(last, now, gap),
{
    last <= now - gap
}

/// A fresh player: three lives, empty pockets, every cooldown over, and its
/// start tile still to be checked for pickups.
pub open spec fn initial_player() -> Player {
    Player {
        health: START_HEALTH,
        diamonds: 0,
        keys: 0,
        last_up_movement: NEVER,
        last_down_movement: NEVER,
        last_right_movement: NEVER,
        last_left_movement: NEVER,
        unchecked_movement: true,
        last_space_movement: NEVER,
        on_save_point: false,
        dead: false,
        health_lost: NEVER,
        hammer_used: NEVER,
    }
}

impl Player {
    /// A player with no health left is dead.
    pub open spec fn wf(&self) -> bool {
        self.health == 0 ==> self.dead
    }

    /// A fresh player.
    pub fn new() -> (r: Player)
        ensures
            r == initial_player(),
            r.wf(),
    {
        Player {
            health: START_HEALTH,
            diamonds: 0,
            keys: 0,
            last_up_movement: NEVER,
            last_down_movement: NEVER,
            last_right_movement: NEVER,
            last_left_movement: NEVER,
            unchecked_movement: true,
            last_space_movement: NEVER,
            on_save_point: false,
            dead: false,
            health_lost: NEVER,
            hammer_used: NEVER,
        }
    }

    /// Whether the record is consistent: no health left means dead.
    pub fn is_consistent(&self) -> (r: bool)
        ensures
            r == self.wf(),
    {
        self.health > 0 || self.dead
    }
}

} // verus!
