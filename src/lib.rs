//! Tick-based simulation of a tile-grid action puzzle: a player walks a
//! grid, collects items, opens doors with keys, breaks brittle walls with a
//! hammer, is hurt by patrolling enemies and saves progress at save points.
//!
//! Everything here is plain data and pure decisions; reading the map file,
//! the clock, the keyboard and the save file is left to the caller.
pub mod geometry;
pub mod world;
pub mod things;
pub mod map;
pub mod graphics;
pub mod player;
pub mod enemy;
pub mod game;
pub mod sprites;
pub mod laws;
