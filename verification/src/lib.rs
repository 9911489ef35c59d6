//! Movement-and-combat simulation core of a 2D arcade action game.
//!
//! A single controllable character (the flier) traverses an open level,
//! fights drones with a chargeable dash ability, and accumulates score
//! through weak-point hits.  All quantities are fixed-point numbers: an
//! `i64` raw value counts units of `1 / SCALE`, so the arithmetic is exact
//! and every per-tick rule can be stated and proved as written.

pub mod animation;
pub mod combat;
pub mod components;
pub mod config;
pub mod constants;
pub mod enemy;
pub mod fx;
pub mod game_state;
pub mod health;
pub mod input;
pub mod laws;
pub mod physics;
pub mod player;
pub mod score;
pub mod timer;
pub mod vec2;
pub mod world;

pub use fx::SCALE;
