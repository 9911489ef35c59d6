//! Tuning constants of the arena variant of the combat rules, in
//! fixed-point units.

use vstd::prelude::*;

verus! {

/// Horizontal acceleration of the player (1000 units/s^2).
pub const PLAYER_ACCELERATION: i64 = 1000 * 65536;

/// Maximum horizontal player speed (250 units/s).
pub const PLAYER_SPEED: i64 = 250 * 65536;

/// Speed of the player's dash burst (1000 units/s).
pub const PLAYER_DASH_SPEED: i64 = 1000 * 65536;

/// Duration of the dashing state (0.15 s).
pub const PLAYER_DASH_DURATION: i64 = 9830;

/// Vertical burst force (500 units/s).
pub const BURST_FORCE: i64 = 500 * 65536;

/// Small hop force while moving on the ground (100 units/s).
pub const GROUND_HOP_FORCE: i64 = 100 * 65536;

/// Continuous upward thrust while flapping (1200 units/s^2).
pub const AERIAL_VERTICAL_THRUST: i64 = 1200 * 65536;

/// Maximum vertical speed reachable by continuous thrust (550 units/s).
pub const MAX_AERIAL_VERTICAL_SPEED: i64 = 550 * 65536;

/// Continuous downward dive force (1500 units/s^2).
pub const AERIAL_DOWNWARD_FORCE: i64 = 1500 * 65536;

/// Air friction (5 /s).
pub const FRICTION: i64 = 5 * 65536;

/// Ground friction (10 /s).
pub const GROUND_FRICTION: i64 = 10 * 65536;

/// Friction while charging a dash, holding the player in place (10 /s).
pub const CHARGING_FRICTION: i64 = 10 * 65536;

/// Gravity (750 units/s^2, downward).
pub const GRAVITY: i64 = 750 * 65536;

/// Gravity multiplier while moving laterally (0.5).
pub const LATERAL_GRAVITY_MULTIPLIER: i64 = 32768;

/// Gravity multiplier while aiming a dash (0.1).
pub const CHARGING_GRAVITY_MULTIPLIER: i64 = 6553;

/// Height of the floor plane (-250 units).
pub const FLOOR_Y: i64 = -250 * 65536;

/// Cooldown of the burst and dash abilities (1 s).
pub const ABILITY_COOLDOWN: i64 = 65536;

/// Maximum screen-shake intensity on floor impact (10 units).
pub const MAX_SHAKE_INTENSITY: i64 = 10 * 65536;

/// Impact speed that yields maximum shake (1500 units/s).
pub const VELOCITY_FOR_MAX_SHAKE: i64 = 1500 * 65536;

/// Impact speed that yields maximum volume (1500 units/s).
pub const VELOCITY_FOR_MAX_VOLUME: i64 = 1500 * 65536;

/// Minimum impact speed counted as a hop (250 units/s).
pub const HOP_VELOCITY: i64 = 250 * 65536;

/// Speed cap for audio pitch scaling (1000 units/s).
pub const MAX_VELOCITY_FOR_SPEED_SCALING: i64 = 1000 * 65536;

/// Lowest audio playback rate (0.8).
pub const MIN_PLAYBACK_RATE: i64 = 52428;

/// Highest audio playback rate (1.5).
pub const MAX_PLAYBACK_RATE: i64 = 98304;

/// Longest screen shake (1.5 s).
pub const MAX_SHAKE_DURATION: i64 = 98304;

/// Shortest screen shake (0.1 s).
pub const MIN_SHAKE_DURATION: i64 = 6553;

/// Minimum impact speed that triggers impact audio (60 units/s).
pub const IMPACT_AUDIO_MIN_VELOCITY: i64 = 60 * 65536;

/// Hit points of a drone.
pub const DRONE_HP: u8 = 3;

/// Minimum interval between drone spawns (2.5 s).
pub const DRONE_SPAWN_INTERVAL: i64 = 163840;

/// Amplitude of a drone's hover (200 units).
pub const DRONE_HOVER_AMPLITUDE: i64 = 200 * 65536;

/// Hover oscillations per second (3).
pub const DRONE_HOVER_FREQUENCY: i64 = 3 * 65536;

/// Damage a dash deals on a weak point.
pub const DRONE_WEAKPOINT_DASH_DAMAGE: i32 = 3;

/// Repulsion applied on a normal collision (350 units/s).
pub const DRONE_REPULSION_FORCE: i64 = 350 * 65536;

/// Damage the player takes in a normal collision.
pub const DRONE_COLLISION_DAMAGE: i32 = 1;

/// Invulnerability window after a collision (0.7 s).
pub const COLLISION_IMMUNITY_DURATION: i64 = 45875;

/// Radius inside which the player and a drone collide (40 units).
pub const COLLISION_RADIUS: i64 = 40 * 65536;

} // verus!
