//! The session tunables: a flat, immutable snapshot of the named numeric
//! constants the simulation reads, in fixed-point units.

use vstd::prelude::*;
use crate::fx::{SCALE, SIM_LIM};

verus! {

/// All tuning values of one session.  Loaded once at startup and never
/// mutated by the core.
#[derive(Clone, Copy, Debug, PartialEq, Eq, Structural)]
pub struct GameConfig {
    pub gravity: i64,
    pub charging_gravity_multiplier: i64,
    pub movement_smoothing: i64,
    pub air_friction: i64,
    pub ground_friction: i64,
    pub floor_y: i64,
    pub x_limit: i64,
    pub ceiling_y: i64,
    pub spring_force: i64,
    pub max_pull: i64,
    pub player_x_acceleration: i64,
    pub player_y_acceleration: i64,
    pub player_max_x_speed: i64,
    pub player_min_fall_speed: i64,
    pub player_max_rise_speed: i64,
    pub player_charging_power_duration: i64,
    pub player_dash_duration: i64,
    pub player_dash_immunity_duration: i64,
    pub player_dash_speed: i64,
    pub cam_min_y: i64,
    pub cam_max_y: i64,
    pub cam_min_x: i64,
    pub cam_max_x: i64,
    pub cam_smoothing: i64,
}

/// The stock tuning: the values a session uses when no config file
/// overrides them, scaled to fixed point.
pub open spec fn default_config() -> GameConfig {
    GameConfig {
        gravity: -2752512i64,
        charging_gravity_multiplier: 13107,
        movement_smoothing: 524288,
        air_friction: 131072,
        ground_friction: 393216,
        floor_y: -10485760i64,
        x_limit: 65536000,
        ceiling_y: 19660800,
        spring_force: 393216,
        max_pull: -18350080i64,
        player_x_acceleration: 209715200,
        player_y_acceleration: 144179200,
        player_max_x_speed: 15728640,
        player_min_fall_speed: -18350080i64,
        player_max_rise_speed: 18350080,
        player_charging_power_duration: 49152,
        player_dash_duration: 7864,
        player_dash_immunity_duration: 65536,
        player_dash_speed: 196608000,
        cam_min_y: -1966080i64,
        cam_max_y: 3932160,
        cam_min_x: -58982400i64,
        cam_max_x: 58982400,
        cam_smoothing: 524288,
    }
}

impl GameConfig {
    /// The ranges the simulation relies on: magnitudes small enough for
    /// the fixed-point helpers, fractions in `[0, 1]`, positive divisors,
    /// ordered clamp bounds, and non-negative rates.
    pub open spec fn wf(self) -> bool {
        &&& -SIM_LIM <= self.gravity <= SIM_LIM
        &&& 0 <= self.charging_gravity_multiplier <= SCALE
        &&& 0 <= self.movement_smoothing <= SIM_LIM
        &&& 0 <= self.air_friction <= SIM_LIM
        &&& 0 <= self.ground_friction <= SIM_LIM
        &&& -SIM_LIM <= self.floor_y <= SIM_LIM
        &&& 0 <= self.x_limit <= SIM_LIM
        &&& -SIM_LIM <= self.ceiling_y <= SIM_LIM
        &&& 0 <= self.spring_force <= SIM_LIM
        &&& -SIM_LIM <= self.max_pull <= 0
        &&& 0 <= self.player_x_acceleration <= SIM_LIM
        &&& 0 <= self.player_y_acceleration <= SIM_LIM
        &&& 0 <= self.player_max_x_speed <= SIM_LIM
        &&& -SIM_LIM <= self.player_min_fall_speed <= self.player_max_rise_speed <= SIM_LIM
        &&& 0 < self.player_charging_power_duration <= SIM_LIM
        &&& 0 <= self.player_dash_duration <= SIM_LIM
        &&& 0 <= self.player_dash_immunity_duration <= SIM_LIM
        &&& 0 <= self.player_dash_speed <= SIM_LIM
        &&& -SIM_LIM <= self.cam_min_y <= self.cam_max_y <= SIM_LIM
        &&& -SIM_LIM <= self.cam_min_x <= self.cam_max_x <= SIM_LIM
        &&& 0 <= self.cam_smoothing <= SIM_LIM
    }
}

impl Default for GameConfig {
    /// The stock tuning as an executable value.
    fn default() -> (r: GameConfig)
        ensures
            r == default_config(),
            r.wf(),
    {
        GameConfig {
            gravity: -2752512,
            charging_gravity_multiplier: 13107,
            movement_smoothing: 524288,
            air_friction: 131072,
            ground_friction: 393216,
            floor_y: -10485760,
            x_limit: 65536000,
            ceiling_y: 19660800,
            spring_force: 393216,
            max_pull: -18350080,
            player_x_acceleration: 209715200,
            player_y_acceleration: 144179200,
            player_max_x_speed: 15728640,
            player_min_fall_speed: -18350080,
            player_max_rise_speed: 18350080,
            player_charging_power_duration: 49152,
            player_dash_duration: 7864,
            player_dash_immunity_duration: 65536,
            player_dash_speed: 196608000,
            cam_min_y: -1966080,
            cam_max_y: 3932160,
            cam_min_x: -58982400,
            cam_max_x: 58982400,
            cam_smoothing: 524288,
        }
    }
}

/// The configuration resource handed to every system.
#[derive(Clone, Copy, Debug, PartialEq, Eq, Structural)]
pub struct Config {
    pub game: GameConfig,
}

} // verus!
