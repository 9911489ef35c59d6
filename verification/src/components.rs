//! Components of the arena variant of the combat rules: a single shared
//! velocity vector per entity, integer hit points, and a drone whose
//! weak point is a whole side rather than an oriented rectangle.

use vstd::prelude::*;
use crate::timer::Timer;
use crate::vec2::FxVec2;

verus! {

/// A single velocity vector.
#[derive(Clone, Copy, Debug, PartialEq, Eq, Structural)]
pub struct Velocity(pub FxVec2);

/// Signed hit points; an entity at or below zero is dead.
#[derive(Clone, Copy, Debug, PartialEq, Eq, Structural)]
pub struct Health {
    pub current: i32,
    pub max: i32,
}

/// Marker for the player entity.
#[derive(Clone, Copy, Debug, PartialEq, Eq, Structural)]
pub struct Player;

/// Marker for an entity resting on the ground.
#[derive(Clone, Copy, Debug, PartialEq, Eq, Structural)]
pub struct Grounded;

/// An ongoing dash, carrying only its countdown.
#[derive(Clone, Copy, Debug, PartialEq, Eq, Structural)]
pub struct Dashing {
    pub timer: Timer,
}

/// Cooldown gating the burst and dash abilities.
#[derive(Clone, Copy, Debug, PartialEq, Eq, Structural)]
pub struct AbilityCooldown(pub Timer);

/// Marker for the aim arrow entity.
#[derive(Clone, Copy, Debug, PartialEq, Eq, Structural)]
pub struct AimArrow;

/// A dash being charged, tracking only its aim.
#[derive(Clone, Copy, Debug, PartialEq, Eq, Structural)]
pub struct Charging {
    pub direction: FxVec2,
}

/// Debounce between ground hops.
#[derive(Clone, Copy, Debug, PartialEq, Eq, Structural)]
pub struct HopDebounce {
    pub timer: Timer,
}

/// A drone of the arena rules: hit points and the side its weak point
/// faces.
#[derive(Clone, Copy, Debug, PartialEq, Eq, Structural)]
pub struct Drone {
    pub hp: u8,
    pub weak_point: WeakPointSide,
}

/// Hover anchor of a drone.
#[derive(Clone, Copy, Debug, PartialEq, Eq, Structural)]
pub struct DroneHover {
    pub center: FxVec2,
    /// Phase of the hover oscillation, fixed-point radians.
    pub phase: i64,
}

/// Which side of a drone is vulnerable.
#[derive(Clone, Copy, Debug, PartialEq, Eq, Structural, Hash)]
pub enum WeakPointSide {
    Left,
    Right,
    Top,
    Bottom,
}

/// An RGB sprite color, as presentation hands it in.
#[derive(Clone, Copy, Debug, PartialEq, Eq, Structural)]
pub struct ColorRgb {
    pub r: u8,
    pub g: u8,
    pub b: u8,
}

/// Invulnerability window of the arena rules, flashing the sprite white
/// while it runs.
#[derive(Clone, Copy, Debug, PartialEq, Eq, Structural)]
pub struct CollisionImmunity {
    pub timer: Timer,
    pub blink: bool,
    pub original_color: Option<ColorRgb>,
}

impl Health {
    pub open spec fn wf(self) -> bool {
        -0x1000000 <= self.current <= 0x1000000 && -0x1000000 <= self.max <= 0x1000000
    }
}

} // verus!
