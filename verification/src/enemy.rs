//! Drones and their weak spots.
//!
//! A drone is a circular body with an oriented rectangular weak spot on
//! one side.  The spot's offset direction, half extents and rotation are
//! derived once from its location when the drone spawns and are
//! immutable afterwards.  The hit test transforms the flier's position
//! into the spot's local frame, clamps to the rectangle, and compares
//! the squared distance against the flier's radius.

use vstd::prelude::*;
use crate::fx::{
    abs_i, clamp_fx, clamp_i, fxmul, lemma_fxmul_contraction, mul_fx, FX_LIM, FX_OP_BOUND, SCALE,
    SIM_LIM,
};
use crate::physics::{vec_bounded, Velocity};
use crate::timer::{Timer, TimerMode};
use crate::vec2::FxVec2;

verus! {

/// Marker for a drone entity.
#[derive(Clone, Copy, Debug, PartialEq, Eq, Structural)]
pub struct Enemy;

/// Fixed-point value of `cos(45°) == sin(45°)`, as the normalization of
/// `(1, 1)` produces it.
pub const DIAG_UNIT: i64 = 46341;

/// Relies on `rand::random_range` (uniform draw from `lo..hi` with the
/// thread-local generator): the result lies in the half-open range.
#[verifier::external_body]
pub(crate) fn random_in_range(lo: i64, hi: i64) -> (r: i64)
    requires
        lo < hi,
    ensures
        lo <= r < hi,
{
    rand::random_range(lo..hi)
}

/// Horizontal patrol parameters, drawn at spawn.
#[derive(Clone, Copy, Debug, PartialEq, Eq, Structural)]
pub struct EnemyMovement {
    pub period: i64,
    pub speed: i64,
}

impl EnemyMovement {
    /// A random patrol: period in [4, 8) seconds, speed in [80, 100)
    /// units per second.
    pub fn new_random() -> (r: EnemyMovement)
        ensures
            4 * SCALE <= r.period < 8 * SCALE,
            80 * SCALE <= r.speed < 100 * SCALE,
    {
        let period = random_in_range(4 * SCALE, 8 * SCALE);
        let speed = random_in_range(80 * SCALE, 100 * SCALE);
        EnemyMovement { period, speed }
    }
}

/// Vertical hover parameters and state of a flying drone.
#[derive(Clone, Copy, Debug, PartialEq, Eq, Structural)]
pub struct EnemyWobble {
    pub base_y: i64,
    pub spread: i64,
    pub timer: Timer,
    pub target_y: i64,
}

impl EnemyWobble {
    pub open spec fn wf(self) -> bool {
        &&& 0 <= self.base_y <= SIM_LIM
        &&& 0 <= self.spread <= SIM_LIM
        &&& self.timer.wf()
        &&& -FX_LIM <= self.target_y <= FX_LIM
    }

    /// A random hover: base height in [140, 180), spread in [15, 40),
    /// retarget period in [1.2, 2) seconds.
    pub fn new_random() -> (r: EnemyWobble)
        ensures
            r.wf(),
            140 * SCALE <= r.base_y < 180 * SCALE,
            15 * SCALE <= r.spread < 40 * SCALE,
            r.timer.mode == TimerMode::Repeating,
            78643 <= r.timer.duration < 2 * SCALE,
            r.target_y == r.base_y,
    {
        let base_y = random_in_range(140 * SCALE, 180 * SCALE);
        let spread = random_in_range(15 * SCALE, 40 * SCALE);
        let wobble_time = random_in_range(78643, 2 * SCALE);
        EnemyWobble {
            base_y,
            spread,
            timer: Timer::new(wobble_time, TimerMode::Repeating),
            target_y: base_y,
        }
    }
}

/// The vertical intent a hovering drone picks from its height error:
/// hold position inside a one-unit dead band, otherwise move toward the
/// target at full speed.
pub open spec fn wobble_intent(dy: int, speed: int) -> int {
    if abs_i(dy) < SCALE {
        0
    } else if dy >= 0 {
        speed
    } else {
        -speed
    }
}

/// One tick of a flying drone's hover: the retarget timer advances;
/// whenever it wraps, a fresh target height is drawn within the spread
/// band around the base height; the vertical intent then steers toward
/// the target.  The draw is the only nondeterminism: everything else is
/// exact, and whatever height is drawn lies within the band.
pub fn enemy_wobble_system(
    wobble: &mut EnemyWobble,
    vel: &mut Velocity,
    pos_y: i64,
    speed: i64,
    dt: i64,
)
    requires
        old(wobble).wf(),
        0 <= dt <= SCALE,
        -FX_LIM <= pos_y <= FX_LIM,
        0 <= speed <= SIM_LIM,
    ensures
        final(wobble).wf(),
        final(wobble).base_y == old(wobble).base_y,
        final(wobble).spread == old(wobble).spread,
        final(wobble).timer == old(wobble).timer.ticked(dt as int),
        !old(wobble).timer.ticked(dt as int).finished ==> final(wobble).target_y == old(
            wobble,
        ).target_y,
        old(wobble).timer.ticked(dt as int).finished ==> old(wobble).base_y - old(wobble).spread
            <= final(wobble).target_y <= old(wobble).base_y + old(wobble).spread,
        final(vel).target.y == wobble_intent(
            final(wobble).target_y - pos_y,
            speed as int,
        ),
        final(vel).target.x == old(vel).target.x,
        final(vel).current == old(vel).current,
{
    wobble.timer.tick(dt);
    if wobble.timer.finished {
        let draw = random_in_range(0, 2 * SCALE);
        let offset = mul_fx(draw - SCALE, wobble.spread);
        proof {
            lemma_fxmul_contraction(wobble.spread as int, (draw - SCALE) as int);
            assert(((draw - SCALE) as int) * (wobble.spread as int) == (wobble.spread as int) * ((
            draw - SCALE) as int)) by (nonlinear_arith);
        }
        wobble.target_y = wobble.base_y + offset;
    }
    let dy = wobble.target_y - pos_y;
    if crate::fx::abs_fx(dy) < SCALE {
        vel.target.y = 0;
    } else if dy >= 0 {
        vel.target.y = speed;
    } else {
        vel.target.y = -speed;
    }
}

/// Which side of the drone carries the weak spot.
#[derive(Clone, Copy, Debug, PartialEq, Eq, Structural, Default)]
pub enum WeakSpotLocation {
    North,
    #[default]
    South,
    West,
    East,
    _NorthEast,
    _SouthEast,
    _NorthWest,
    _SouthWest,
}

/// A planar rotation, standing for the spot's rotation quaternion about
/// the z axis: `cos` and `sin` of the angle in fixed point.
#[derive(Clone, Copy, Debug, PartialEq, Eq, Structural)]
pub struct Rot2 {
    pub cos: i64,
    pub sin: i64,
}

impl WeakSpotLocation {
    /// The outward unit direction of the spot.
    pub open spec fn dir_s(self) -> (int, int) {
        match self {
            WeakSpotLocation::North => (0, SCALE as int),
            WeakSpotLocation::South => (0, -SCALE as int),
            WeakSpotLocation::West => (-SCALE as int, 0),
            WeakSpotLocation::East => (SCALE as int, 0),
            WeakSpotLocation::_NorthEast => (DIAG_UNIT as int, DIAG_UNIT as int),
            WeakSpotLocation::_SouthEast => (DIAG_UNIT as int, -DIAG_UNIT as int),
            WeakSpotLocation::_NorthWest => (-DIAG_UNIT as int, DIAG_UNIT as int),
            WeakSpotLocation::_SouthWest => (-DIAG_UNIT as int, -DIAG_UNIT as int),
        }
    }

    /// The rotation that maps the spot's local frame into the world:
    /// identity for North, a quarter turn for each cardinal side, half
    /// quarters for the diagonals.
    pub open spec fn rotation_s(self) -> Rot2 {
        match self {
            WeakSpotLocation::North => Rot2 { cos: SCALE, sin: 0 },
            WeakSpotLocation::East => Rot2 { cos: 0, sin: (-SCALE) as i64 },
            WeakSpotLocation::South => Rot2 { cos: (-SCALE) as i64, sin: 0 },
            WeakSpotLocation::West => Rot2 { cos: 0, sin: SCALE },
            WeakSpotLocation::_NorthEast => Rot2 { cos: (-DIAG_UNIT) as i64, sin: (-DIAG_UNIT) as i64 },
            WeakSpotLocation::_SouthEast => Rot2 { cos: DIAG_UNIT, sin: (-DIAG_UNIT) as i64 },
            WeakSpotLocation::_NorthWest => Rot2 { cos: (-DIAG_UNIT) as i64, sin: DIAG_UNIT },
            WeakSpotLocation::_SouthWest => Rot2 { cos: DIAG_UNIT, sin: DIAG_UNIT },
        }
    }

    /// The spot's extents for a given side length: as wide as the side,
    /// half as tall.
    pub open spec fn size_s(self, side: int) -> (int, int) {
        (side, side / 2)
    }

    /// Sprite-sheet cell showing each location.
    pub open spec fn atlas_index_s(self) -> int {
        match self {
            WeakSpotLocation::North => 2,
            WeakSpotLocation::South => 4,
            WeakSpotLocation::West => 1,
            WeakSpotLocation::East => 3,
            WeakSpotLocation::_NorthEast => 4,
            WeakSpotLocation::_SouthEast => 4,
            WeakSpotLocation::_NorthWest => 4,
            WeakSpotLocation::_SouthWest => 4,
        }
    }

    /// A random orthogonal location.
    pub fn new_ortho() -> (r: WeakSpotLocation)
        ensures
            r == WeakSpotLocation::North || r == WeakSpotLocation::South || r
                == WeakSpotLocation::West || r == WeakSpotLocation::East,
    {
        let dir = random_in_range(0, 4);
        if dir == 0 {
            WeakSpotLocation::North
        } else if dir == 1 {
            WeakSpotLocation::South
        } else if dir == 2 {
            WeakSpotLocation::West
        } else {
            WeakSpotLocation::East
        }
    }

    /// The outward unit direction; exact per `dir_s`.
    pub fn to_dir(&self) -> (r: FxVec2)
        ensures
            (r.x as int, r.y as int) == self.dir_s(),
            -SCALE <= r.x <= SCALE,
            -SCALE <= r.y <= SCALE,
    {
        match self {
            WeakSpotLocation::North => FxVec2 { x: 0, y: SCALE },
            WeakSpotLocation::South => FxVec2 { x: 0, y: -SCALE },
            WeakSpotLocation::West => FxVec2 { x: -SCALE, y: 0 },
            WeakSpotLocation::East => FxVec2 { x: SCALE, y: 0 },
            WeakSpotLocation::_NorthEast => FxVec2 { x: DIAG_UNIT, y: DIAG_UNIT },
            WeakSpotLocation::_SouthEast => FxVec2 { x: DIAG_UNIT, y: -DIAG_UNIT },
            WeakSpotLocation::_NorthWest => FxVec2 { x: -DIAG_UNIT, y: DIAG_UNIT },
            WeakSpotLocation::_SouthWest => FxVec2 { x: -DIAG_UNIT, y: -DIAG_UNIT },
        }
    }

    /// The spot's world rotation; exact per `rotation_s`.
    pub fn to_rotation(&self) -> (r: Rot2)
        ensures
            r == self.rotation_s(),
            -SCALE <= r.cos <= SCALE,
            -SCALE <= r.sin <= SCALE,
    {
        match self {
            WeakSpotLocation::North => Rot2 { cos: SCALE, sin: 0 },
            WeakSpotLocation::East => Rot2 { cos: 0, sin: -SCALE },
            WeakSpotLocation::South => Rot2 { cos: -SCALE, sin: 0 },
            WeakSpotLocation::West => Rot2 { cos: 0, sin: SCALE },
            WeakSpotLocation::_NorthEast => Rot2 { cos: -DIAG_UNIT, sin: -DIAG_UNIT },
            WeakSpotLocation::_SouthEast => Rot2 { cos: DIAG_UNIT, sin: -DIAG_UNIT },
            WeakSpotLocation::_NorthWest => Rot2 { cos: -DIAG_UNIT, sin: DIAG_UNIT },
            WeakSpotLocation::_SouthWest => Rot2 { cos: DIAG_UNIT, sin: DIAG_UNIT },
        }
    }

    /// The spot's extents; exact per `size_s`.
    pub fn to_size(&self, side: i64) -> (r: FxVec2)
        requires
            0 <= side <= SIM_LIM,
        ensures
            (r.x as int, r.y as int) == self.size_s(side as int),
            0 <= r.y <= r.x <= SIM_LIM,
    {
        let half = ((side as u64) / 2) as i64;
        FxVec2 { x: side, y: half }
    }

    /// Sprite-sheet cell of each location; exact per `atlas_index_s`.
    pub fn to_atlas_index(&self) -> (r: usize)
        ensures
            r as int == self.atlas_index_s(),
            r <= 4,
    {
        match self {
            WeakSpotLocation::North => 2,
            WeakSpotLocation::South => 4,
            WeakSpotLocation::West => 1,
            WeakSpotLocation::East => 3,
            WeakSpotLocation::_NorthEast => 4,
            WeakSpotLocation::_SouthEast => 4,
            WeakSpotLocation::_NorthWest => 4,
            WeakSpotLocation::_SouthWest => 4,
        }
    }
}

/// A drone's weak spot: location plus the geometry derived from it at
/// spawn.
#[derive(Clone, Copy, Debug, PartialEq, Eq, Structural)]
pub struct WeakSpot {
    pub location: WeakSpotLocation,
    pub size: FxVec2,
    pub rotation: Rot2,
}

impl WeakSpot {
    /// The derived fields agree with the location they came from.
    pub open spec fn wf(self) -> bool {
        &&& (self.size.x as int, self.size.y as int) == self.location.size_s(self.size.x as int)
        &&& self.rotation == self.location.rotation_s()
        &&& 0 <= self.size.y <= self.size.x <= SIM_LIM
    }

    pub fn new(location: WeakSpotLocation, side: i64) -> (r: WeakSpot)
        requires
            0 <= side <= SIM_LIM,
        ensures
            r.location == location,
            (r.size.x as int, r.size.y as int) == location.size_s(side as int),
            r.rotation == location.rotation_s(),
            r.wf(),
    {
        let size = location.to_size(side);
        let rotation = location.to_rotation();
        WeakSpot { location, size, rotation }
    }

    /// A spot on a random orthogonal side.
    pub fn new_ortho(side: i64) -> (r: WeakSpot)
        requires
            0 <= side <= SIM_LIM,
        ensures
            (r.size.x as int, r.size.y as int) == r.location.size_s(side as int),
            r.rotation == r.location.rotation_s(),
            r.wf(),
            r.location == WeakSpotLocation::North || r.location == WeakSpotLocation::South
                || r.location == WeakSpotLocation::West || r.location == WeakSpotLocation::East,
    {
        let location = WeakSpotLocation::new_ortho();
        let size = location.to_size(side);
        let rotation = location.to_rotation();
        WeakSpot { location, size, rotation }
    }
}

/// The inverse rotation applied to a world offset: coordinates of the
/// offset in the rotation's local frame.
pub open spec fn unrotate_s(rx: int, ry: int, rot: Rot2) -> (int, int) {
    (
        fxmul(rx, rot.cos as int) + fxmul(ry, rot.sin as int),
        fxmul(ry, rot.cos as int) - fxmul(rx, rot.sin as int),
    )
}

/// The weak-point hit test: the spot's world center sits one drone
/// radius outward from the drone's center; the flier's offset from it is
/// carried into the spot's local frame, clamped to the rectangle's half
/// extents, and the clamped point must lie within the flier's radius.
pub open spec fn weak_point_hit_s(
    ppos: FxVec2,
    pradius: int,
    epos: FxVec2,
    eradius: int,
    spot: WeakSpot,
) -> bool {
    let d = spot.location.dir_s();
    let cx = epos.x + fxmul(d.0, eradius);
    let cy = epos.y + fxmul(d.1, eradius);
    let u = unrotate_s(ppos.x - cx, ppos.y - cy, spot.rotation);
    let hx = (spot.size.x as int) / 2;
    let hy = (spot.size.y as int) / 2;
    let dx = clamp_i(u.0, -hx, hx) - u.0;
    let dy = clamp_i(u.1, -hy, hy) - u.1;
    dx * dx + dy * dy <= pradius * pradius
}

/// Run the weak-point hit test; exact per `weak_point_hit_s`.
#[verifier::rlimit(100)]
pub fn weak_point_hit(
    ppos: FxVec2,
    pradius: i64,
    epos: FxVec2,
    eradius: i64,
    spot: &WeakSpot,
) -> (hit: bool)
    requires
        vec_bounded(ppos, FX_LIM as int),
        vec_bounded(epos, FX_LIM as int),
        0 <= pradius <= SIM_LIM,
        0 <= eradius <= SIM_LIM,
        spot.wf(),
    ensures
        hit == weak_point_hit_s(ppos, pradius as int, epos, eradius as int, *spot),
{
    proof {
        assert(-SCALE <= spot.rotation.cos <= SCALE && -SCALE <= spot.rotation.sin <= SCALE);
    }
    let d = spot.location.to_dir();
    let offx = mul_fx(d.x, eradius);
    let offy = mul_fx(d.y, eradius);
    proof {
        lemma_fxmul_contraction(eradius as int, d.x as int);
        lemma_fxmul_contraction(eradius as int, d.y as int);
        assert((d.x as int) * (eradius as int) == (eradius as int) * (d.x as int))
            by (nonlinear_arith);
        assert((d.y as int) * (eradius as int) == (eradius as int) * (d.y as int))
            by (nonlinear_arith);
    }
    let cx = epos.x + offx;
    let cy = epos.y + offy;
    let relx = ppos.x - cx;
    let rely = ppos.y - cy;
    let uxa = mul_fx(relx, spot.rotation.cos);
    let uxb = mul_fx(rely, spot.rotation.sin);
    let uya = mul_fx(rely, spot.rotation.cos);
    let uyb = mul_fx(relx, spot.rotation.sin);
    proof {
        lemma_fxmul_contraction(relx as int, spot.rotation.cos as int);
        lemma_fxmul_contraction(rely as int, spot.rotation.sin as int);
        lemma_fxmul_contraction(rely as int, spot.rotation.cos as int);
        lemma_fxmul_contraction(relx as int, spot.rotation.sin as int);
    }
    let ux = uxa + uxb;
    let uy = uya - uyb;
    let hx = ((spot.size.x as u64) / 2) as i64;
    let hy = ((spot.size.y as u64) / 2) as i64;
    let dx = clamp_fx(ux, -hx, hx) - ux;
    let dy = clamp_fx(uy, -hy, hy) - uy;
    proof {
        assert(0 <= (dx as int) * (dx as int) <= 0x100000000000000000000) by (nonlinear_arith)
            requires
                -0x4000000000 <= dx <= 0x4000000000,
        ;
        assert(0 <= (dy as int) * (dy as int) <= 0x100000000000000000000) by (nonlinear_arith)
            requires
                -0x4000000000 <= dy <= 0x4000000000,
        ;
        assert(0 <= (pradius as int) * (pradius as int) <= 0x100000000000000000000)
            by (nonlinear_arith)
            requires
                0 <= pradius <= 0x4000000000,
        ;
    }
    let dist_sq: i128 = (dx as i128) * (dx as i128) + (dy as i128) * (dy as i128);
    let thresh: i128 = (pradius as i128) * (pradius as i128);
    dist_sq <= thresh
}

} // verus!
