//! The locomotion integrator and the timed status components.
//!
//! Each tick applies, in order: gravity on the intended velocity,
//! friction, smoothing of the moved velocity toward the intended one,
//! position integration, and the floor snap that owns the
//! grounded/airborne transition.  Every stage is a pure function of the
//! entity's state, the tuning snapshot and the tick length; the exec
//! systems are proved to compute those functions exactly.

use vstd::prelude::*;
use crate::config::GameConfig;
use crate::fx::{
    abs_i, clamp_fx, clamp_i, fxlerp, fxmul, lemma_fxlerp_between, lemma_fxmul_fraction, lerp_fx,
    max_fx, max_i, min_fx, min_i, mul_fx, FX_LIM, SCALE, SIM_LIM,
};
use crate::timer::{Timer, TimerMode};
use crate::vec2::FxVec2;

verus! {

/// Collision radius of a circular body, fixed-point units.
#[derive(Clone, Copy, Debug, PartialEq, Eq, Structural)]
pub struct Radius(pub i64);

/// Dual velocity: `target` is the intended velocity the rules write;
/// `current` is the smoothed value that actually moves the entity.
#[derive(Clone, Copy, Debug, PartialEq, Eq, Structural)]
pub struct Velocity {
    pub current: FxVec2,
    pub target: FxVec2,
}

impl Velocity {
    pub fn zero() -> (r: Velocity)
        ensures
            r.current.x == 0 && r.current.y == 0 && r.target.x == 0 && r.target.y == 0,
    {
        Velocity { current: FxVec2 { x: 0, y: 0 }, target: FxVec2 { x: 0, y: 0 } }
    }
}

/// Mutually exclusive locomotion tag, owned by the grounding check.
#[derive(Clone, Copy, Debug, PartialEq, Eq, Structural)]
pub enum GroundState {
    Grounded,
    Airborne,
}

/// Hysteresis band above the floor line: inside it the ground tag keeps
/// its previous value, preventing flicker exactly at the floor.
pub const GROUND_EPS: i64 = 655;

pub open spec fn vec_bounded(v: FxVec2, b: int) -> bool {
    &&& -b <= v.x <= b
    &&& -b <= v.y <= b
}

pub open spec fn vel_bounded(v: Velocity, b: int) -> bool {
    vec_bounded(v.current, b) && vec_bounded(v.target, b)
}

/// Gravity stage: pulls the intended vertical velocity down by
/// `gravity * multiplier * dt`, where the multiplier is reduced while a
/// dash is being charged.  Horizontal components are untouched.
pub open spec fn gravity_tick(v: Velocity, charging: bool, cfg: GameConfig, dt: int) -> Velocity {
    let m: int = if charging {
        cfg.charging_gravity_multiplier as int
    } else {
        SCALE as int
    };
    Velocity {
        current: v.current,
        target: FxVec2 {
            x: v.target.x,
            y: (v.target.y + fxmul(fxmul(cfg.gravity as int, m), dt)) as i64,
        },
    }
}

/// Gravity on one airborne, non-dashing entity; exact per `gravity_tick`.
pub fn gravity_system(vel: &mut Velocity, charging: bool, cfg: &GameConfig, dt: i64)
    requires
        cfg.wf(),
        0 <= dt <= SCALE,
        vel_bounded(*old(vel), FX_LIM as int),
    ensures
        *final(vel) == gravity_tick(*old(vel), charging, *cfg, dt as int),
        abs_i(final(vel).target.y as int) <= abs_i(old(vel).target.y as int) + abs_i(
            cfg.gravity as int,
        ),
        final(vel).current == old(vel).current,
        final(vel).target.x == old(vel).target.x,
{
    let m: i64 = if charging {
        cfg.charging_gravity_multiplier
    } else {
        SCALE
    };
    let pull = mul_fx(cfg.gravity, m);
    proof {
        lemma_fxmul_fraction(cfg.gravity as int, m as int);
    }
    let step = mul_fx(pull, dt);
    proof {
        lemma_fxmul_fraction(pull as int, dt as int);
    }
    vel.target.y = vel.target.y + step;
}

/// The fraction of the intended velocity that friction leaves standing:
/// `1 - friction * dt`, floored at zero.
pub open spec fn friction_factor(friction: int, dt: int) -> int {
    max_i(SCALE - fxmul(friction, dt), 0)
}

/// Friction stage: scales both components of the intended velocity by
/// the friction factor of the current ground state.
pub open spec fn friction_tick(v: Velocity, grounded: bool, cfg: GameConfig, dt: int) -> Velocity {
    let f: int = if grounded {
        cfg.ground_friction as int
    } else {
        cfg.air_friction as int
    };
    let k = friction_factor(f, dt);
    Velocity {
        current: v.current,
        target: FxVec2 { x: fxmul(v.target.x as int, k) as i64, y: fxmul(v.target.y as int, k) as i64 },
    }
}

/// Friction on one entity; exact per `friction_tick`, and never increases
/// the magnitude of either intended component.
pub fn friction_system(vel: &mut Velocity, grounded: bool, cfg: &GameConfig, dt: i64)
    requires
        cfg.wf(),
        0 <= dt <= SCALE,
        vel_bounded(*old(vel), FX_LIM as int),
    ensures
        *final(vel) == friction_tick(*old(vel), grounded, *cfg, dt as int),
        abs_i(final(vel).target.x as int) <= abs_i(old(vel).target.x as int),
        abs_i(final(vel).target.y as int) <= abs_i(old(vel).target.y as int),
        final(vel).current == old(vel).current,
{
    let f: i64 = if grounded {
        cfg.ground_friction
    } else {
        cfg.air_friction
    };
    let slow = mul_fx(f, dt);
    proof {
        lemma_fxmul_fraction(f as int, dt as int);
    }
    let k = max_fx(SCALE - slow, 0);
    let tx = mul_fx(vel.target.x, k);
    let ty = mul_fx(vel.target.y, k);
    proof {
        lemma_fxmul_fraction(vel.target.x as int, k as int);
        lemma_fxmul_fraction(vel.target.y as int, k as int);
    }
    vel.target.x = tx;
    vel.target.y = ty;
}

/// The smoothing fraction of one tick: `movement_smoothing * dt`, capped
/// at one.
pub open spec fn smoothing_fraction(cfg: GameConfig, dt: int) -> int {
    min_i(fxmul(cfg.movement_smoothing as int, dt), SCALE as int)
}

/// Velocity stage: lerps the moved velocity toward the intended one by
/// the smoothing fraction, then advances the position by the moved
/// velocity over the tick.
pub open spec fn apply_velocity_tick(p: FxVec2, v: Velocity, cfg: GameConfig, dt: int) -> (
    FxVec2,
    Velocity,
) {
    let t = smoothing_fraction(cfg, dt);
    let cur = FxVec2 {
        x: fxlerp(v.current.x as int, v.target.x as int, t) as i64,
        y: fxlerp(v.current.y as int, v.target.y as int, t) as i64,
    };
    let pos = FxVec2 {
        x: (p.x + fxmul(cur.x as int, dt)) as i64,
        y: (p.y + fxmul(cur.y as int, dt)) as i64,
    };
    (pos, Velocity { current: cur, target: v.target })
}

/// Smoothing and integration on one entity; exact per
/// `apply_velocity_tick`.  The new moved velocity lies between the old
/// moved and intended values on each axis, and the position moves by at
/// most the new moved velocity's magnitude.
pub fn apply_velocity_system(pos: &mut FxVec2, vel: &mut Velocity, cfg: &GameConfig, dt: i64)
    requires
        cfg.wf(),
        0 <= dt <= SCALE,
        vel_bounded(*old(vel), FX_LIM as int),
        vec_bounded(*old(pos), FX_LIM as int),
    ensures
        (*final(pos), *final(vel)) == apply_velocity_tick(*old(pos), *old(vel), *cfg, dt as int),
        abs_i(final(vel).current.x as int) <= max_i(
            abs_i(old(vel).current.x as int),
            abs_i(old(vel).target.x as int),
        ),
        abs_i(final(vel).current.y as int) <= max_i(
            abs_i(old(vel).current.y as int),
            abs_i(old(vel).target.y as int),
        ),
        abs_i(final(pos).x as int) <= abs_i(old(pos).x as int) + abs_i(final(vel).current.x as int),
        abs_i(final(pos).y as int) <= abs_i(old(pos).y as int) + abs_i(final(vel).current.y as int),
        final(vel).target == old(vel).target,
{
    let smooth = mul_fx(cfg.movement_smoothing, dt);
    proof {
        lemma_fxmul_fraction(cfg.movement_smoothing as int, dt as int);
    }
    let t = min_fx(smooth, SCALE);
    let cx = lerp_fx(vel.current.x, vel.target.x, t);
    let cy = lerp_fx(vel.current.y, vel.target.y, t);
    proof {
        lemma_fxlerp_between(vel.current.x as int, vel.target.x as int, t as int);
        lemma_fxlerp_between(vel.current.y as int, vel.target.y as int, t as int);
    }
    vel.current.x = cx;
    vel.current.y = cy;
    let sx = mul_fx(cx, dt);
    let sy = mul_fx(cy, dt);
    proof {
        lemma_fxmul_fraction(cx as int, dt as int);
        lemma_fxmul_fraction(cy as int, dt as int);
    }
    pos.x = pos.x + sx;
    pos.y = pos.y + sy;
}

/// Grounding stage: at or below the floor while not rising, the entity is
/// snapped onto the floor line, its vertical velocities are zeroed, and
/// it becomes grounded; above the hysteresis band it becomes airborne;
/// inside the band the previous tag stays.
pub open spec fn grounding_tick(p: FxVec2, v: Velocity, gs: GroundState, cfg: GameConfig) -> (
    FxVec2,
    Velocity,
    GroundState,
) {
    if p.y <= cfg.floor_y && v.current.y <= 0 {
        (
            FxVec2 { x: p.x, y: cfg.floor_y },
            Velocity {
                current: FxVec2 { x: v.current.x, y: 0 },
                target: FxVec2 { x: v.target.x, y: 0 },
            },
            GroundState::Grounded,
        )
    } else if p.y > cfg.floor_y + GROUND_EPS {
        (p, v, GroundState::Airborne)
    } else {
        (p, v, gs)
    }
}

/// The landing report of the grounding stage: the impact speed, present
/// exactly when a previously airborne entity snaps onto the floor.
pub open spec fn landing_report(p: FxVec2, v: Velocity, gs: GroundState, cfg: GameConfig) -> Option<
    i64,
> {
    if p.y <= cfg.floor_y && v.current.y <= 0 && gs == GroundState::Airborne {
        Some((-v.current.y) as i64)
    } else {
        None
    }
}

/// Floor snap and ground classification on one entity; exact per
/// `grounding_tick`, reporting a landing per `landing_report`.
pub fn apply_grounding_system(
    pos: &mut FxVec2,
    vel: &mut Velocity,
    ground: &mut GroundState,
    cfg: &GameConfig,
) -> (landed: Option<i64>)
    requires
        cfg.wf(),
        vel_bounded(*old(vel), FX_LIM as int),
        vec_bounded(*old(pos), FX_LIM as int),
    ensures
        (*final(pos), *final(vel), *final(ground)) == grounding_tick(
            *old(pos),
            *old(vel),
            *old(ground),
            *cfg,
        ),
        landed == landing_report(*old(pos), *old(vel), *old(ground), *cfg),
        vec_bounded(*final(pos), FX_LIM as int),
        vel_bounded(*final(vel), FX_LIM as int),
{
    let below_or_on_floor = pos.y <= cfg.floor_y;
    let above_threshold = pos.y > cfg.floor_y + GROUND_EPS;
    let falling = vel.current.y <= 0;
    if below_or_on_floor && falling {
        let was_airborne = matches!(*ground, GroundState::Airborne);
        let impact = -vel.current.y;
        pos.y = cfg.floor_y;
        vel.current.y = 0;
        vel.target.y = 0;
        *ground = GroundState::Grounded;
        if was_airborne {
            Some(impact)
        } else {
            None
        }
    } else if above_threshold {
        *ground = GroundState::Airborne;
        None
    } else {
        None
    }
}

/// Bounds stage: beyond a horizontal limit while still moving outward,
/// the entity is put back on the limit and its horizontal velocities are
/// zeroed; above the ceiling, a spring proportional to the overshoot,
/// capped at the maximum pull, becomes the intended vertical velocity.
pub open spec fn bounds_tick(p: FxVec2, v: Velocity, cfg: GameConfig) -> (FxVec2, Velocity) {
    let (px, cx, tx): (int, int, int) = if p.x > cfg.x_limit && v.target.x > 0 {
        (cfg.x_limit as int, 0, 0)
    } else if p.x < -cfg.x_limit && v.target.x < 0 {
        (-cfg.x_limit as int, 0, 0)
    } else {
        (p.x as int, v.current.x as int, v.target.x as int)
    };
    let overstep = p.y - cfg.ceiling_y;
    let ty: int = if overstep > 0 {
        clamp_i(fxmul(-overstep, cfg.spring_force as int), cfg.max_pull as int, 0)
    } else {
        v.target.y as int
    };
    (
        FxVec2 { x: px as i64, y: p.y },
        Velocity {
            current: FxVec2 { x: cx as i64, y: v.current.y },
            target: FxVec2 { x: tx as i64, y: ty as i64 },
        },
    )
}

/// Level bounds on the flier; exact per `bounds_tick`.
pub fn player_bounds_system(pos: &mut FxVec2, vel: &mut Velocity, cfg: &GameConfig)
    requires
        cfg.wf(),
        vel_bounded(*old(vel), FX_LIM as int),
        vec_bounded(*old(pos), FX_LIM as int),
    ensures
        (*final(pos), *final(vel)) == bounds_tick(*old(pos), *old(vel), *cfg),
        vec_bounded(*final(pos), FX_LIM as int),
        abs_i(final(vel).target.y as int) <= max_i(
            abs_i(old(vel).target.y as int),
            abs_i(cfg.max_pull as int),
        ),
        abs_i(final(vel).target.x as int) <= abs_i(old(vel).target.x as int),
        abs_i(final(vel).current.x as int) <= abs_i(old(vel).current.x as int),
        final(vel).current.y == old(vel).current.y,
{
    if pos.x > cfg.x_limit && vel.target.x > 0 {
        vel.target.x = 0;
        vel.current.x = 0;
        pos.x = cfg.x_limit;
    } else if pos.x < -cfg.x_limit && vel.target.x < 0 {
        vel.target.x = 0;
        vel.current.x = 0;
        pos.x = -cfg.x_limit;
    }
    let overstep = pos.y - cfg.ceiling_y;
    if overstep > 0 {
        let pull = mul_fx(-overstep, cfg.spring_force);
        proof {
            lemma_fxmul_fraction(cfg.spring_force as int, SCALE as int);
        }
        vel.target.y = clamp_fx(pull, cfg.max_pull, 0);
    }
}

/// Two circles touch or overlap: the squared distance between their
/// centers is at most the square of the sum of their radii.
pub open spec fn circles_overlap_s(a: FxVec2, ar: int, b: FxVec2, br: int) -> bool {
    let dx = a.x - b.x;
    let dy = a.y - b.y;
    dx * dx + dy * dy <= (ar + br) * (ar + br)
}

/// Run the circle-circle test; exact per `circles_overlap_s`.
pub fn circles_overlap(a: FxVec2, ar: i64, b: FxVec2, br: i64) -> (hit: bool)
    requires
        vec_bounded(a, FX_LIM as int),
        vec_bounded(b, FX_LIM as int),
        0 <= ar <= SIM_LIM,
        0 <= br <= SIM_LIM,
    ensures
        hit == circles_overlap_s(a, ar as int, b, br as int),
{
    let dx = a.x - b.x;
    let dy = a.y - b.y;
    let rsum = ar + br;
    proof {
        assert(0 <= (dx as int) * (dx as int) <= 0x100000000000000000) by (nonlinear_arith)
            requires
                -0x400000000 <= dx <= 0x400000000,
        ;
        assert(0 <= (dy as int) * (dy as int) <= 0x100000000000000000) by (nonlinear_arith)
            requires
                -0x400000000 <= dy <= 0x400000000,
        ;
        assert(0 <= (rsum as int) * (rsum as int) <= 0x100000000000000000) by (nonlinear_arith)
            requires
                0 <= rsum <= 0x400000000,
        ;
    }
    let dist_sq: i128 = (dx as i128) * (dx as i128) + (dy as i128) * (dy as i128);
    let thresh: i128 = (rsum as i128) * (rsum as i128);
    dist_sq <= thresh
}

/// The knockback of a hit: both velocity vectors are reflected along the
/// dominant axis of the separation between the two bodies.
pub open spec fn reflect_tick(v: Velocity, ppos: FxVec2, epos: FxVec2) -> Velocity {
    let dx = abs_i(epos.x - ppos.x);
    let dy = abs_i(epos.y - ppos.y);
    if dx > dy {
        Velocity {
            current: FxVec2 { x: (-v.current.x) as i64, y: v.current.y },
            target: FxVec2 { x: (-v.target.x) as i64, y: v.target.y },
        }
    } else {
        Velocity {
            current: FxVec2 { x: v.current.x, y: (-v.current.y) as i64 },
            target: FxVec2 { x: v.target.x, y: (-v.target.y) as i64 },
        }
    }
}

/// Apply the knockback reflection; exact per `reflect_tick`.
pub fn apply_reflect(vel: &mut Velocity, ppos: FxVec2, epos: FxVec2)
    requires
        vel_bounded(*old(vel), FX_LIM as int),
        vec_bounded(ppos, FX_LIM as int),
        vec_bounded(epos, FX_LIM as int),
    ensures
        *final(vel) == reflect_tick(*old(vel), ppos, epos),
        vel_bounded(*final(vel), FX_LIM as int),
{
    let dx = crate::fx::abs_fx(epos.x - ppos.x);
    let dy = crate::fx::abs_fx(epos.y - ppos.y);
    if dx > dy {
        vel.target.x = -vel.target.x;
        vel.current.x = -vel.current.x;
    } else {
        vel.target.y = -vel.target.y;
        vel.current.y = -vel.current.y;
    }
}

/// Invulnerability after a body hit: while the timer runs, the entity is
/// excluded from body-collision checks.
#[derive(Clone, Copy, Debug, PartialEq, Eq, Structural)]
pub struct CollisionImmunity {
    pub timer: Timer,
}

impl CollisionImmunity {
    pub fn new(duration_secs: i64) -> (r: CollisionImmunity)
        requires
            0 <= duration_secs <= FX_LIM,
        ensures
            r.timer == (Timer {
                mode: TimerMode::Once,
                duration: duration_secs,
                elapsed: 0,
                finished: false,
            }),
            r.timer.wf(),
    {
        CollisionImmunity { timer: Timer::new(duration_secs, TimerMode::Once) }
    }
}

/// The repeating timer that drives the visibility flicker paired with an
/// immunity window.
#[derive(Clone, Copy, Debug, PartialEq, Eq, Structural)]
pub struct Blink {
    pub timer: Timer,
}

impl Blink {
    /// A repeating blink period given in milliseconds.
    pub fn new(duration_millis: u64) -> (r: Blink)
        requires
            1 <= duration_millis <= 1000000,
        ensures
            r.timer == (Timer {
                mode: TimerMode::Repeating,
                duration: ((duration_millis * SCALE) / 1000) as i64,
                elapsed: 0,
                finished: false,
            }),
            r.timer.wf(),
    {
        let raw = (duration_millis * (SCALE as u64)) / 1000;
        proof {
            assert(duration_millis * (SCALE as u64) >= 65536) by (nonlinear_arith)
                requires
                    duration_millis >= 1,
                    SCALE == 65536,
            ;
            assert(duration_millis * (SCALE as u64) <= 65536000000) by (nonlinear_arith)
                requires
                    duration_millis <= 1000000,
                    SCALE == 65536,
            ;
        }
        Blink { timer: Timer::new(raw as i64, TimerMode::Repeating) }
    }
}

/// One tick of the immunity window: the timer advances and, the moment it
/// reports finished, both status components disappear and the sprite's
/// opacity is restored to one — regardless of how many ticks elapsed.
pub open spec fn immunity_tick(
    immunity: Option<CollisionImmunity>,
    blink: Option<Blink>,
    alpha: int,
    dt: int,
) -> (Option<CollisionImmunity>, Option<Blink>, int) {
    match immunity {
        Option::None => (immunity, blink, alpha),
        Option::Some(ci) => {
            let t = ci.timer.ticked(dt);
            if t.finished {
                (Option::None, Option::None, SCALE as int)
            } else {
                (Option::Some(CollisionImmunity { timer: t }), blink, alpha)
            }
        },
    }
}

/// Immunity bookkeeping on one entity; exact per `immunity_tick`.
pub fn collision_immunity_system(
    immunity: &mut Option<CollisionImmunity>,
    blink: &mut Option<Blink>,
    alpha: &mut i64,
    dt: i64,
)
    requires
        0 <= dt <= FX_LIM,
        ((*old(immunity)) matches Some(ci) ==> ci.timer.wf()),
    ensures
        (*final(immunity), *final(blink), (*final(alpha)) as int) == immunity_tick(
            *old(immunity),
            *old(blink),
            (*old(alpha)) as int,
            dt as int,
        ),
        ((*final(immunity)) matches Some(ci) ==> ci.timer.wf()),
{
    let mut done = false;
    match immunity {
        Some(ci) => {
            ci.timer.tick(dt);
            done = ci.timer.finished;
        },
        None => {},
    }
    if done {
        *immunity = None;
        *blink = None;
        *alpha = SCALE;
    }
}

/// The immunity window after `n` ticks of `dt` each.
pub open spec fn immunity_tick_n(
    immunity: Option<CollisionImmunity>,
    blink: Option<Blink>,
    alpha: int,
    dt: int,
    n: nat,
) -> (Option<CollisionImmunity>, Option<Blink>, int)
    decreases n,
{
    if n == 0 {
        (immunity, blink, alpha)
    } else {
        let prev = immunity_tick_n(immunity, blink, alpha, dt, (n - 1) as nat);
        immunity_tick(prev.0, prev.1, prev.2, dt)
    }
}

/// While the window's deadline is not yet reached, ticking only
/// accumulates elapsed time and touches nothing else.
proof fn lemma_immunity_accum(ci: CollisionImmunity, blink: Option<Blink>, alpha: int, dt: int, n: nat)
    requires
        ci.timer.wf(),
        ci.timer.mode == TimerMode::Once,
        !ci.timer.finished,
        0 <= dt,
        ci.timer.elapsed + n * dt < ci.timer.duration,
    ensures
        immunity_tick_n(Some(ci), blink, alpha, dt, n) == (
            Some(
                CollisionImmunity {
                    timer: Timer {
                        elapsed: (ci.timer.elapsed + n * dt) as i64,
                        finished: false,
                        ..ci.timer
                    },
                },
            ),
            blink,
            alpha,
        ),
    decreases n,
{
    if n == 0 {
        assert(n * dt == 0) by (nonlinear_arith)
            requires
                n == 0,
        ;
        assert(Timer { elapsed: ci.timer.elapsed, finished: false, ..ci.timer } == ci.timer);
    } else {
        assert((n - 1) * dt + dt == n * dt) by (nonlinear_arith);
        assert((n - 1) * dt <= n * dt) by (nonlinear_arith)
            requires
                dt >= 0,
                n >= 1,
        ;
        lemma_immunity_accum(ci, blink, alpha, dt, (n - 1) as nat);
    }
}

/// The round trip of an immunity window: attach it, tick it out.  After
/// any number of ticks whose total elapsed time reaches the duration,
/// no immunity and no blink component is left and the opacity stands
/// restored at one — however many ticks that took.
pub proof fn lemma_immunity_round_trip(
    ci: CollisionImmunity,
    blink: Option<Blink>,
    alpha: int,
    dt: int,
    n: nat,
)
    requires
        ci.timer.wf(),
        ci.timer.mode == TimerMode::Once,
        !ci.timer.finished,
        0 <= dt,
        n >= 1,
        ci.timer.elapsed + n * dt >= ci.timer.duration,
    ensures
        immunity_tick_n(Some(ci), blink, alpha, dt, n) == (
            Option::None::<CollisionImmunity>,
            Option::None::<Blink>,
            SCALE as int,
        ),
    decreases n,
{
    if n == 1 {
        assert(1 * dt == dt) by (nonlinear_arith);
        assert(immunity_tick_n(Some(ci), blink, alpha, dt, 0) == (Some(ci), blink, alpha));
    } else {
        if ci.timer.elapsed + (n - 1) * dt >= ci.timer.duration {
            lemma_immunity_round_trip(ci, blink, alpha, dt, (n - 1) as nat);
        } else {
            lemma_immunity_accum(ci, blink, alpha, dt, (n - 1) as nat);
            assert((n - 1) * dt + dt == n * dt) by (nonlinear_arith);
        }
    }
}

/// One tick of the blink flicker: the repeating timer advances; the
/// sprite is visible exactly on the ticks in which the timer wrapped.
pub open spec fn blink_tick(blink: Option<Blink>, alpha: int, dt: int) -> (Option<Blink>, int) {
    match blink {
        Option::None => (blink, alpha),
        Option::Some(b) => {
            let t = b.timer.ticked(dt);
            let a: int = if t.finished {
                SCALE as int
            } else {
                0
            };
            (Option::Some(Blink { timer: t }), a)
        },
    }
}

/// Flicker bookkeeping on one entity; exact per `blink_tick`.
pub fn blink_system(blink: &mut Option<Blink>, alpha: &mut i64, dt: i64)
    requires
        0 <= dt <= FX_LIM,
        ((*old(blink)) matches Some(b) ==> b.timer.wf()),
    ensures
        (*final(blink), (*final(alpha)) as int) == blink_tick(*old(blink), (*old(alpha)) as int, dt as int),
        ((*final(blink)) matches Some(b) ==> b.timer.wf()),
{
    match blink {
        Some(b) => {
            b.timer.tick(dt);
            if b.timer.finished {
                *alpha = SCALE;
            } else {
                *alpha = 0;
            }
        },
        None => {},
    }
}

} // verus!
