//! The flier and its ability state machine.
//!
//! Idle, then charging a dash while the intent is held, then a short
//! dash, then a lingering dash effect that grants immunity and lets the
//! flier destroy drones on weak-point contact.  A full-power downward
//! dash that lands converts the effect into an area nuke instead.

use vstd::prelude::*;
use crate::config::GameConfig;
use crate::fx::{
    abs_i, div_fx, fxdiv, fxmul, lemma_fxmul_contraction, lemma_fxmul_fraction, min_fx, min_i,
    mul_fx, FX_LIM, FX_OP_BOUND, SCALE, SIM_LIM,
};
use crate::physics::{vec_bounded, vel_bounded, Velocity};
use crate::timer::{Timer, TimerMode};
use crate::vec2::{lemma_normalize_unit, normalize_or_zero, normalize_s, FxVec2};

verus! {

/// Marker for the player-controlled entity.
#[derive(Clone, Copy, Debug, PartialEq, Eq, Structural)]
pub struct Player;

/// A dash being charged: the aim direction tracks the cursor every tick
/// and the power grows with held time.
#[derive(Clone, Copy, Debug, PartialEq, Eq, Structural)]
pub struct ChargingDash {
    /// Unit aim direction.
    pub dir: FxVec2,
    /// Charge level; grows by `dt / charge_duration` per held tick,
    /// uncapped here, clamped to one when the dash is released.
    pub power: i64,
    /// Handle of the looping charge sound, if one is playing.
    pub sound_entity: Option<u64>,
}

impl ChargingDash {
    pub fn new(dir: FxVec2) -> (r: ChargingDash)
        ensures
            r == (ChargingDash { dir, power: 0, sound_entity: None }),
    {
        ChargingDash { dir, power: 0, sound_entity: None }
    }

    pub fn with_sound(self, sound: u64) -> (r: ChargingDash)
        ensures
            r == (ChargingDash { sound_entity: Some(sound), ..self }),
    {
        ChargingDash { sound_entity: Some(sound), ..self }
    }
}

/// An ongoing dash: direction scaled by the consumed charge, and the
/// countdown of the burst.
#[derive(Clone, Copy, Debug, PartialEq, Eq, Structural)]
pub struct Dashing {
    pub power: FxVec2,
    pub timer: Timer,
}

impl Dashing {
    pub fn new(power: FxVec2, duration_secs: i64) -> (r: Dashing)
        requires
            0 <= duration_secs <= FX_LIM,
        ensures
            r.power == power,
            r.timer == (Timer {
                mode: TimerMode::Once,
                duration: duration_secs,
                elapsed: 0,
                finished: false,
            }),
    {
        Dashing { power, timer: Timer::new(duration_secs, TimerMode::Once) }
    }
}

/// State of the aim arrow shown while charging; presentation reads it,
/// the charge systems write it.
#[derive(Clone, Copy, Debug, PartialEq, Eq, Structural)]
pub struct DashDirectionArrow {
    pub direction: FxVec2,
    pub visibility: bool,
    pub size: i64,
    pub full_charged: bool,
}

impl DashDirectionArrow {
    pub fn hidden() -> (r: DashDirectionArrow)
        ensures
            r == (DashDirectionArrow {
                direction: FxVec2 { x: 0, y: 0 },
                visibility: false,
                size: 0,
                full_charged: false,
            }),
    {
        DashDirectionArrow {
            direction: FxVec2 { x: 0, y: 0 },
            visibility: false,
            size: 0,
            full_charged: false,
        }
    }
}

/// The post-dash window: while it runs the flier is immune to body
/// damage and destroys drones on weak-point contact; `combo` counts the
/// kills chained inside this window.
#[derive(Clone, Copy, Debug, PartialEq, Eq, Structural)]
pub struct DashEffect {
    pub dir: FxVec2,
    pub power: i64,
    pub timer: Timer,
    pub combo: u32,
}

impl DashEffect {
    pub fn new(dir: FxVec2, power: i64, duration_secs: i64) -> (r: DashEffect)
        requires
            0 <= duration_secs <= FX_LIM,
        ensures
            r == (DashEffect {
                dir,
                power,
                timer: Timer {
                    mode: TimerMode::Once,
                    duration: duration_secs,
                    elapsed: 0,
                    finished: false,
                },
                combo: 0,
            }),
    {
        DashEffect { dir, power, timer: Timer::new(duration_secs, TimerMode::Once), combo: 0 }
    }
}

/// An area blast left by a full-power dash landing; deals area damage to
/// every overlapping drone each tick it exists.
#[derive(Clone, Copy, Debug, PartialEq, Eq, Structural)]
pub struct Nuke {
    pub timer: Timer,
    pub combo: u32,
}

impl Nuke {
    pub fn new(duration_secs: i64) -> (r: Nuke)
        requires
            0 <= duration_secs <= FX_LIM,
        ensures
            r == (Nuke {
                timer: Timer {
                    mode: TimerMode::Once,
                    duration: duration_secs,
                    elapsed: 0,
                    finished: false,
                },
                combo: 0,
            }),
    {
        Nuke { timer: Timer::new(duration_secs, TimerMode::Once), combo: 0 }
    }
}

/// Radius of the nuke blast (96 units).
pub const NUKE_RADIUS: i64 = 6291456;

/// Lifetime of the nuke blast (1 second).
pub const NUKE_DURATION: i64 = 65536;

/// Tolerance above the floor inside which a dash landing can trigger the
/// nuke (0.05 units).
pub const NUKE_TRIGGER_EPS: i64 = 3276;

/// The aim direction from an entity position toward a world target.
pub open spec fn aim_dir(mouse: FxVec2, pos: FxVec2) -> (int, int) {
    normalize_s(mouse.x - pos.x, mouse.y - pos.y)
}

/// Movement stage: steer the intended velocity by the held direction and
/// clamp it to the speed caps.
pub open spec fn movement_tick(v: Velocity, dir: FxVec2, cfg: GameConfig, dt: int) -> Velocity {
    let tx = v.target.x + fxmul(fxmul(dir.x as int, cfg.player_x_acceleration as int), dt);
    let ty = v.target.y + fxmul(fxmul(dir.y as int, cfg.player_y_acceleration as int), dt);
    Velocity {
        current: v.current,
        target: FxVec2 {
            x: crate::fx::clamp_i(
                tx,
                -cfg.player_max_x_speed as int,
                cfg.player_max_x_speed as int,
            ) as i64,
            y: crate::fx::clamp_i(
                ty,
                cfg.player_min_fall_speed as int,
                cfg.player_max_rise_speed as int,
            ) as i64,
        },
    }
}

/// Steering on the flier, applied while it is neither charging nor
/// dashing; exact per `movement_tick`.
pub fn player_movement_system(vel: &mut Velocity, dir: FxVec2, cfg: &GameConfig, dt: i64)
    requires
        cfg.wf(),
        0 <= dt <= SCALE,
        -SCALE <= dir.x <= SCALE,
        -SCALE <= dir.y <= SCALE,
        vel_bounded(*old(vel), FX_LIM as int),
    ensures
        *final(vel) == movement_tick(*old(vel), dir, *cfg, dt as int),
        abs_i(final(vel).target.x as int) <= cfg.player_max_x_speed as int,
        cfg.player_min_fall_speed <= final(vel).target.y <= cfg.player_max_rise_speed,
        final(vel).current == old(vel).current,
{
    let ax = mul_fx(dir.x, cfg.player_x_acceleration);
    proof {
        lemma_fxmul_contraction(cfg.player_x_acceleration as int, dir.x as int);
        assert((dir.x as int) * (cfg.player_x_acceleration as int) == (cfg.player_x_acceleration as int) * (dir.x as int)) by (nonlinear_arith);
    }
    let ay = mul_fx(dir.y, cfg.player_y_acceleration);
    proof {
        lemma_fxmul_contraction(cfg.player_y_acceleration as int, dir.y as int);
        assert((dir.y as int) * (cfg.player_y_acceleration as int) == (cfg.player_y_acceleration as int) * (dir.y as int)) by (nonlinear_arith);
    }
    let sx = mul_fx(ax, dt);
    let sy = mul_fx(ay, dt);
    proof {
        lemma_fxmul_fraction(ax as int, dt as int);
        lemma_fxmul_fraction(ay as int, dt as int);
    }
    vel.target.x = crate::fx::clamp_fx(
        vel.target.x + sx,
        -cfg.player_max_x_speed,
        cfg.player_max_x_speed,
    );
    vel.target.y = crate::fx::clamp_fx(
        vel.target.y + sy,
        cfg.player_min_fall_speed,
        cfg.player_max_rise_speed,
    );
}

/// Start-of-charge stage: on a held dash intent the intended velocity is
/// zeroed, the aim is captured, and a charge begins at power zero.
pub open spec fn start_charge_tick(
    v: Velocity,
    arrow: DashDirectionArrow,
    pos: FxVec2,
    mouse: FxVec2,
    sound: Option<u64>,
) -> (Velocity, DashDirectionArrow, ChargingDash) {
    let d = aim_dir(mouse, pos);
    let dir = FxVec2 { x: d.0 as i64, y: d.1 as i64 };
    (
        Velocity { current: v.current, target: FxVec2 { x: 0, y: 0 } },
        DashDirectionArrow { direction: dir, visibility: true, size: 0, full_charged: false },
        ChargingDash { dir, power: 0, sound_entity: sound },
    )
}

/// Begin charging a dash; runs when the flier is idle and the dash
/// intent is held.  Exact per `start_charge_tick`; returns the new
/// charge.  The caller hands in the handle of the charge sound it
/// started, which the charge keeps to stop it on release.
pub fn player_start_charge_dash_system(
    pos: FxVec2,
    vel: &mut Velocity,
    arrow: &mut DashDirectionArrow,
    mouse_pos: FxVec2,
    sound: Option<u64>,
) -> (charging: ChargingDash)
    requires
        vec_bounded(pos, SIM_LIM as int),
        vec_bounded(mouse_pos, SIM_LIM as int),
    ensures
        (*final(vel), *final(arrow), charging) == start_charge_tick(
            *old(vel),
            *old(arrow),
            pos,
            mouse_pos,
            sound,
        ),
        -SCALE <= charging.dir.x <= SCALE,
        -SCALE <= charging.dir.y <= SCALE,
        charging.power == 0,
{
    vel.target.x = 0;
    vel.target.y = 0;
    let rel = FxVec2 { x: mouse_pos.x - pos.x, y: mouse_pos.y - pos.y };
    proof {
        lemma_normalize_unit(rel.x as int, rel.y as int);
    }
    let dir = normalize_or_zero(rel);
    arrow.direction = dir;
    arrow.visibility = true;
    arrow.size = 0;
    arrow.full_charged = false;
    ChargingDash { dir, power: 0, sound_entity: sound }
}

/// Outcome of one charge tick: either the charge continues, or the
/// intent was released and the dash begins.
#[derive(Clone, Copy, Debug, PartialEq, Eq, Structural)]
pub enum ChargeStep {
    /// Intent still held: aim retargeted, power grown.
    Held { charging: ChargingDash, arrow: DashDirectionArrow },
    /// Intent released: the charge is consumed at its clamped power.
    Released {
        dashing: Dashing,
        effect: DashEffect,
        arrow: DashDirectionArrow,
        /// Charge-loop sound to stop, if one was playing.
        stopped_sound: Option<u64>,
    },
}

/// One tick of an ongoing charge.  While the intent is held, the aim
/// follows the cursor and power grows by `dt / charge_duration`.  On
/// release, the dash starts along the aim with power clamped to one, and
/// the dash effect lasts `dash_immunity_duration` scaled by that power.
pub open spec fn charge_tick(
    charging: ChargingDash,
    arrow: DashDirectionArrow,
    pos: FxVec2,
    mouse: FxVec2,
    held: bool,
    cfg: GameConfig,
    dt: int,
) -> ChargeStep {
    if held {
        let d = aim_dir(mouse, pos);
        let dir = FxVec2 { x: d.0 as i64, y: d.1 as i64 };
        let inc = fxdiv(dt, cfg.player_charging_power_duration as int);
        ChargeStep::Held {
            charging: ChargingDash {
                dir,
                power: (charging.power + inc) as i64,
                sound_entity: charging.sound_entity,
            },
            arrow: DashDirectionArrow {
                direction: dir,
                visibility: true,
                size: (arrow.size + inc) as i64,
                full_charged: arrow.full_charged,
            },
        }
    } else {
        let p = min_i(charging.power as int, SCALE as int);
        ChargeStep::Released {
            dashing: Dashing {
                power: FxVec2 {
                    x: fxmul(charging.dir.x as int, p) as i64,
                    y: fxmul(charging.dir.y as int, p) as i64,
                },
                timer: Timer {
                    mode: TimerMode::Once,
                    duration: cfg.player_dash_duration,
                    elapsed: 0,
                    finished: false,
                },
            },
            effect: DashEffect {
                dir: charging.dir,
                power: p as i64,
                timer: Timer {
                    mode: TimerMode::Once,
                    duration: fxmul(cfg.player_dash_immunity_duration as int, p) as i64,
                    elapsed: 0,
                    finished: false,
                },
                combo: 0,
            },
            arrow: DashDirectionArrow { visibility: false, ..arrow },
            stopped_sound: charging.sound_entity,
        }
    }
}

/// Advance an ongoing charge; exact per `charge_tick`.  The returned
/// step either carries the grown charge or the spawned dash and effect.
pub fn player_charge_dash_system(
    pos: FxVec2,
    charging: &ChargingDash,
    arrow: &DashDirectionArrow,
    held: bool,
    mouse_pos: FxVec2,
    cfg: &GameConfig,
    dt: i64,
) -> (step: ChargeStep)
    requires
        cfg.wf(),
        0 <= dt <= SCALE,
        vec_bounded(pos, SIM_LIM as int),
        vec_bounded(mouse_pos, SIM_LIM as int),
        0 <= charging.power <= FX_LIM,
        -SCALE <= charging.dir.x <= SCALE,
        -SCALE <= charging.dir.y <= SCALE,
        0 <= arrow.size <= FX_LIM,
    ensures
        step == charge_tick(*charging, *arrow, pos, mouse_pos, held, *cfg, dt as int),
        step matches ChargeStep::Held { charging: c, arrow: a } ==> {
            &&& c.power >= charging.power
            &&& a.size >= arrow.size
            &&& -SCALE <= c.dir.x <= SCALE
            &&& -SCALE <= c.dir.y <= SCALE
        },
        step matches ChargeStep::Released { dashing: d, effect: e, .. } ==> {
            &&& 0 <= e.power <= SCALE
            &&& -SCALE <= d.power.x <= SCALE
            &&& -SCALE <= d.power.y <= SCALE
            &&& d.timer.wf()
            &&& e.timer.wf()
        },
{
    if held {
        let rel = FxVec2 { x: mouse_pos.x - pos.x, y: mouse_pos.y - pos.y };
        proof {
            lemma_normalize_unit(rel.x as int, rel.y as int);
        }
        let dir = normalize_or_zero(rel);
        let inc = div_fx(dt, cfg.player_charging_power_duration);
        proof {
            crate::fx::lemma_fxdiv_nonneg(dt as int, cfg.player_charging_power_duration as int);
        }
        ChargeStep::Held {
            charging: ChargingDash {
                dir,
                power: charging.power + inc,
                sound_entity: charging.sound_entity,
            },
            arrow: DashDirectionArrow {
                direction: dir,
                visibility: true,
                size: arrow.size + inc,
                full_charged: arrow.full_charged,
            },
        }
    } else {
        let p = min_fx(charging.power, SCALE);
        let px = mul_fx(charging.dir.x, p);
        let py = mul_fx(charging.dir.y, p);
        proof {
            lemma_fxmul_contraction(charging.dir.x as int, p as int);
            lemma_fxmul_contraction(charging.dir.y as int, p as int);
        }
        let dur = mul_fx(cfg.player_dash_immunity_duration, p);
        proof {
            lemma_fxmul_fraction(cfg.player_dash_immunity_duration as int, p as int);
        }
        ChargeStep::Released {
            dashing: Dashing::new(FxVec2 { x: px, y: py }, cfg.player_dash_duration),
            effect: DashEffect::new(charging.dir, p, dur),
            arrow: DashDirectionArrow {
                direction: arrow.direction,
                visibility: false,
                size: arrow.size,
                full_charged: arrow.full_charged,
            },
            stopped_sound: charging.sound_entity,
        }
    }
}

/// One tick of the aim arrow's numeric state: its drawn length is the
/// accumulated size capped at one; reaching full size for the first time
/// raises the full-charge signal once.  Returns the arrow's offset from
/// the flier (32 units along the aim), its drawn scale, and whether the
/// full-charge cue fires this tick.
pub open spec fn arrow_tick(arrow: DashDirectionArrow) -> (
    DashDirectionArrow,
    FxVec2,
    int,
    bool,
) {
    let size = min_i(arrow.size as int, SCALE as int);
    let fires = size == SCALE && !arrow.full_charged;
    let offset = FxVec2 {
        x: fxmul(arrow.direction.x as int, 32 * SCALE) as i64,
        y: fxmul(arrow.direction.y as int, 32 * SCALE) as i64,
    };
    (
        DashDirectionArrow { full_charged: arrow.full_charged || fires, ..arrow },
        offset,
        size,
        fires,
    )
}

/// Advance the aim arrow; exact per `arrow_tick`.
pub fn dash_arrow_system(arrow: &mut DashDirectionArrow) -> (out: (FxVec2, i64, bool))
    requires
        -SCALE <= old(arrow).direction.x <= SCALE,
        -SCALE <= old(arrow).direction.y <= SCALE,
        0 <= old(arrow).size <= FX_LIM,
    ensures
        (*final(arrow), out.0, out.1 as int, out.2) == arrow_tick(*old(arrow)),
{
    let size = min_fx(arrow.size, SCALE);
    let fires = size == SCALE && !arrow.full_charged;
    let ox = mul_fx(arrow.direction.x, 32 * SCALE);
    let oy = mul_fx(arrow.direction.y, 32 * SCALE);
    if fires {
        arrow.full_charged = true;
    }
    (FxVec2 { x: ox, y: oy }, size, fires)
}

/// One tick of an ongoing dash: the intended velocity is forced to
/// `power * dash_speed` every tick, overriding what gravity and friction
/// wrote earlier in the frame.  When the burst timer runs out, the
/// intended velocity bleeds down to the normal cap along the dash
/// direction and the dash ends.
pub open spec fn dash_tick(v: Velocity, d: Dashing, cfg: GameConfig, dt: int) -> (
    Velocity,
    Option<Dashing>,
) {
    let t = d.timer.ticked(dt);
    if t.finished {
        let nd = normalize_s(d.power.x as int, d.power.y as int);
        (
            Velocity {
                current: v.current,
                target: FxVec2 {
                    x: fxmul(nd.0, cfg.player_max_x_speed as int) as i64,
                    y: fxmul(nd.1, cfg.player_max_x_speed as int) as i64,
                },
            },
            None,
        )
    } else {
        (
            Velocity {
                current: v.current,
                target: FxVec2 {
                    x: fxmul(d.power.x as int, cfg.player_dash_speed as int) as i64,
                    y: fxmul(d.power.y as int, cfg.player_dash_speed as int) as i64,
                },
            },
            Some(Dashing { power: d.power, timer: t }),
        )
    }
}

/// Advance an ongoing dash; exact per `dash_tick`.  Whichever branch is
/// taken, the new intended velocity is capped by the dash speed or the
/// normal speed cap.
pub fn player_dash_system(vel: &mut Velocity, dashing: &mut Option<Dashing>, cfg: &GameConfig, dt: i64)
    requires
        cfg.wf(),
        0 <= dt <= SCALE,
        vel_bounded(*old(vel), FX_LIM as int),
        (*old(dashing)) matches Some(d) ==> {
            &&& d.timer.wf()
            &&& -SCALE <= d.power.x <= SCALE
            &&& -SCALE <= d.power.y <= SCALE
        },
    ensures
        (*old(dashing)) matches Some(d) ==> (*final(vel), *final(dashing)) == dash_tick(
            *old(vel),
            d,
            *cfg,
            dt as int,
        ),
        (*old(dashing)) is None ==> *final(vel) == *old(vel) && *final(dashing) is None,
        (*old(dashing)) is Some ==> abs_i(final(vel).target.x as int) <= max_speed_bound(*cfg)
            && abs_i(final(vel).target.y as int) <= max_speed_bound(*cfg),
        final(vel).current == old(vel).current,
        (*final(dashing)) matches Some(d) ==> {
            &&& d.timer.wf()
            &&& -SCALE <= d.power.x <= SCALE
            &&& -SCALE <= d.power.y <= SCALE
        },
{
    let d = match dashing {
        Some(d) => *d,
        None => {
            return ;
        },
    };
    let tx = mul_fx(d.power.x, cfg.player_dash_speed);
    let ty = mul_fx(d.power.y, cfg.player_dash_speed);
    proof {
        lemma_fxmul_contraction(cfg.player_dash_speed as int, d.power.x as int);
        lemma_fxmul_contraction(cfg.player_dash_speed as int, d.power.y as int);
        assert((d.power.x as int) * (cfg.player_dash_speed as int) == (cfg.player_dash_speed as int) * (d.power.x as int)) by (nonlinear_arith);
        assert((d.power.y as int) * (cfg.player_dash_speed as int) == (cfg.player_dash_speed as int) * (d.power.y as int)) by (nonlinear_arith);
    }
    vel.target.x = tx;
    vel.target.y = ty;
    let mut timer = d.timer;
    timer.tick(dt);
    if timer.finished {
        proof {
            lemma_normalize_unit(d.power.x as int, d.power.y as int);
        }
        let nd = normalize_or_zero(d.power);
        let bx = mul_fx(nd.x, cfg.player_max_x_speed);
        let by = mul_fx(nd.y, cfg.player_max_x_speed);
        proof {
            lemma_fxmul_contraction(cfg.player_max_x_speed as int, nd.x as int);
            lemma_fxmul_contraction(cfg.player_max_x_speed as int, nd.y as int);
            assert((nd.x as int) * (cfg.player_max_x_speed as int) == (cfg.player_max_x_speed as int) * (nd.x as int)) by (nonlinear_arith);
            assert((nd.y as int) * (cfg.player_max_x_speed as int) == (cfg.player_max_x_speed as int) * (nd.y as int)) by (nonlinear_arith);
        }
        vel.target.x = bx;
        vel.target.y = by;
        *dashing = None;
    } else {
        *dashing = Some(Dashing { power: d.power, timer });
    }
}

/// The larger of the dash speed and the normal speed cap.
pub open spec fn max_speed_bound(cfg: GameConfig) -> int {
    crate::fx::max_i(cfg.player_dash_speed as int, cfg.player_max_x_speed as int)
}

/// One tick of the post-dash window: pure countdown; on expiry the
/// effect disappears.
pub open spec fn dash_effect_tick(e: DashEffect, dt: int) -> Option<DashEffect> {
    let t = e.timer.ticked(dt);
    if t.finished {
        None
    } else {
        Some(DashEffect { timer: t, ..e })
    }
}

/// Advance the post-dash window; exact per `dash_effect_tick`.
pub fn player_dash_effect_system(effect: &mut Option<DashEffect>, dt: i64)
    requires
        0 <= dt <= FX_LIM,
        (*old(effect)) matches Some(e) ==> e.timer.wf(),
    ensures
        (*old(effect)) matches Some(e) ==> *final(effect) == dash_effect_tick(e, dt as int),
        (*old(effect)) is None ==> *final(effect) is None,
        (*final(effect)) matches Some(e) ==> e.timer.wf(),
{
    match effect {
        Some(e) => {
            e.timer.tick(dt);
            if e.timer.finished {
                *effect = None;
            }
        },
        None => {},
    }
}

/// Whether a dash landing converts into a nuke: the flier is at floor
/// level, the dash aimed downward, and the charge was full.
pub open spec fn nuke_trigger(pos: FxVec2, e: DashEffect, cfg: GameConfig) -> bool {
    &&& pos.y <= cfg.floor_y + NUKE_TRIGGER_EPS
    &&& e.dir.y < 0
    &&& e.power >= SCALE
}

/// Check the nuke trigger; when it holds, the dash and its effect end at
/// once and a fresh nuke is returned for the flier's position.
pub fn player_nuke_system(
    pos: FxVec2,
    dashing: &mut Option<Dashing>,
    effect: &mut Option<DashEffect>,
    cfg: &GameConfig,
) -> (spawned: Option<Nuke>)
    requires
        cfg.wf(),
        vec_bounded(pos, FX_LIM as int),
    ensures
        match *old(effect) {
            Some(e) => {
                if nuke_trigger(pos, e, *cfg) {
                    &&& spawned == Some(
                        Nuke {
                            timer: Timer {
                                mode: TimerMode::Once,
                                duration: NUKE_DURATION,
                                elapsed: 0,
                                finished: false,
                            },
                            combo: 0,
                        },
                    )
                    &&& *final(dashing) is None
                    &&& *final(effect) is None
                } else {
                    &&& spawned is None
                    &&& *final(dashing) == *old(dashing)
                    &&& *final(effect) == *old(effect)
                }
            },
            None => {
                &&& spawned is None
                &&& *final(dashing) == *old(dashing)
                &&& *final(effect) == *old(effect)
            },
        },
{
    let trigger = match effect {
        Some(e) => pos.y <= cfg.floor_y + NUKE_TRIGGER_EPS && e.dir.y < 0 && e.power >= SCALE,
        None => false,
    };
    if trigger {
        *dashing = None;
        *effect = None;
        Some(Nuke::new(NUKE_DURATION))
    } else {
        None
    }
}

/// One tick of a live nuke: the countdown advances; the blast's drawn
/// opacity fades with the time left (255 per remaining second, capped);
/// on expiry the nuke despawns.
pub open spec fn nuke_tick(n: Nuke, dt: int) -> (Option<Nuke>, int) {
    let t = n.timer.ticked(dt);
    let alpha = min_i((t.duration - t.elapsed) * 255 / (SCALE as int), 255);
    if t.finished {
        (None, alpha)
    } else {
        (Some(Nuke { timer: t, ..n }), alpha)
    }
}

/// Advance a live nuke; exact per `nuke_tick`.
pub fn nuke_system(nuke: &mut Option<Nuke>, dt: i64) -> (alpha: u8)
    requires
        0 <= dt <= FX_LIM,
        (*old(nuke)) matches Some(n) ==> n.timer.wf(),
    ensures
        (*old(nuke)) matches Some(n) ==> (*final(nuke), alpha as int) == nuke_tick(n, dt as int),
        (*old(nuke)) is None ==> *final(nuke) is None && alpha == 0,
        (*final(nuke)) matches Some(n) ==> n.timer.wf(),
{
    match nuke {
        Some(n) => {
            n.timer.tick(dt);
            let remaining = n.timer.remaining();
            let scaled = (remaining as u64) * 255 / (SCALE as u64);
            let alpha: u8 = if scaled >= 255 {
                255u8
            } else {
                scaled as u8
            };
            if n.timer.finished {
                *nuke = None;
            }
            alpha
        },
        None => 0u8,
    }
}

} // verus!
