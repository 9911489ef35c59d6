//! The world: the flier, the drones, the nukes, the ledger, and the
//! fixed-order tick that advances them.
//!
//! Every stage commits its mutations before the next begins; collision
//! stages observe the positions already integrated this tick.

use vstd::prelude::*;
use crate::config::GameConfig;
use crate::enemy::{weak_point_hit, weak_point_hit_s, EnemyMovement, EnemyWobble, WeakSpot};
use crate::fx::{FX_LIM, SCALE, SIM_LIM};
use crate::game_state::GameState;
use crate::health::Health;
use crate::physics::{
    apply_grounding_system, apply_reflect, apply_velocity_system, apply_velocity_tick,
    blink_system, blink_tick, circles_overlap, circles_overlap_s, collision_immunity_system,
    friction_system, friction_tick, gravity_system, gravity_tick, grounding_tick, immunity_tick,
    reflect_tick, vec_bounded,
    vel_bounded, Blink, CollisionImmunity, GroundState, Radius, Velocity,
};
use crate::input::{input_dir_s, Input};
use crate::player::{
    arrow_tick, charge_tick, dash_arrow_system, dash_effect_tick, dash_tick, movement_tick,
    nuke_trigger, player_charge_dash_system, player_dash_effect_system, player_dash_system,
    player_movement_system, player_nuke_system, player_start_charge_dash_system,
    start_charge_tick, ChargeStep, ChargingDash, DashDirectionArrow, DashEffect, Dashing, Nuke,
    NUKE_DURATION, NUKE_RADIUS,
};
use crate::timer::TimerMode;
use crate::score::Score;
use crate::timer::Timer;
use crate::vec2::FxVec2;

verus! {

/// Magnitude cap on positions and velocities at a tick boundary
/// (16384 units).  One tick keeps every value under `2 * SIM_LIM`, which
/// the stage contracts accept; the caller re-checks the cap before the
/// next tick.
pub const TICK_LIM: i64 = 0x4000_0000;

/// The player-controlled entity with all its state.
#[derive(Clone, Copy, Debug, PartialEq, Eq, Structural)]
pub struct Flier {
    pub pos: FxVec2,
    pub vel: Velocity,
    pub radius: Radius,
    pub health: Health,
    pub ground: GroundState,
    pub charging: Option<ChargingDash>,
    pub dashing: Option<Dashing>,
    pub effect: Option<DashEffect>,
    pub immunity: Option<CollisionImmunity>,
    pub blink: Option<Blink>,
    /// Sprite opacity driven by the immunity flicker, fixed-point in [0, 1].
    pub alpha: i64,
    pub arrow: DashDirectionArrow,
}

/// A drone with all its state.
#[derive(Clone, Copy, Debug, PartialEq, Eq, Structural)]
pub struct DroneEnt {
    pub pos: FxVec2,
    pub vel: Velocity,
    pub radius: Radius,
    pub health: Health,
    pub weak_spot: WeakSpot,
    pub movement: EnemyMovement,
    /// Hover state; present on flying drones only.
    pub wobble: Option<EnemyWobble>,
    /// Flying drones are permanently exempt from gravity.
    pub airborne_exempt: bool,
    pub ground: GroundState,
}

/// A live nuke blast.
#[derive(Clone, Copy, Debug, PartialEq, Eq, Structural)]
pub struct NukeEnt {
    pub pos: FxVec2,
    pub radius: Radius,
    pub nuke: Nuke,
    /// Drawn opacity, fading with the time left (0-255).
    pub alpha: u8,
}

pub open spec fn drone_in_bounds(d: DroneEnt, b: int) -> bool {
    vec_bounded(d.pos, b) && vel_bounded(d.vel, b)
}

/// Structural facts every drone keeps: a positive radius, derived
/// weak-spot geometry, and well-formed timers.
pub open spec fn drone_wf(d: DroneEnt) -> bool {
    &&& 0 < d.radius.0 <= SIM_LIM
    &&& d.weak_spot.wf()
    &&& d.health.wf()
    &&& (d.wobble matches Some(w) ==> w.wf())
}

pub open spec fn nuke_wf(n: NukeEnt) -> bool {
    &&& 0 < n.radius.0 <= SIM_LIM
    &&& vec_bounded(n.pos, SIM_LIM as int)
    &&& n.nuke.timer.wf()
}

/// The motion stages applied to one drone in a tick: gravity (unless
/// grounded or flagged permanently airborne), friction, smoothing and
/// integration, then the floor snap.
pub open spec fn drone_motion_s(d: DroneEnt, cfg: GameConfig, dt: int) -> DroneEnt {
    let v1 = if d.ground != GroundState::Grounded && !d.airborne_exempt {
        gravity_tick(d.vel, false, cfg, dt)
    } else {
        d.vel
    };
    let v2 = friction_tick(v1, d.ground == GroundState::Grounded, cfg, dt);
    let pv = apply_velocity_tick(d.pos, v2, cfg, dt);
    let pvg = grounding_tick(pv.0, pv.1, d.ground, cfg);
    DroneEnt { pos: pvg.0, vel: pvg.1, ground: pvg.2, ..d }
}

/// Run the motion stages on one drone; exact per `drone_motion_s`.
pub fn drone_motion(d: &mut DroneEnt, cfg: &GameConfig, dt: i64)
    requires
        cfg.wf(),
        0 <= dt <= SCALE,
        drone_in_bounds(*old(d), TICK_LIM as int),
    ensures
        *final(d) == drone_motion_s(*old(d), *cfg, dt as int),
        drone_in_bounds(*final(d), FX_LIM as int),
        final(d).radius == old(d).radius,
        final(d).health == old(d).health,
        final(d).weak_spot == old(d).weak_spot,
        final(d).movement == old(d).movement,
        final(d).wobble == old(d).wobble,
        final(d).airborne_exempt == old(d).airborne_exempt,
{
    let grounded = matches!(d.ground, GroundState::Grounded);
    if !grounded && !d.airborne_exempt {
        gravity_system(&mut d.vel, false, cfg, dt);
    }
    friction_system(&mut d.vel, grounded, cfg, dt);
    apply_velocity_system(&mut d.pos, &mut d.vel, cfg, dt);
    apply_grounding_system(&mut d.pos, &mut d.vel, &mut d.ground, cfg);
}

/// Run the motion stages on every drone, in place.
pub fn drones_motion_system(drones: &mut Vec<DroneEnt>, cfg: &GameConfig, dt: i64)
    requires
        cfg.wf(),
        0 <= dt <= SCALE,
        forall|j: int|
            0 <= j < old(drones)@.len() ==> drone_in_bounds(
                #[trigger] old(drones)@[j],
                TICK_LIM as int,
            ),
    ensures
        final(drones)@.len() == old(drones)@.len(),
        forall|j: int|
            0 <= j < old(drones)@.len() ==> #[trigger] final(drones)@[j] == drone_motion_s(
                old(drones)@[j],
                *cfg,
                dt as int,
            ),
        forall|j: int|
            0 <= j < final(drones)@.len() ==> drone_in_bounds(
                #[trigger] final(drones)@[j],
                FX_LIM as int,
            ),
{
    let ghost orig = drones@;
    let mut i: usize = 0;
    while i < drones.len()
        invariant
            cfg.wf(),
            0 <= dt <= SCALE,
            i <= drones@.len(),
            drones@.len() == orig.len(),
            forall|j: int|
                0 <= j < i ==> #[trigger] drones@[j] == drone_motion_s(orig[j], *cfg, dt as int),
            forall|j: int| 0 <= j < i ==> drone_in_bounds(#[trigger] drones@[j], FX_LIM as int),
            forall|j: int| i <= j < drones@.len() ==> #[trigger] drones@[j] == orig[j],
            forall|j: int| 0 <= j < orig.len() ==> drone_in_bounds(#[trigger] orig[j], TICK_LIM as int),
        decreases drones@.len() - i,
    {
        let mut d = drones[i];
        drone_motion(&mut d, cfg, dt);
        drones[i] = d;
        i = i + 1;
    }
}

/// The motion stages applied to every drone.
pub open spec fn drones_motion_all_s(drones: Seq<DroneEnt>, cfg: GameConfig, dt: int) -> Seq<
    DroneEnt,
> {
    drones.map_values(|d: DroneEnt| drone_motion_s(d, cfg, dt))
}

/// Countdown of one tick applied to a sequence of nukes: each timer
/// advances, the opacity fades with the time left, and finished nukes
/// despawn.
pub open spec fn nukes_tick_s(nukes: Seq<NukeEnt>, dt: int) -> Seq<NukeEnt>
    decreases nukes.len(),
{
    if nukes.len() == 0 {
        nukes
    } else {
        let n = nukes[0];
        let rest = nukes_tick_s(nukes.skip(1), dt);
        let stepped = crate::player::nuke_tick(n.nuke, dt);
        match stepped.0 {
            Option::None => rest,
            Option::Some(nn) => seq![
                NukeEnt { nuke: nn, alpha: stepped.1 as u8, ..n },
            ] + rest,
        }
    }
}

/// Advance every nuke and drop the finished ones; exact per
/// `nukes_tick_s`.
pub fn nuke_system_all(nukes: &mut Vec<NukeEnt>, dt: i64)
    requires
        0 <= dt <= SCALE,
        forall|j: int| 0 <= j < old(nukes)@.len() ==> nuke_wf(#[trigger] old(nukes)@[j]),
    ensures
        final(nukes)@ == nukes_tick_s(old(nukes)@, dt as int),
        forall|j: int| 0 <= j < final(nukes)@.len() ==> nuke_wf(#[trigger] final(nukes)@[j]),
{
    broadcast use vstd::seq_lib::group_seq_properties;

    let ghost orig = nukes@;
    let mut out: Vec<NukeEnt> = Vec::new();
    let mut i: usize = 0;
    proof {
        lemma_nukes_tick_wf(orig, dt as int);
    }
    while i < nukes.len()
        invariant
            0 <= dt <= SCALE,
            i <= nukes@.len(),
            nukes@ == orig,
            forall|j: int| 0 <= j < orig.len() ==> nuke_wf(#[trigger] orig[j]),
            nukes_tick_s(orig, dt as int) == out@ + nukes_tick_s(orig.skip(i as int), dt as int),
        decreases nukes@.len() - i,
    {
        let n = nukes[i];
        let ghost pre = orig.skip(i as int);
        proof {
            assert(pre[0] == orig[i as int]);
            assert(pre.skip(1) =~= orig.skip(i as int + 1));
        }
        let mut stepped: Option<Nuke> = Some(n.nuke);
        let alpha = crate::player::nuke_system(&mut stepped, dt);
        match stepped {
            Some(nn) => {
                let ghost before = out@;
                out.push(NukeEnt { pos: n.pos, radius: n.radius, nuke: nn, alpha });
                proof {
                    assert(out@ =~= before + seq![
                        NukeEnt { pos: n.pos, radius: n.radius, nuke: nn, alpha },
                    ]);
                    assert(before + (seq![
                        NukeEnt { pos: n.pos, radius: n.radius, nuke: nn, alpha },
                    ] + nukes_tick_s(orig.skip(i as int + 1), dt as int)) =~= out@ + nukes_tick_s(
                        orig.skip(i as int + 1),
                        dt as int,
                    ));
                }
            },
            None => {},
        }
        i = i + 1;
    }
    proof {
        assert(orig.skip(i as int) =~= Seq::<NukeEnt>::empty());
        assert(nukes_tick_s(orig, dt as int) =~= out@ + Seq::<NukeEnt>::empty());
        assert(out@ + Seq::<NukeEnt>::empty() =~= out@);
    }
    *nukes = out;
}

/// Every nuke the countdown keeps is well formed.
proof fn lemma_nukes_tick_wf(nukes: Seq<NukeEnt>, dt: int)
    requires
        0 <= dt <= SCALE,
        forall|j: int| 0 <= j < nukes.len() ==> nuke_wf(#[trigger] nukes[j]),
    ensures
        forall|j: int|
            0 <= j < nukes_tick_s(nukes, dt).len() ==> nuke_wf(
                #[trigger] nukes_tick_s(nukes, dt)[j],
            ),
    decreases nukes.len(),
{
    broadcast use vstd::seq_lib::group_seq_properties;

    if nukes.len() > 0 {
        let n = nukes[0];
        crate::timer::lemma_ticked_wf(n.nuke.timer, dt);
        assert(forall|j: int| 0 <= j < nukes.skip(1).len() ==> nuke_wf(#[trigger] nukes.skip(1)[j]));
        lemma_nukes_tick_wf(nukes.skip(1), dt);
        let stepped = crate::player::nuke_tick(n.nuke, dt);
        let rest = nukes_tick_s(nukes.skip(1), dt);
        match stepped.0 {
            Option::None => {},
            Option::Some(nn) => {
                let head = NukeEnt { nuke: nn, alpha: stepped.1 as u8, ..n };
                assert(nuke_wf(head));
                assert(forall|j: int|
                    0 <= j < (seq![head] + rest).len() ==> nuke_wf(#[trigger] (seq![head] + rest)[j]));
            },
        }
    }
}

/// An option index shifted by an offset.
pub open spec fn shift_opt(o: Option<int>, k: int) -> Option<int> {
    match o {
        Option::None => Option::None,
        Option::Some(x) => Option::Some(x + k),
    }
}

/// The index of the first drone whose body overlaps the flier's, if any.
pub open spec fn first_body_hit_s(ppos: FxVec2, pradius: int, drones: Seq<DroneEnt>) -> Option<
    int,
>
    decreases drones.len(),
{
    if drones.len() == 0 {
        Option::None
    } else if circles_overlap_s(ppos, pradius, drones[0].pos, drones[0].radius.0 as int) {
        Option::Some(0int)
    } else {
        shift_opt(first_body_hit_s(ppos, pradius, drones.skip(1)), 1)
    }
}

/// What a body hit does to the flier: one point of damage while any
/// health is left; at zero health the game ends, otherwise an immunity
/// window (one second) and a blink (50 ms period) attach; either way
/// both velocity vectors are reflected along the dominant separation
/// axis.  Returns the new flier, whether damage was taken, and whether
/// the game is over.
pub open spec fn body_hit_apply_s(f: Flier, epos: FxVec2) -> (Flier, bool, bool) {
    let took = f.health.current > 0;
    let h2 = if took {
        Health { current: (f.health.current - 1) as u8, max: f.health.max }
    } else {
        f.health
    };
    let over = took && h2.current == 0;
    let imm: Option<CollisionImmunity> = if took && !over {
        Option::Some(
            CollisionImmunity {
                timer: Timer {
                    mode: crate::timer::TimerMode::Once,
                    duration: SCALE,
                    elapsed: 0,
                    finished: false,
                },
            },
        )
    } else {
        f.immunity
    };
    let blk: Option<Blink> = if took && !over {
        Option::Some(
            Blink {
                timer: Timer {
                    mode: crate::timer::TimerMode::Repeating,
                    duration: 3276,
                    elapsed: 0,
                    finished: false,
                },
            },
        )
    } else {
        f.blink
    };
    let v2 = reflect_tick(f.vel, f.pos, epos);
    (Flier { health: h2, immunity: imm, blink: blk, vel: v2, ..f }, took, over)
}

/// Body collision between the flier and the drones: the first
/// overlapping drone (in storage order) is processed and the scan stops.
/// The caller runs this only while the flier has neither a collision
/// immunity nor a dash effect.
pub fn player_drone_collision_system(f: &mut Flier, drones: &Vec<DroneEnt>) -> (out: (bool, bool))
    requires
        vec_bounded(old(f).pos, FX_LIM as int),
        vel_bounded(old(f).vel, FX_LIM as int),
        0 <= old(f).radius.0 <= SIM_LIM,
        forall|j: int|
            0 <= j < drones@.len() ==> drone_in_bounds(#[trigger] drones@[j], FX_LIM as int)
                && drone_wf(drones@[j]),
    ensures
        match first_body_hit_s(old(f).pos, old(f).radius.0 as int, drones@) {
            Option::None => *final(f) == *old(f) && out == (false, false),
            Option::Some(j) => (*final(f), out.0, out.1) == body_hit_apply_s(
                *old(f),
                drones@[j].pos,
            ),
        },
{
    broadcast use vstd::seq_lib::group_seq_properties;

    let ghost ds = drones@;
    let ghost ppos = f.pos;
    let ghost pr = f.radius.0 as int;
    let mut i: usize = 0;
    while i < drones.len()
        invariant
            *f == *old(f),
            ds == drones@,
            ppos == f.pos,
            pr == f.radius.0 as int,
            i <= ds.len(),
            vec_bounded(f.pos, FX_LIM as int),
            vel_bounded(f.vel, FX_LIM as int),
            0 <= f.radius.0 <= SIM_LIM,
            forall|j: int|
                0 <= j < ds.len() ==> drone_in_bounds(#[trigger] ds[j], FX_LIM as int)
                    && drone_wf(ds[j]),
            first_body_hit_s(ppos, pr, ds) == shift_opt(
                first_body_hit_s(ppos, pr, ds.skip(i as int)),
                i as int,
            ),
        decreases ds.len() - i,
    {
        let d = drones[i];
        proof {
            assert(ds.skip(i as int)[0] == ds[i as int]);
            assert(ds.skip(i as int).skip(1) =~= ds.skip(i as int + 1));
        }
        if circles_overlap(f.pos, f.radius.0, d.pos, d.radius.0) {
            let took = f.health.current > 0;
            let mut over = false;
            if took {
                f.health.current = f.health.current - 1;
                if f.health.current == 0 {
                    over = true;
                } else {
                    f.immunity = Some(CollisionImmunity::new(SCALE));
                    f.blink = Some(Blink::new(50));
                }
            }
            let fp = f.pos;
            apply_reflect(&mut f.vel, fp, d.pos);
            return (took, over);
        }
        i = i + 1;
    }
    proof {
        assert(ds.skip(i as int) =~= Seq::<DroneEnt>::empty());
    }
    (false, false)
}

/// The weak-point sweep: every drone whose weak spot the flier's circle
/// reaches is destroyed and scored at `1 + combo`, the combo growing
/// with each kill in storage order; a partial-charge kill also reflects
/// the flier's velocity.  Returns the surviving drones, the flier's
/// velocity, and the grown combo and score.
pub open spec fn damage_sweep_s(
    ppos: FxVec2,
    pradius: int,
    power: int,
    drones: Seq<DroneEnt>,
    vel: Velocity,
    combo: int,
    score: int,
) -> (Seq<DroneEnt>, Velocity, int, int)
    decreases drones.len(),
{
    if drones.len() == 0 {
        (drones, vel, combo, score)
    } else {
        let d = drones[0];
        let rest = drones.skip(1);
        if weak_point_hit_s(ppos, pradius, d.pos, d.radius.0 as int, d.weak_spot) {
            let vel2 = if power < SCALE {
                reflect_tick(vel, ppos, d.pos)
            } else {
                vel
            };
            damage_sweep_s(ppos, pradius, power, rest, vel2, combo + 1, score + 1 + combo)
        } else {
            let r = damage_sweep_s(ppos, pradius, power, rest, vel, combo, score);
            (seq![d] + r.0, r.1, r.2, r.3)
        }
    }
}

/// The sweep only grows the combo and the score: each ends at least at
/// its starting value, and the combo grows by at most one per drone.
pub proof fn lemma_damage_sweep_mono(
    ppos: FxVec2,
    pradius: int,
    power: int,
    drones: Seq<DroneEnt>,
    vel: Velocity,
    combo: int,
    score: int,
)
    requires
        combo >= 0,
    ensures
        ({
            let r = damage_sweep_s(ppos, pradius, power, drones, vel, combo, score);
            &&& combo <= r.2 <= combo + drones.len()
            &&& score <= r.3 <= score + (drones.len() as int) * (1 + combo + (drones.len() as int))
            &&& r.0.len() + (r.2 - combo) == drones.len()
        }),
    decreases drones.len(),
{
    broadcast use vstd::seq_lib::group_seq_properties;

    if drones.len() > 0 {
        let d = drones[0];
        let rest = drones.skip(1);
        let len = drones.len() as int;
        if weak_point_hit_s(ppos, pradius, d.pos, d.radius.0 as int, d.weak_spot) {
            let vel2 = if power < SCALE {
                reflect_tick(vel, ppos, d.pos)
            } else {
                vel
            };
            lemma_damage_sweep_mono(ppos, pradius, power, rest, vel2, combo + 1, score + 1 + combo);
            assert(1 + combo + (len - 1) * (1 + (combo + 1) + (len - 1)) <= len * (1 + combo
                + len)) by (nonlinear_arith)
                requires
                    len >= 1,
                    combo >= 0,
            ;
        } else {
            lemma_damage_sweep_mono(ppos, pradius, power, rest, vel, combo, score);
            assert((len - 1) * (1 + combo + (len - 1)) <= len * (1 + combo + len))
                by (nonlinear_arith)
                requires
                    len >= 1,
                    combo >= 0,
            ;
        }
    }
}

/// Every survivor of the sweep keeps the structural facts and bounds it
/// went in with.
pub proof fn lemma_damage_sweep_wf(
    ppos: FxVec2,
    pradius: int,
    power: int,
    drones: Seq<DroneEnt>,
    vel: Velocity,
    combo: int,
    score: int,
)
    requires
        forall|j: int|
            0 <= j < drones.len() ==> drone_wf(#[trigger] drones[j]) && drone_in_bounds(
                drones[j],
                FX_LIM as int,
            ),
    ensures
        ({
            let r = damage_sweep_s(ppos, pradius, power, drones, vel, combo, score);
            forall|j: int|
                0 <= j < r.0.len() ==> drone_wf(#[trigger] r.0[j]) && drone_in_bounds(
                    r.0[j],
                    FX_LIM as int,
                )
        }),
    decreases drones.len(),
{
    broadcast use vstd::seq_lib::group_seq_properties;

    if drones.len() > 0 {
        let d = drones[0];
        let rest = drones.skip(1);
        assert(forall|j: int|
            0 <= j < rest.len() ==> drone_wf(#[trigger] rest[j]) && drone_in_bounds(
                rest[j],
                FX_LIM as int,
            ));
        if weak_point_hit_s(ppos, pradius, d.pos, d.radius.0 as int, d.weak_spot) {
            let vel2 = if power < SCALE {
                reflect_tick(vel, ppos, d.pos)
            } else {
                vel
            };
            lemma_damage_sweep_wf(ppos, pradius, power, rest, vel2, combo + 1, score + 1 + combo);
            assert(damage_sweep_s(ppos, pradius, power, drones, vel, combo, score)
                == damage_sweep_s(ppos, pradius, power, rest, vel2, combo + 1, score + 1 + combo));
        } else {
            lemma_damage_sweep_wf(ppos, pradius, power, rest, vel, combo, score);
            let r = damage_sweep_s(ppos, pradius, power, rest, vel, combo, score);
            let res = seq![d] + r.0;
            assert(damage_sweep_s(ppos, pradius, power, drones, vel, combo, score).0 == res);
            assert forall|j: int| 0 <= j < res.len() implies drone_wf(#[trigger] res[j])
                && drone_in_bounds(res[j], FX_LIM as int) by {
                if j == 0 {
                    assert(res[j] == d);
                } else {
                    assert(res[j] == r.0[j - 1]);
                }
            }
        }
    }
}

/// The weak-point collision stage; exact per `damage_sweep_s` over the
/// flier's position, radius and dash power.  The caller runs this only
/// while a dash effect is active and no collision immunity is.
#[verifier::rlimit(100)]
pub fn player_damage_drone_system(
    ppos: FxVec2,
    pradius: i64,
    vel: &mut Velocity,
    effect: &mut DashEffect,
    drones: &mut Vec<DroneEnt>,
    score: &mut Score,
)
    requires
        vec_bounded(ppos, FX_LIM as int),
        vel_bounded(*old(vel), FX_LIM as int),
        0 <= pradius <= SIM_LIM,
        forall|j: int|
            0 <= j < old(drones)@.len() ==> drone_in_bounds(
                #[trigger] old(drones)@[j],
                FX_LIM as int,
            ) && drone_wf(old(drones)@[j]),
        old(drones)@.len() <= 0x1000,
        old(effect).combo <= 0x10000,
        old(score).0 <= 0x20000000,
    ensures
        ({
            let r = damage_sweep_s(
                ppos,
                pradius as int,
                old(effect).power as int,
                old(drones)@,
                *old(vel),
                old(effect).combo as int,
                old(score).0 as int,
            );
            &&& final(drones)@ == r.0
            &&& *final(vel) == r.1
            &&& final(effect).combo as int == r.2
            &&& final(score).0 as int == r.3
        }),
        final(effect).power == old(effect).power,
        final(effect).dir == old(effect).dir,
        final(effect).timer == old(effect).timer,
        final(score).0 <= old(score).0 + 0x11001000,
        final(effect).combo <= old(effect).combo + 0x1000,
{
    broadcast use vstd::seq_lib::group_seq_properties;

    let ghost orig = drones@;
    let ghost power = effect.power as int;
    let ghost total = damage_sweep_s(
        ppos,
        pradius as int,
        power,
        orig,
        *vel,
        effect.combo as int,
        score.0 as int,
    );
    proof {
        lemma_damage_sweep_mono(
            ppos,
            pradius as int,
            power,
            orig,
            *vel,
            effect.combo as int,
            score.0 as int,
        );
        let x = orig.len() as int;
        let c = effect.combo as int;
        assert(x * (1 + c + x) <= 0x11001000) by (nonlinear_arith)
            requires
                0 <= x <= 0x1000,
                0 <= c <= 0x10000,
        ;
        assert(total.2 <= u32::MAX);
        assert(total.3 <= u32::MAX);
        assert(total.3 <= score.0 + 0x11001000);
    }
    let mut out: Vec<DroneEnt> = Vec::new();
    let mut i: usize = 0;
    while i < drones.len()
        invariant
            drones@ == orig,
            vec_bounded(ppos, FX_LIM as int),
            vel_bounded(*vel, FX_LIM as int),
            0 <= pradius <= SIM_LIM,
            effect.combo >= 0,
            score.0 >= 0,
            effect.power as int == power,
            effect.power == old(effect).power,
            effect.dir == old(effect).dir,
            effect.timer == old(effect).timer,
            i <= orig.len(),
            forall|j: int|
                0 <= j < orig.len() ==> drone_in_bounds(#[trigger] orig[j], FX_LIM as int)
                    && drone_wf(orig[j]),
            total.2 <= u32::MAX,
            total.3 <= u32::MAX,
            total == ({
                let r = damage_sweep_s(
                    ppos,
                    pradius as int,
                    power,
                    orig.skip(i as int),
                    *vel,
                    effect.combo as int,
                    score.0 as int,
                );
                (out@ + r.0, r.1, r.2, r.3)
            }),
        decreases orig.len() - i,
    {
        let d = drones[i];
        proof {
            assert(orig.skip(i as int)[0] == orig[i as int]);
            assert(orig.skip(i as int).skip(1) =~= orig.skip(i as int + 1));
        }
        let hit = weak_point_hit(ppos, pradius, d.pos, d.radius.0, &d.weak_spot);
        if hit {
            proof {
                let rest = orig.skip(i as int + 1);
                let vel2 = if power < SCALE {
                    reflect_tick(*vel, ppos, d.pos)
                } else {
                    *vel
                };
                lemma_damage_sweep_mono(
                    ppos,
                    pradius as int,
                    power,
                    rest,
                    vel2,
                    effect.combo as int + 1,
                    score.0 as int + 1 + effect.combo as int,
                );
            }
            if effect.power < SCALE {
                apply_reflect(vel, ppos, d.pos);
            }
            score.0 = score.0 + 1 + effect.combo;
            effect.combo = effect.combo + 1;
        } else {
            let ghost before = out@;
            out.push(d);
            proof {
                let r = damage_sweep_s(
                    ppos,
                    pradius as int,
                    power,
                    orig.skip(i as int + 1),
                    *vel,
                    effect.combo as int,
                    score.0 as int,
                );
                assert(before + (seq![d] + r.0) =~= out@ + r.0);
            }
        }
        i = i + 1;
    }
    proof {
        assert(orig.skip(i as int) =~= Seq::<DroneEnt>::empty());
        assert(out@ + Seq::<DroneEnt>::empty() =~= out@);
    }
    *drones = out;
}

/// The index of the first nuke whose blast overlaps a drone's body.
pub open spec fn first_nuke_hit_s(epos: FxVec2, eradius: int, nukes: Seq<NukeEnt>) -> Option<int>
    decreases nukes.len(),
{
    if nukes.len() == 0 {
        Option::None
    } else if circles_overlap_s(nukes[0].pos, nukes[0].radius.0 as int, epos, eradius) {
        Option::Some(0int)
    } else {
        shift_opt(first_nuke_hit_s(epos, eradius, nukes.skip(1)), 1)
    }
}

/// Find the first overlapping nuke; exact per `first_nuke_hit_s`.
fn find_first_nuke(epos: FxVec2, eradius: i64, nukes: &Vec<NukeEnt>) -> (found: Option<usize>)
    requires
        vec_bounded(epos, FX_LIM as int),
        0 <= eradius <= SIM_LIM,
        forall|k: int| 0 <= k < nukes@.len() ==> nuke_wf(#[trigger] nukes@[k]),
    ensures
        match found {
            Option::None => first_nuke_hit_s(epos, eradius as int, nukes@) is None,
            Option::Some(j) => j < nukes@.len() && first_nuke_hit_s(epos, eradius as int, nukes@)
                == Option::Some(j as int),
        },
{
    broadcast use vstd::seq_lib::group_seq_properties;

    let ghost ns = nukes@;
    let mut j: usize = 0;
    while j < nukes.len()
        invariant
            ns == nukes@,
            j <= ns.len(),
            vec_bounded(epos, FX_LIM as int),
            0 <= eradius <= SIM_LIM,
            forall|k: int| 0 <= k < ns.len() ==> nuke_wf(#[trigger] ns[k]),
            first_nuke_hit_s(epos, eradius as int, ns) == shift_opt(
                first_nuke_hit_s(epos, eradius as int, ns.skip(j as int)),
                j as int,
            ),
        decreases ns.len() - j,
    {
        let n = nukes[j];
        proof {
            assert(ns.skip(j as int)[0] == ns[j as int]);
            assert(ns.skip(j as int).skip(1) =~= ns.skip(j as int + 1));
        }
        if circles_overlap(n.pos, n.radius.0, epos, eradius) {
            return Some(j);
        }
        j = j + 1;
    }
    proof {
        assert(ns.skip(j as int) =~= Seq::<NukeEnt>::empty());
    }
    None
}

/// A nuke's combo counter grown by one after a kill.
pub open spec fn nuke_bumped(n: NukeEnt) -> NukeEnt {
    NukeEnt { nuke: Nuke { combo: (n.nuke.combo + 1) as u32, timer: n.nuke.timer }, ..n }
}

/// The nuke damage sweep: each drone is tested against the live nukes,
/// in storage order; the first overlapping nuke destroys it and scores
/// `1 + combo` with that nuke's own combo counter, which then grows by
/// one.  A nuke keeps scoring on later ticks while it lives.
pub open spec fn nuke_sweep_s(enemies: Seq<DroneEnt>, nukes: Seq<NukeEnt>, score: int) -> (
    Seq<DroneEnt>,
    Seq<NukeEnt>,
    int,
)
    decreases enemies.len(),
{
    if enemies.len() == 0 {
        (enemies, nukes, score)
    } else {
        let e = enemies[0];
        let rest = enemies.skip(1);
        match first_nuke_hit_s(e.pos, e.radius.0 as int, nukes) {
            Option::None => {
                let r = nuke_sweep_s(rest, nukes, score);
                (seq![e] + r.0, r.1, r.2)
            },
            Option::Some(j) => {
                nuke_sweep_s(rest, nukes.update(j, nuke_bumped(nukes[j])), score + 1 + nukes[j].nuke.combo)
            },
        }
    }
}

/// The nuke sweep never lowers the score, and with every nuke combo at
/// most `cap` going in, the score grows by at most
/// `1 + cap + enemies.len()` per drone and each combo by at most one
/// per drone.
pub proof fn lemma_nuke_sweep_mono(enemies: Seq<DroneEnt>, nukes: Seq<NukeEnt>, score: int, cap: int)
    requires
        cap >= 0,
        forall|k: int| 0 <= k < nukes.len() ==> (#[trigger] nukes[k]).nuke.combo <= cap,
    ensures
        ({
            let r = nuke_sweep_s(enemies, nukes, score);
            &&& score <= r.2 <= score + (enemies.len() as int) * (1 + cap + (enemies.len() as int))
            &&& r.0.len() <= enemies.len()
            &&& r.1.len() == nukes.len()
            &&& forall|k: int| 0 <= k < r.1.len() ==> (#[trigger] r.1[k]).nuke.combo <= cap
                + enemies.len()
        }),
    decreases enemies.len(),
{
    broadcast use vstd::seq_lib::group_seq_properties;

    if enemies.len() > 0 {
        let e = enemies[0];
        let rest = enemies.skip(1);
        let len = enemies.len() as int;
        match first_nuke_hit_s(e.pos, e.radius.0 as int, nukes) {
            Option::None => {
                lemma_nuke_sweep_mono(rest, nukes, score, cap);
                assert((len - 1) * (1 + cap + (len - 1)) <= len * (1 + cap + len)) by (nonlinear_arith)
                    requires
                        len >= 1,
                        cap >= 0,
                ;
            },
            Option::Some(j) => {
                lemma_first_nuke_hit_in_range(e.pos, e.radius.0 as int, nukes, j);
                let nukes2 = nukes.update(j, nuke_bumped(nukes[j]));
                assert(forall|k: int| 0 <= k < nukes2.len() ==> (#[trigger] nukes2[k]).nuke.combo
                    <= cap + 1);
                lemma_nuke_sweep_mono(rest, nukes2, score + 1 + nukes[j].nuke.combo, cap + 1);
                assert(1 + cap + (len - 1) * (1 + (cap + 1) + (len - 1)) <= len * (1 + cap + len))
                    by (nonlinear_arith)
                    requires
                        len >= 1,
                        cap >= 0,
                ;
            },
        }
    }
}

/// A found first-hit index is in range.
proof fn lemma_first_nuke_hit_in_range(epos: FxVec2, eradius: int, nukes: Seq<NukeEnt>, j: int)
    requires
        first_nuke_hit_s(epos, eradius, nukes) == Option::Some(j),
    ensures
        0 <= j < nukes.len(),
    decreases nukes.len(),
{
    if nukes.len() > 0 {
        if circles_overlap_s(nukes[0].pos, nukes[0].radius.0 as int, epos, eradius) {
        } else {
            match first_nuke_hit_s(epos, eradius, nukes.skip(1)) {
                Option::None => {},
                Option::Some(k) => {
                    lemma_first_nuke_hit_in_range(epos, eradius, nukes.skip(1), k);
                },
            }
        }
    }
}


/// Unfolding step of the sweep at a drone the nukes reach.
proof fn lemma_nuke_step_hit(enemies: Seq<DroneEnt>, i: int, nukes: Seq<NukeEnt>, score: int, j: int)
    requires
        0 <= i < enemies.len(),
        first_nuke_hit_s(enemies[i].pos, enemies[i].radius.0 as int, nukes) == Option::Some(j),
    ensures
        nuke_sweep_s(enemies.skip(i), nukes, score) == nuke_sweep_s(
            enemies.skip(i + 1),
            nukes.update(j, nuke_bumped(nukes[j])),
            score + 1 + nukes[j].nuke.combo,
        ),
{
    broadcast use vstd::seq_lib::group_seq_properties;

    assert(enemies.skip(i)[0] == enemies[i]);
    assert(enemies.skip(i).skip(1) =~= enemies.skip(i + 1));
}

/// Unfolding step of the sweep at a drone no nuke reaches.
proof fn lemma_nuke_step_miss(enemies: Seq<DroneEnt>, i: int, nukes: Seq<NukeEnt>, score: int)
    requires
        0 <= i < enemies.len(),
        first_nuke_hit_s(enemies[i].pos, enemies[i].radius.0 as int, nukes) is None,
    ensures
        ({
            let r = nuke_sweep_s(enemies.skip(i + 1), nukes, score);
            nuke_sweep_s(enemies.skip(i), nukes, score) == (seq![enemies[i]] + r.0, r.1, r.2)
        }),
{
    broadcast use vstd::seq_lib::group_seq_properties;

    assert(enemies.skip(i)[0] == enemies[i]);
    assert(enemies.skip(i).skip(1) =~= enemies.skip(i + 1));
}

/// The nuke collision stage; exact per `nuke_sweep_s`.
#[verifier::rlimit(100)]
#[verifier::spinoff_prover]
pub fn nuke_drone_collision_system(
    drones: &mut Vec<DroneEnt>,
    nukes: &mut Vec<NukeEnt>,
    score: &mut Score,
)
    requires
        forall|j: int|
            0 <= j < old(drones)@.len() ==> drone_in_bounds(
                #[trigger] old(drones)@[j],
                FX_LIM as int,
            ) && drone_wf(old(drones)@[j]),
        forall|k: int| 0 <= k < old(nukes)@.len() ==> nuke_wf(#[trigger] old(nukes)@[k]),
        forall|k: int|
            0 <= k < old(nukes)@.len() ==> (#[trigger] old(nukes)@[k]).nuke.combo <= 0x20000,
        old(drones)@.len() <= 0x1000,
        old(score).0 <= 0x40000000,
    ensures
        (final(drones)@, final(nukes)@, final(score).0 as int) == nuke_sweep_s(
            old(drones)@,
            old(nukes)@,
            old(score).0 as int,
        ),
        final(drones)@.len() <= old(drones)@.len(),
{
    let ghost orig = drones@;
    let ghost total = nuke_sweep_s(orig, nukes@, score.0 as int);
    proof {
        lemma_nuke_sweep_mono(orig, nukes@, score.0 as int, 0x20000);
        let x = orig.len() as int;
        assert(x * (1 + 0x20000 + x) <= 0x21001000) by (nonlinear_arith)
            requires
                0 <= x <= 0x1000,
        ;
        assert(total.2 <= u32::MAX);
    }
    let mut out: Vec<DroneEnt> = Vec::new();
    let mut i: usize = 0;
    proof {
        assert(orig.skip(0) =~= orig);
        assert(out@ + total.0 =~= total.0);
    }
    while i < drones.len()
        invariant
            drones@ == orig,
            i <= orig.len(),
            orig.len() <= 0x1000,
            forall|j: int|
                0 <= j < orig.len() ==> drone_in_bounds(#[trigger] orig[j], FX_LIM as int)
                    && drone_wf(orig[j]),
            forall|k: int| 0 <= k < nukes@.len() ==> nuke_wf(#[trigger] nukes@[k]),
            forall|k: int| 0 <= k < nukes@.len() ==> (#[trigger] nukes@[k]).nuke.combo
                <= 0x20000 + i,
            total.2 <= u32::MAX,
            total == ({
                let r = nuke_sweep_s(orig.skip(i as int), nukes@, score.0 as int);
                (out@ + r.0, r.1, r.2)
            }),
        decreases orig.len() - i,
    {
        let e = drones[i];
        match find_first_nuke(e.pos, e.radius.0, nukes) {
            Some(j) => {
                let n = nukes[j];
                let bumped = NukeEnt {
                    pos: n.pos,
                    radius: n.radius,
                    nuke: Nuke { combo: n.nuke.combo + 1, timer: n.nuke.timer },
                    alpha: n.alpha,
                };
                proof {
                    lemma_nuke_step_hit(orig, i as int, nukes@, score.0 as int, j as int);
                    assert(bumped == nuke_bumped(nukes@[j as int]));
                    lemma_nuke_sweep_mono(
                        orig.skip(i as int + 1),
                        nukes@.update(j as int, nuke_bumped(nukes@[j as int])),
                        score.0 as int + 1 + n.nuke.combo as int,
                        0x20000 + i + 1,
                    );
                }
                score.0 = score.0 + 1 + n.nuke.combo;
                nukes[j] = bumped;
            },
            None => {
                let ghost before = out@;
                proof {
                    lemma_nuke_step_miss(orig, i as int, nukes@, score.0 as int);
                }
                out.push(e);
                proof {
                    let r = nuke_sweep_s(orig.skip(i as int + 1), nukes@, score.0 as int);
                    assert(before + (seq![e] + r.0) =~= out@ + r.0);
                }
            },
        }
        i = i + 1;
    }
    proof {
        assert(orig.skip(i as int) =~= Seq::<DroneEnt>::empty());
        assert(out@ + Seq::<DroneEnt>::empty() =~= out@);
    }
    *drones = out;
}

/// Side length of a drone's body and weak spot (16 units).
pub const DRONE_SIDE: i64 = 1048576;

/// The flier's body radius (16 units).
pub const FLIER_RADIUS: i64 = 1048576;

/// The flier's starting health.
pub const FLIER_HEALTH: u8 = 3;

/// The whole simulation state of one session.
#[derive(Debug)]
pub struct GameWorld {
    pub config: GameConfig,
    pub state: GameState,
    pub score: Score,
    pub flier: Option<Flier>,
    pub drones: Vec<DroneEnt>,
    pub nukes: Vec<NukeEnt>,
    pub respawn: EnemyRespawnTimer,
}

/// Spawn scheduling state for drones.
#[derive(Clone, Copy, Debug, PartialEq, Eq, Structural)]
pub struct EnemyRespawnTimer {
    pub timer: Option<Timer>,
}

/// The flier's fresh state: at the origin, still, full health, no
/// ability active, fully opaque.
pub open spec fn initial_flier() -> Flier {
    Flier {
        pos: FxVec2 { x: 0, y: 0 },
        vel: Velocity { current: FxVec2 { x: 0, y: 0 }, target: FxVec2 { x: 0, y: 0 } },
        radius: Radius(FLIER_RADIUS),
        health: Health { current: FLIER_HEALTH, max: FLIER_HEALTH },
        ground: GroundState::Airborne,
        charging: Option::None,
        dashing: Option::None,
        effect: Option::None,
        immunity: Option::None,
        blink: Option::None,
        alpha: SCALE,
        arrow: DashDirectionArrow {
            direction: FxVec2 { x: 0, y: 0 },
            visibility: false,
            size: 0,
            full_charged: false,
        },
    }
}

/// (Re)spawn the flier: the score resets, every live nuke and any
/// previous flier despawn, and a fresh flier appears at the origin.
pub fn spawn_player(w: &mut GameWorld)
    ensures
        final(w).flier == Some(initial_flier()),
        final(w).score.0 == 0,
        final(w).nukes@.len() == 0,
        final(w).drones == old(w).drones,
        final(w).config == old(w).config,
        final(w).state == old(w).state,
        final(w).respawn == old(w).respawn,
{
    w.score.0 = 0;
    w.nukes.clear();
    w.flier = Some(
        Flier {
            pos: FxVec2 { x: 0, y: 0 },
            vel: Velocity::zero(),
            radius: Radius(FLIER_RADIUS),
            health: Health::new(FLIER_HEALTH),
            ground: GroundState::Airborne,
            charging: None,
            dashing: None,
            effect: None,
            immunity: None,
            blink: None,
            alpha: SCALE,
            arrow: DashDirectionArrow::hidden(),
        },
    );
}

/// A freshly spawned flying drone: random position high in the level, a
/// random orthogonal weak spot, random patrol and hover parameters, one
/// hit point, and permanent exemption from gravity.
pub fn spawn_fly_enemy() -> (d: DroneEnt)
    ensures
        drone_wf(d),
        drone_in_bounds(d, TICK_LIM as int),
        -150 * SCALE <= d.pos.x < 150 * SCALE,
        280 * SCALE <= d.pos.y < 360 * SCALE,
        d.vel == (Velocity { current: FxVec2 { x: 0, y: 0 }, target: FxVec2 { x: 0, y: 0 } }),
        d.radius.0 == DRONE_SIDE,
        d.health == (Health { current: 1, max: 1 }),
        d.wobble is Some,
        d.airborne_exempt,
        d.ground == GroundState::Airborne,
{
    let x = crate::enemy::random_in_range(-150 * SCALE, 150 * SCALE);
    let y = crate::enemy::random_in_range(280 * SCALE, 360 * SCALE);
    DroneEnt {
        pos: FxVec2 { x, y },
        vel: Velocity::zero(),
        radius: Radius(DRONE_SIDE),
        health: Health::new(1),
        weak_spot: WeakSpot::new_ortho(DRONE_SIDE),
        movement: EnemyMovement::new_random(),
        wobble: Some(EnemyWobble::new_random()),
        airborne_exempt: true,
        ground: GroundState::Airborne,
    }
}

/// A freshly spawned ground drone: random position resting on the
/// floor, its weak spot underneath, a random patrol, one hit point, and
/// subject to gravity.
pub fn spawn_ground_enemy(cfg: &GameConfig) -> (d: DroneEnt)
    requires
        cfg.wf(),
        cfg.floor_y + DRONE_SIDE <= TICK_LIM,
        -TICK_LIM <= cfg.floor_y,
    ensures
        drone_wf(d),
        drone_in_bounds(d, TICK_LIM as int),
        -150 * SCALE <= d.pos.x < 150 * SCALE,
        d.pos.y == cfg.floor_y + DRONE_SIDE,
        d.vel == (Velocity { current: FxVec2 { x: 0, y: 0 }, target: FxVec2 { x: 0, y: 0 } }),
        d.radius.0 == DRONE_SIDE,
        d.health == (Health { current: 1, max: 1 }),
        d.weak_spot.location == crate::enemy::WeakSpotLocation::South,
        d.wobble is None,
        !d.airborne_exempt,
        d.ground == GroundState::Airborne,
{
    let x = crate::enemy::random_in_range(-150 * SCALE, 150 * SCALE);
    let y = cfg.floor_y + DRONE_SIDE;
    DroneEnt {
        pos: FxVec2 { x, y },
        vel: Velocity::zero(),
        radius: Radius(DRONE_SIDE),
        health: Health::new(1),
        weak_spot: WeakSpot::new(crate::enemy::WeakSpotLocation::South, DRONE_SIDE),
        movement: EnemyMovement::new_random(),
        wobble: None,
        airborne_exempt: false,
        ground: GroundState::Airborne,
    }
}

/// Spawn one drone: a ground drone with probability three in ten, else
/// a flying drone.
pub fn spawn_enemy(cfg: &GameConfig) -> (d: DroneEnt)
    requires
        cfg.wf(),
        cfg.floor_y + DRONE_SIDE <= TICK_LIM,
        -TICK_LIM <= cfg.floor_y,
    ensures
        drone_wf(d),
        drone_in_bounds(d, TICK_LIM as int),
        d.health == (Health { current: 1, max: 1 }),
        d.radius.0 == DRONE_SIDE,
        d.airborne_exempt == (d.wobble is Some),
        -150 * SCALE <= d.pos.x < 150 * SCALE,
        !d.airborne_exempt ==> d.pos.y == cfg.floor_y + DRONE_SIDE && d.weak_spot.location
            == crate::enemy::WeakSpotLocation::South,
        d.airborne_exempt ==> 280 * SCALE <= d.pos.y < 360 * SCALE,
{
    let roll = crate::enemy::random_in_range(0, 10);
    if roll < 3 {
        spawn_ground_enemy(cfg)
    } else {
        spawn_fly_enemy()
    }
}

/// Clear the field and spawn the opening wave of three drones.
pub fn spawn_enemies(w: &mut GameWorld)
    requires
        old(w).config.wf(),
        old(w).config.floor_y + DRONE_SIDE <= TICK_LIM,
        -TICK_LIM <= old(w).config.floor_y,
    ensures
        final(w).drones@.len() == 3,
        forall|j: int|
            0 <= j < final(w).drones@.len() ==> drone_wf(#[trigger] final(w).drones@[j])
                && drone_in_bounds(final(w).drones@[j], TICK_LIM as int),
        final(w).flier == old(w).flier,
        final(w).score == old(w).score,
        final(w).nukes == old(w).nukes,
        final(w).config == old(w).config,
        final(w).state == old(w).state,
{
    w.drones.clear();
    let cfg = w.config;
    let a = spawn_enemy(&cfg);
    w.drones.push(a);
    let b = spawn_enemy(&cfg);
    w.drones.push(b);
    let c = spawn_enemy(&cfg);
    w.drones.push(c);
}

/// The respawn scheduler: with more than three drones alive the timer
/// rests; otherwise one is armed with a random two-to-four-second
/// delay, and when it runs out, one to three fresh drones spawn.
/// Returns how many spawned this tick.
pub fn enemy_respawn_system(w: &mut GameWorld, dt: i64) -> (spawned: usize)
    requires
        old(w).config.wf(),
        old(w).config.floor_y + DRONE_SIDE <= TICK_LIM,
        -TICK_LIM <= old(w).config.floor_y,
        0 <= dt <= SCALE,
        (old(w).respawn.timer matches Some(t) ==> t.wf()),
        forall|j: int|
            0 <= j < old(w).drones@.len() ==> drone_wf(#[trigger] old(w).drones@[j])
                && drone_in_bounds(old(w).drones@[j], TICK_LIM as int),
    ensures
        old(w).drones@.len() > 3 ==> final(w).respawn.timer is None && spawned == 0
            && final(w).drones == old(w).drones,
        (final(w).respawn.timer matches Some(t) ==> t.wf()),
        spawned <= 3,
        final(w).drones@.len() == old(w).drones@.len() + spawned,
        forall|j: int|
            0 <= j < old(w).drones@.len() ==> #[trigger] final(w).drones@[j] == old(w).drones@[j],
        forall|j: int|
            0 <= j < final(w).drones@.len() ==> drone_wf(#[trigger] final(w).drones@[j])
                && drone_in_bounds(final(w).drones@[j], TICK_LIM as int),
        final(w).flier == old(w).flier,
        final(w).score == old(w).score,
        final(w).nukes == old(w).nukes,
        final(w).config == old(w).config,
        final(w).state == old(w).state,
{
    if w.drones.len() > 3 {
        w.respawn.timer = None;
        return 0;
    }
    if w.respawn.timer.is_none() {
        let duration = crate::enemy::random_in_range(2 * SCALE, 4 * SCALE);
        w.respawn.timer = Some(Timer::new(duration, crate::timer::TimerMode::Once));
    }
    let mut fired = false;
    match &mut w.respawn.timer {
        Some(t) => {
            t.tick(dt);
            fired = t.finished;
        },
        None => {},
    }
    if fired {
        let n = crate::enemy::random_in_range(1, 4);
        let cfg = w.config;
        let ghost before = w.drones@;
        let mut k: i64 = 0;
        while k < n
            invariant
                0 <= k,
                n <= 3,
                k <= n,
                w.respawn == final(w).respawn || true,
                w.flier == old(w).flier,
                w.score == old(w).score,
                w.nukes == old(w).nukes,
                w.config == old(w).config,
                w.state == old(w).state,
                (w.respawn.timer matches Some(t) ==> t.wf()),
                cfg.wf(),
                cfg.floor_y + DRONE_SIDE <= TICK_LIM,
                -TICK_LIM <= cfg.floor_y,
                w.drones@.len() == before.len() + k,
                forall|j: int| 0 <= j < before.len() ==> #[trigger] w.drones@[j] == before[j],
                forall|j: int|
                    before.len() <= j < w.drones@.len() ==> drone_wf(#[trigger] w.drones@[j])
                        && drone_in_bounds(w.drones@[j], TICK_LIM as int),
            decreases n - k,
        {
            let d = spawn_enemy(&cfg);
            w.drones.push(d);
            k = k + 1;
        }
        return n as usize;
    }
    0
}

/// Everything a tick reports to presentation, audio and HUD
/// collaborators; the core does not depend on their existence.
#[derive(Clone, Copy, Debug, PartialEq, Eq, Structural)]
pub struct TickEvents {
    /// Impact speed, present when the flier lands this tick.
    pub landed: Option<i64>,
    /// The flier took body damage.
    pub took_damage: bool,
    /// The flier's health reached zero; the session ends.
    pub game_over: bool,
    /// Drones destroyed this tick, by weak-point hits and nukes.
    pub destroyed: u32,
    /// A full-power downward dash landing spawned a nuke.
    pub nuke_spawned: bool,
    /// The charge arrow reached full size for the first time.
    pub full_charge_cue: bool,
    /// Charge-loop sound to stop, if a dash was released.
    pub stopped_sound: Option<u64>,
    /// Arrow offset from the flier and drawn scale, for presentation.
    pub arrow_offset: FxVec2,
    pub arrow_scale_y: i64,
}

pub open spec fn no_events() -> TickEvents {
    TickEvents {
        landed: Option::None,
        took_damage: false,
        game_over: false,
        destroyed: 0,
        nuke_spawned: false,
        full_charge_cue: false,
        stopped_sound: Option::None,
        arrow_offset: FxVec2 { x: 0, y: 0 },
        arrow_scale_y: 0,
    }
}

/// Structural facts the flier keeps at a tick boundary.
pub open spec fn flier_wf(f: Flier) -> bool {
    &&& vec_bounded(f.pos, TICK_LIM as int)
    &&& vel_bounded(f.vel, TICK_LIM as int)
    &&& 0 < f.radius.0 <= SIM_LIM
    &&& f.health.wf()
    &&& (f.charging matches Some(c) ==> 0 <= c.power <= SIM_LIM && -SCALE <= c.dir.x <= SCALE
        && -SCALE <= c.dir.y <= SCALE)
    &&& (f.dashing matches Some(d) ==> d.timer.wf() && -SCALE <= d.power.x <= SCALE && -SCALE
        <= d.power.y <= SCALE)
    &&& (f.effect matches Some(e) ==> e.timer.wf() && 0 <= e.power <= SCALE && e.combo <= 0x10000)
    &&& (f.immunity matches Some(ci) ==> ci.timer.wf())
    &&& (f.blink matches Some(b) ==> b.timer.wf())
    &&& -SCALE <= f.arrow.direction.x <= SCALE
    &&& -SCALE <= f.arrow.direction.y <= SCALE
    &&& 0 <= f.arrow.size <= SIM_LIM
}

/// Structural facts the whole world keeps at a tick boundary; the
/// caller re-establishes them before the next tick.
pub open spec fn world_wf(w: GameWorld) -> bool {
    &&& w.config.wf()
    &&& (w.flier matches Some(f) ==> flier_wf(f))
    &&& w.drones@.len() <= 0x1000
    &&& (forall|j: int|
        0 <= j < w.drones@.len() ==> drone_wf(#[trigger] w.drones@[j]) && drone_in_bounds(
            w.drones@[j],
            TICK_LIM as int,
        ))
    &&& w.nukes@.len() <= 0x1000
    &&& (forall|k: int|
        0 <= k < w.nukes@.len() ==> nuke_wf(#[trigger] w.nukes@[k]) && (w.nukes@[k]).nuke.combo
            <= 0x10000)
    &&& w.score.0 <= 0x10000000
    &&& (w.respawn.timer matches Some(t) ==> t.wf())
}

/// The ability stage of one tick on the flier, in system order:
/// steering (only while idle), the ongoing dash, the dash-effect
/// countdown, the start of a charge on a held intent, the ongoing
/// charge, the aim arrow, the level bounds, and the nuke trigger.
/// Returns the flier, the stopped charge sound, the full-charge cue,
/// the arrow offset and scale, and a spawned nuke.
pub open spec fn ability_s(
    f: Flier,
    input: Input,
    mouse: FxVec2,
    charge_sound: Option<u64>,
    cfg: GameConfig,
    dt: int,
) -> (Flier, Option<u64>, bool, FxVec2, int, Option<Nuke>) {
    let f1 = if f.charging is None && f.dashing is None {
        Flier { vel: movement_tick(f.vel, input_dir_s(input), cfg, dt), ..f }
    } else {
        f
    };
    let f2 = match f1.dashing {
        Option::Some(d) => {
            let r = dash_tick(f1.vel, d, cfg, dt);
            Flier { vel: r.0, dashing: r.1, ..f1 }
        },
        Option::None => f1,
    };
    let f3 = match f2.effect {
        Option::Some(e) => Flier { effect: dash_effect_tick(e, dt), ..f2 },
        Option::None => f2,
    };
    let f4 = if f3.charging is None && f3.dashing is None && input.dash_held() {
        let r = start_charge_tick(f3.vel, f3.arrow, f3.pos, mouse, charge_sound);
        Flier { vel: r.0, arrow: r.1, charging: Option::Some(r.2), ..f3 }
    } else {
        f3
    };
    let step5 = match f4.charging {
        Option::Some(c) => match charge_tick(c, f4.arrow, f4.pos, mouse, input.dash_held(), cfg, dt) {
            ChargeStep::Held { charging, arrow } => (
                Flier { charging: Option::Some(charging), arrow, ..f4 },
                Option::None::<u64>,
            ),
            ChargeStep::Released { dashing, effect, arrow, stopped_sound } => (
                Flier {
                    charging: Option::None,
                    dashing: Option::Some(dashing),
                    effect: Option::Some(effect),
                    arrow,
                    ..f4
                },
                stopped_sound,
            ),
        },
        Option::None => (f4, Option::None::<u64>),
    };
    let f5 = step5.0;
    let ar = arrow_tick(f5.arrow);
    let f6 = Flier { arrow: ar.0, ..f5 };
    let b = crate::physics::bounds_tick(f6.pos, f6.vel, cfg);
    let f7 = Flier { pos: b.0, vel: b.1, ..f6 };
    let step8: (Flier, Option<Nuke>) = match f7.effect {
        Option::Some(e) => if nuke_trigger(f7.pos, e, cfg) {
            (
                Flier { dashing: Option::None, effect: Option::None, ..f7 },
                Option::Some(
                    Nuke {
                        timer: Timer {
                            mode: TimerMode::Once,
                            duration: NUKE_DURATION,
                            elapsed: 0,
                            finished: false,
                        },
                        combo: 0,
                    },
                ),
            )
        } else {
            (f7, Option::None)
        },
        Option::None => (f7, Option::None),
    };
    (step8.0, step5.1, ar.3, ar.1, ar.2, step8.1)
}

/// Run the ability stage; exact per `ability_s`.
#[verifier::rlimit(100)]
pub fn player_ability_systems(
    f: &mut Flier,
    input: Input,
    mouse: FxVec2,
    charge_sound: Option<u64>,
    cfg: &GameConfig,
    dt: i64,
) -> (out: (Option<u64>, bool, FxVec2, i64, Option<Nuke>))
    requires
        cfg.wf(),
        0 <= dt <= SCALE,
        flier_wf(*old(f)),
        vec_bounded(mouse, TICK_LIM as int),
    ensures
        (*final(f), out.0, out.1, out.2, out.3 as int, out.4) == ability_s(
            *old(f),
            input,
            mouse,
            charge_sound,
            *cfg,
            dt as int,
        ),
        vec_bounded(final(f).pos, SIM_LIM as int),
        vel_bounded(final(f).vel, SIM_LIM as int),
        0 < final(f).radius.0 <= SIM_LIM,
        final(f).health == old(f).health,
        final(f).ground == old(f).ground,
        final(f).immunity == old(f).immunity,
        final(f).blink == old(f).blink,
        (final(f).dashing matches Some(d) ==> d.timer.wf() && -SCALE <= d.power.x <= SCALE
            && -SCALE <= d.power.y <= SCALE),
        (final(f).effect matches Some(e) ==> e.timer.wf() && 0 <= e.power <= SCALE && e.combo
            <= 0x10000),
{
    if f.charging.is_none() && f.dashing.is_none() {
        let dir = input.dir();
        player_movement_system(&mut f.vel, dir, cfg, dt);
    }
    player_dash_system(&mut f.vel, &mut f.dashing, cfg, dt);
    player_dash_effect_system(&mut f.effect, dt);
    if f.charging.is_none() && f.dashing.is_none() && input.dash() {
        let pos = f.pos;
        let started = player_start_charge_dash_system(
            pos,
            &mut f.vel,
            &mut f.arrow,
            mouse,
            charge_sound,
        );
        f.charging = Some(started);
    }
    let mut stopped: Option<u64> = None;
    let charging_now = f.charging;
    match charging_now {
        Some(c) => {
            let step = player_charge_dash_system(f.pos, &c, &f.arrow, input.dash(), mouse, cfg, dt);
            match step {
                ChargeStep::Held { charging, arrow } => {
                    f.charging = Some(charging);
                    f.arrow = arrow;
                },
                ChargeStep::Released { dashing, effect, arrow, stopped_sound } => {
                    f.charging = None;
                    f.dashing = Some(dashing);
                    f.effect = Some(effect);
                    f.arrow = arrow;
                    stopped = stopped_sound;
                },
            }
        },
        None => {},
    }
    let ar = dash_arrow_system(&mut f.arrow);
    crate::physics::player_bounds_system(&mut f.pos, &mut f.vel, cfg);
    let spawned = player_nuke_system(f.pos, &mut f.dashing, &mut f.effect, cfg);
    (stopped, ar.2, ar.0, ar.1, spawned)
}

/// The locomotion stage of one tick on the flier: gravity (unless
/// grounded or mid-dash, reduced while charging), friction, smoothing
/// and integration, then the floor snap.  Returns the flier and the
/// landing report.
pub open spec fn flier_motion_s(f: Flier, cfg: GameConfig, dt: int) -> (Flier, Option<i64>) {
    let v1 = if f.ground != GroundState::Grounded && f.dashing is None {
        gravity_tick(f.vel, f.charging is Some, cfg, dt)
    } else {
        f.vel
    };
    let v2 = friction_tick(v1, f.ground == GroundState::Grounded, cfg, dt);
    let pv = apply_velocity_tick(f.pos, v2, cfg, dt);
    let g = grounding_tick(pv.0, pv.1, f.ground, cfg);
    let ev = crate::physics::landing_report(pv.0, pv.1, f.ground, cfg);
    (Flier { pos: g.0, vel: g.1, ground: g.2, ..f }, ev)
}

/// Run the locomotion stage on the flier; exact per `flier_motion_s`.
#[verifier::rlimit(100)]
#[verifier::spinoff_prover]
pub fn flier_motion(f: &mut Flier, cfg: &GameConfig, dt: i64) -> (landed: Option<i64>)
    requires
        cfg.wf(),
        0 <= dt <= SCALE,
        vec_bounded(old(f).pos, SIM_LIM as int),
        vel_bounded(old(f).vel, SIM_LIM as int),
    ensures
        (*final(f), landed) == flier_motion_s(*old(f), *cfg, dt as int),
        vec_bounded(final(f).pos, FX_LIM as int),
        vel_bounded(final(f).vel, FX_LIM as int),
        final(f).radius == old(f).radius,
        final(f).health == old(f).health,
        final(f).charging == old(f).charging,
        final(f).dashing == old(f).dashing,
        final(f).effect == old(f).effect,
        final(f).immunity == old(f).immunity,
        final(f).blink == old(f).blink,
        final(f).arrow == old(f).arrow,
        final(f).alpha == old(f).alpha,
{
    let grounded = matches!(f.ground, GroundState::Grounded);
    if !grounded && f.dashing.is_none() {
        let charging = f.charging.is_some();
        gravity_system(&mut f.vel, charging, cfg, dt);
    }
    friction_system(&mut f.vel, grounded, cfg, dt);
    apply_velocity_system(&mut f.pos, &mut f.vel, cfg, dt);
    apply_grounding_system(&mut f.pos, &mut f.vel, &mut f.ground, cfg)
}

/// The countdown changes no nuke's combo counter.
proof fn lemma_nukes_tick_combo(nukes: Seq<NukeEnt>, dt: int, cap: int)
    requires
        forall|k: int| 0 <= k < nukes.len() ==> (#[trigger] nukes[k]).nuke.combo <= cap,
    ensures
        forall|k: int|
            0 <= k < nukes_tick_s(nukes, dt).len() ==> (#[trigger] nukes_tick_s(nukes, dt)[k])
                .nuke.combo <= cap,
        nukes_tick_s(nukes, dt).len() <= nukes.len(),
    decreases nukes.len(),
{
    broadcast use vstd::seq_lib::group_seq_properties;

    if nukes.len() > 0 {
        assert(forall|k: int|
            0 <= k < nukes.skip(1).len() ==> (#[trigger] nukes.skip(1)[k]).nuke.combo <= cap);
        lemma_nukes_tick_combo(nukes.skip(1), dt, cap);
        let n = nukes[0];
        let rest = nukes_tick_s(nukes.skip(1), dt);
        let stepped = crate::player::nuke_tick(n.nuke, dt);
        match stepped.0 {
            Option::None => {},
            Option::Some(nn) => {
                let head = NukeEnt { nuke: nn, alpha: stepped.1 as u8, ..n };
                assert(forall|k: int|
                    0 <= k < (seq![head] + rest).len() ==> (#[trigger] (seq![head] + rest)[k])
                        .nuke.combo <= cap);
            },
        }
    }
}

/// The full deterministic tick: the ability stage, the nuke countdown,
/// the locomotion of the flier and every drone, the collision
/// resolution in order (body, weak point, nuke), and the immunity and
/// blink timers.  The drones' patrol and hover intents are written by
/// their own systems before the tick; spawning is scheduled separately.
/// Outside the running state, or with no flier alive, the player stages
/// are skipped and nothing fails.
pub open spec fn tick_flier_s(
    w: GameWorld,
    f0: Flier,
    input: Input,
    mouse: FxVec2,
    charge_sound: Option<u64>,
    dt: int,
) -> (Flier, Seq<DroneEnt>, Seq<NukeEnt>, int, GameState, TickEvents) {
    let cfg = w.config;
    let a = ability_s(f0, input, mouse, charge_sound, cfg, dt);
    let nukes1 = if a.5 is Some {
        w.nukes@ + seq![
            NukeEnt { pos: a.0.pos, radius: Radius(NUKE_RADIUS), nuke: a.5.unwrap(), alpha: 255 },
        ]
    } else {
        w.nukes@
    };
    let nukes2 = nukes_tick_s(nukes1, dt);
    let fm = flier_motion_s(a.0, cfg, dt);
    let f1 = fm.0;
    let drones1 = drones_motion_all_s(w.drones@, cfg, dt);
    let body = if f1.immunity is None && f1.effect is None {
        match first_body_hit_s(f1.pos, f1.radius.0 as int, drones1) {
            Option::Some(j) => body_hit_apply_s(f1, drones1[j].pos),
            Option::None => (f1, false, false),
        }
    } else {
        (f1, false, false)
    };
    let f2 = body.0;
    let run_dmg = f2.effect is Some && f2.immunity is None;
    let dmg = if run_dmg {
        damage_sweep_s(
            f2.pos,
            f2.radius.0 as int,
            f2.effect.unwrap().power as int,
            drones1,
            f2.vel,
            f2.effect.unwrap().combo as int,
            w.score.0 as int,
        )
    } else {
        (drones1, f2.vel, 0int, w.score.0 as int)
    };
    let f3 = if run_dmg {
        Flier {
            vel: dmg.1,
            effect: Option::Some(DashEffect { combo: dmg.2 as u32, ..f2.effect.unwrap() }),
            ..f2
        }
    } else {
        f2
    };
    let ns = nuke_sweep_s(dmg.0, nukes2, dmg.3);
    let im = immunity_tick(f3.immunity, f3.blink, f3.alpha as int, dt);
    let f4 = Flier { immunity: im.0, blink: im.1, alpha: im.2 as i64, ..f3 };
    let bl = blink_tick(f4.blink, f4.alpha as int, dt);
    let f5 = Flier { blink: bl.0, alpha: bl.1 as i64, ..f4 };
    let state = if body.2 {
        GameState::GameOver
    } else {
        GameState::Running
    };
    let ev = TickEvents {
        landed: fm.1,
        took_damage: body.1,
        game_over: body.2,
        destroyed: (drones1.len() - ns.0.len()) as u32,
        nuke_spawned: a.5 is Some,
        full_charge_cue: a.2,
        stopped_sound: a.1,
        arrow_offset: a.3,
        arrow_scale_y: a.4 as i64,
    };
    (f5, ns.0, ns.1, ns.2, state, ev)
}

/// Advance the whole world by one tick; exact per `tick_flier_s` while
/// the session runs with a live flier.  With no flier the drones, the
/// nuke countdown and the nuke collisions still advance; outside the
/// running state nothing changes.
#[verifier::rlimit(100)]
#[verifier::spinoff_prover]
pub fn tick(
    w: &mut GameWorld,
    input: Input,
    mouse: FxVec2,
    charge_sound: Option<u64>,
    dt: i64,
) -> (ev: TickEvents)
    requires
        world_wf(*old(w)),
        0 <= dt <= SCALE,
        vec_bounded(mouse, TICK_LIM as int),
    ensures
        final(w).config == old(w).config,
        final(w).respawn == old(w).respawn,
        old(w).state != GameState::Running ==> *final(w) == *old(w) && ev == no_events(),
        old(w).state == GameState::Running ==> match old(w).flier {
            Option::None => ({
                let drones1 = drones_motion_all_s(old(w).drones@, old(w).config, dt as int);
                let nukes2 = nukes_tick_s(old(w).nukes@, dt as int);
                let ns = nuke_sweep_s(drones1, nukes2, old(w).score.0 as int);
                &&& final(w).flier is None
                &&& final(w).drones@ == ns.0
                &&& final(w).nukes@ == ns.1
                &&& final(w).score.0 as int == ns.2
                &&& final(w).state == old(w).state
                &&& ev == (TickEvents {
                    destroyed: (drones1.len() - ns.0.len()) as u32,
                    ..no_events()
                })
            }),
            Option::Some(f0) => ({
                let r = tick_flier_s(*old(w), f0, input, mouse, charge_sound, dt as int);
                &&& final(w).flier == Some(r.0)
                &&& final(w).drones@ == r.1
                &&& final(w).nukes@ == r.2
                &&& final(w).score.0 as int == r.3
                &&& final(w).state == r.4
                &&& ev == r.5
            }),
        },
{
    if !matches!(w.state, GameState::Running) {
        return TickEvents {
            landed: None,
            took_damage: false,
            game_over: false,
            destroyed: 0,
            nuke_spawned: false,
            full_charge_cue: false,
            stopped_sound: None,
            arrow_offset: FxVec2 { x: 0, y: 0 },
            arrow_scale_y: 0,
        };
    }
    let cfg = w.config;
    let flier0 = w.flier;
    match flier0 {
        None => {
            drones_motion_system(&mut w.drones, &cfg, dt);
            proof {
                let m = drones_motion_all_s(old(w).drones@, old(w).config, dt as int);
                assert(w.drones@.len() == m.len());
                assert(forall|j: int| 0 <= j < m.len() ==> #[trigger] m[j] == drone_motion_s(
                    old(w).drones@[j],
                    old(w).config,
                    dt as int,
                ));
                assert(w.drones@ =~= m);
            }
            nuke_system_all(&mut w.nukes, dt);
            proof {
                lemma_nukes_tick_combo(old(w).nukes@, dt as int, 0x10000);
                assert(forall|k: int|
                    0 <= k < w.nukes@.len() ==> (#[trigger] w.nukes@[k]).nuke.combo <= 0x20000);
                lemma_nuke_sweep_mono(w.drones@, w.nukes@, w.score.0 as int, 0x20000);
            }
            let before: usize = w.drones.len();
            nuke_drone_collision_system(&mut w.drones, &mut w.nukes, &mut w.score);
            let after: usize = w.drones.len();
            proof {
                let drones1 = drones_motion_all_s(old(w).drones@, old(w).config, dt as int);
                let nukes2 = nukes_tick_s(old(w).nukes@, dt as int);
                let ns = nuke_sweep_s(drones1, nukes2, old(w).score.0 as int);
                assert(w.drones@ == ns.0);
                assert(w.nukes@ == ns.1);
                assert(w.score.0 as int == ns.2);
                assert(before == drones1.len());
                assert(after == ns.0.len());
            }
            let evv = TickEvents {
                landed: None,
                took_damage: false,
                game_over: false,
                destroyed: (before - after) as u32,
                nuke_spawned: false,
                full_charge_cue: false,
                stopped_sound: None,
                arrow_offset: FxVec2 { x: 0, y: 0 },
                arrow_scale_y: 0,
            };
            proof {
                let drones1 = drones_motion_all_s(old(w).drones@, old(w).config, dt as int);
                let nukes2 = nukes_tick_s(old(w).nukes@, dt as int);
                let ns = nuke_sweep_s(drones1, nukes2, old(w).score.0 as int);
                assert(evv == (TickEvents {
                    destroyed: (drones1.len() - ns.0.len()) as u32,
                    ..no_events()
                }));
            }
            evv
        },
        Some(f) => {
            let mut f = f;
            let ghost f_init = f;
            let ab = player_ability_systems(&mut f, input, mouse, charge_sound, &cfg, dt);
            match ab.4 {
                Some(nk) => {
                    let ent = NukeEnt { pos: f.pos, radius: Radius(NUKE_RADIUS), nuke: nk, alpha: 255 };
                    let ghost prev = w.nukes@;
                    w.nukes.push(ent);
                    proof {
                        assert(w.nukes@ =~= prev + seq![ent]);
                    }
                },
                None => {},
            }
            let ghost nukes1 = w.nukes@;
            proof {
                assert(forall|k: int|
                    0 <= k < nukes1.len() ==> (#[trigger] nukes1[k]).nuke.combo <= 0x10000);
            }
            nuke_system_all(&mut w.nukes, dt);
            proof {
                lemma_nukes_tick_combo(nukes1, dt as int, 0x10000);
                assert(forall|k: int|
                    0 <= k < w.nukes@.len() ==> (#[trigger] w.nukes@[k]).nuke.combo <= 0x10000);
            }
            let landed = flier_motion(&mut f, &cfg, dt);
            drones_motion_system(&mut w.drones, &cfg, dt);
            proof {
                let m = drones_motion_all_s(old(w).drones@, old(w).config, dt as int);
                assert(w.drones@.len() == m.len());
                assert(forall|j: int| 0 <= j < m.len() ==> #[trigger] m[j] == drone_motion_s(
                    old(w).drones@[j],
                    old(w).config,
                    dt as int,
                ));
                assert(w.drones@ =~= m);
            }
            let ghost drones1 = w.drones@;
            let mut took = false;
            let mut over = false;
            if f.immunity.is_none() && f.effect.is_none() {
                let out = player_drone_collision_system(&mut f, &w.drones);
                took = out.0;
                over = out.1;
            }
            let before: usize = w.drones.len();
            let run_dmg = f.effect.is_some() && f.immunity.is_none();
            if run_dmg {
                let mut eff = match f.effect {
                    Some(e) => e,
                    None => {
                        proof {
                            assert(false);
                        }
                        DashEffect::new(FxVec2 { x: 0, y: 0 }, 0, 0)
                    },
                };
                proof {
                    lemma_damage_sweep_mono(
                        f.pos,
                        f.radius.0 as int,
                        eff.power as int,
                        drones1,
                        f.vel,
                        eff.combo as int,
                        w.score.0 as int,
                    );
                    lemma_damage_sweep_wf(
                        f.pos,
                        f.radius.0 as int,
                        eff.power as int,
                        drones1,
                        f.vel,
                        eff.combo as int,
                        w.score.0 as int,
                    );
                }
                let fpos = f.pos;
                let frad = f.radius.0;
                player_damage_drone_system(
                    fpos,
                    frad,
                    &mut f.vel,
                    &mut eff,
                    &mut w.drones,
                    &mut w.score,
                );
                f.effect = Some(eff);
            }
            proof {
                lemma_nuke_sweep_mono(w.drones@, w.nukes@, w.score.0 as int, 0x20000);
            }
            nuke_drone_collision_system(&mut w.drones, &mut w.nukes, &mut w.score);
            let after: usize = w.drones.len();
            collision_immunity_system(&mut f.immunity, &mut f.blink, &mut f.alpha, dt);
            blink_system(&mut f.blink, &mut f.alpha, dt);
            if over {
                w.state = GameState::GameOver;
            }
            w.flier = Some(f);
            proof {
                let r = tick_flier_s(*old(w), f_init, input, mouse, charge_sound, dt as int);
                assert(w.flier == Some(r.0));
                assert(w.drones@ == r.1);
                assert(w.nukes@ == r.2);
                assert(w.score.0 as int == r.3);
                assert(w.state == r.4);
                assert(landed == r.5.landed);
                assert(took == r.5.took_damage);
                assert(over == r.5.game_over);
                assert(((before - after) as u32) == r.5.destroyed);
                assert(ab.1 == r.5.full_charge_cue);
                assert(ab.0 == r.5.stopped_sound);
                assert(ab.2 == r.5.arrow_offset);
                assert(ab.3 as int == r.5.arrow_scale_y as int);
            }
            TickEvents {
                landed,
                took_damage: took,
                game_over: over,
                destroyed: (before - after) as u32,
                nuke_spawned: matches!(ab.4, Some(_)),
                full_charge_cue: ab.1,
                stopped_sound: ab.0,
                arrow_offset: ab.2,
                arrow_scale_y: ab.3,
            }
        },
    }
}


/// One smoothing step of the camera toward the flier: the target is
/// clamped to the camera window, then each axis lerps toward it by
/// `cam_smoothing * dt`.
pub open spec fn camera_follow_s(cam: FxVec2, target: FxVec2, cfg: GameConfig, dt: int) -> FxVec2 {
    let tx = crate::fx::clamp_i(target.x as int, cfg.cam_min_x as int, cfg.cam_max_x as int);
    let ty = crate::fx::clamp_i(target.y as int, cfg.cam_min_y as int, cfg.cam_max_y as int);
    let t = crate::fx::fxmul(cfg.cam_smoothing as int, dt);
    FxVec2 {
        x: crate::fx::fxlerp(cam.x as int, tx, t) as i64,
        y: crate::fx::fxlerp(cam.y as int, ty, t) as i64,
    }
}

/// Follow the flier with the camera; exact per `camera_follow_s`.  The
/// smoothing fraction must stay within one tick, which every sane
/// tuning satisfies.
pub fn camera_follow(cam: &mut FxVec2, target: FxVec2, cfg: &GameConfig, dt: i64)
    requires
        cfg.wf(),
        0 <= dt <= SCALE,
        crate::fx::fxmul(cfg.cam_smoothing as int, dt as int) <= SCALE,
        vec_bounded(*old(cam), FX_LIM as int),
        vec_bounded(target, FX_LIM as int),
    ensures
        *final(cam) == camera_follow_s(*old(cam), target, *cfg, dt as int),
        vec_bounded(*final(cam), FX_LIM as int),
{
    let tx = crate::fx::clamp_fx(target.x, cfg.cam_min_x, cfg.cam_max_x);
    let ty = crate::fx::clamp_fx(target.y, cfg.cam_min_y, cfg.cam_max_y);
    let t = crate::fx::mul_fx(cfg.cam_smoothing, dt);
    proof {
        crate::fx::lemma_fxmul_fraction(cfg.cam_smoothing as int, dt as int);
    }
    cam.x = crate::fx::lerp_fx(cam.x, tx, t);
    cam.y = crate::fx::lerp_fx(cam.y, ty, t);
}

/// The horizontal offset of a background layer: the camera's position
/// scaled by the layer's parallax factor, reversed.
pub open spec fn parallax_offset_s(cam_x: int, factor: int) -> int {
    crate::fx::fxmul(-cam_x, factor)
}

/// Place a parallax layer; exact per `parallax_offset_s`.
pub fn parallax_system(cam_x: i64, factor: i64) -> (x: i64)
    requires
        -FX_LIM <= cam_x <= FX_LIM,
        -SCALE <= factor <= SCALE,
    ensures
        x == parallax_offset_s(cam_x as int, factor as int),
{
    proof {
        crate::fx::lemma_fxmul_contraction((-cam_x) as int, factor as int);
    }
    crate::fx::mul_fx(-cam_x, factor)
}

} // verus!
