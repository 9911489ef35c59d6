//! The laws the simulation keeps, stated over the per-tick spec
//! functions and proved once and for all.

use vstd::prelude::*;
use crate::config::GameConfig;
use crate::enemy::{weak_point_hit_s, WeakSpot, WeakSpotLocation};
use crate::fx::{
    abs_i, div_trunc, fxmul, lemma_fxdiv_nonneg, lemma_fxlerp_between, lemma_fxmul_fraction, max_i,
    min_i, FX_LIM, SCALE, SIM_LIM,
};
use crate::physics::{
    apply_velocity_tick, grounding_tick, smoothing_fraction, GroundState, Velocity, GROUND_EPS,
};
use crate::player::{charge_tick, ChargeStep, ChargingDash, DashDirectionArrow};
use crate::vec2::FxVec2;

verus! {

/// The smoothing law converges monotonically: one velocity stage leaves
/// each component of the moved velocity between its old value and the
/// intended one, and never increases its distance to the intended one.
/// Under a constant tick length with no intended-velocity change this
/// drives the moved velocity toward the intended velocity, axis by
/// axis, without overshoot.
pub proof fn lemma_smoothing_converges(p: FxVec2, v: Velocity, cfg: GameConfig, dt: int)
    requires
        cfg.wf(),
        0 <= dt <= SCALE,
    ensures
        ({
            let r = apply_velocity_tick(p, v, cfg, dt);
            let cur = r.1.current;
            &&& min_i(v.current.x as int, v.target.x as int) <= cur.x <= max_i(
                v.current.x as int,
                v.target.x as int,
            )
            &&& min_i(v.current.y as int, v.target.y as int) <= cur.y <= max_i(
                v.current.y as int,
                v.target.y as int,
            )
            &&& abs_i(v.target.x - cur.x) <= abs_i(v.target.x - v.current.x)
            &&& abs_i(v.target.y - cur.y) <= abs_i(v.target.y - v.current.y)
            &&& r.1.target == v.target
        }),
{
    let t = smoothing_fraction(cfg, dt);
    lemma_fxmul_fraction(cfg.movement_smoothing as int, dt as int);
    lemma_fxlerp_between(v.current.x as int, v.target.x as int, t);
    lemma_fxlerp_between(v.current.y as int, v.target.y as int, t);
}

/// Grounding is idempotent: a tick of the floor snap on an entity
/// resting exactly on the floor line with no vertical motion leaves
/// position and velocity unchanged and makes the tag grounded, and
/// every further tick of the snap from that state changes nothing —
/// the tag never toggles back.
pub proof fn lemma_grounding_idempotent(p: FxVec2, v: Velocity, gs: GroundState, cfg: GameConfig)
    requires
        p.y == cfg.floor_y,
        v.current.y == 0,
        v.target.y == 0,
    ensures
        grounding_tick(p, v, gs, cfg) == (p, v, GroundState::Grounded),
        grounding_tick(p, v, GroundState::Grounded, cfg) == (p, v, GroundState::Grounded),
{
}

/// Charge power is monotone while the intent is held, and is consumed
/// clamped to one however long it was held: the released dash effect
/// carries `min(power, 1)`.
pub proof fn lemma_charge_power(
    c: ChargingDash,
    arrow: DashDirectionArrow,
    pos: FxVec2,
    mouse: FxVec2,
    cfg: GameConfig,
    dt: int,
)
    requires
        cfg.wf(),
        0 <= dt <= SCALE,
        0 <= c.power <= FX_LIM,
    ensures
        ({
            let held = charge_tick(c, arrow, pos, mouse, true, cfg, dt);
            held matches ChargeStep::Held { charging, .. } ==> charging.power >= c.power
        }),
        ({
            let released = charge_tick(c, arrow, pos, mouse, false, cfg, dt);
            released matches ChargeStep::Released { effect, .. } ==> {
                &&& effect.power == min_i(c.power as int, SCALE as int)
                &&& 0 <= effect.power <= SCALE
            }
        }),
{
    let cd = cfg.player_charging_power_duration as int;
    lemma_fxdiv_nonneg(dt, cd);
    vstd::arithmetic::div_mod::lemma_div_nonincreasing(dt * (SCALE as int), cd);
}

/// `fxmul` with a positive-axis unit component is exact.
proof fn lemma_fxmul_unit_exact(t: int)
    requires
        t >= 0,
    ensures
        fxmul(SCALE as int, t) == t,
        fxmul((-SCALE) as int, t) == -t,
        fxmul(0, t) == 0,
        fxmul(t, SCALE as int) == t,
        fxmul(t, 0) == 0,
{
    let s = SCALE as int;
    assert(s * t == t * s) by (nonlinear_arith);
    vstd::arithmetic::div_mod::lemma_div_multiples_vanish(t, s);
    assert((-s) * t == -(s * t)) by (nonlinear_arith);
    assert(0 * t == 0) by (nonlinear_arith);
    assert(t * 0 == 0) by (nonlinear_arith);
    if t > 0 {
        vstd::arithmetic::div_mod::lemma_div_pos_is_pos(s * t, s);
    }
}

/// The weak-point test is rotation-correct.  For each orthogonal
/// location, a flier placed on the spot's outward axis `t` raw units
/// past the spot's center hits exactly when `t` is within the
/// rectangle's half height plus the flier's radius — the same
/// threshold in every orientation, so turning the spot never changes
/// the geometry of the test.  In particular it hits at one unit under
/// the threshold and misses at one unit over it.
pub proof fn lemma_weak_point_rotation_correct(
    loc: WeakSpotLocation,
    side: int,
    epos: FxVec2,
    eradius: int,
    pradius: int,
    t: int,
)
    requires
        loc == WeakSpotLocation::North || loc == WeakSpotLocation::South || loc
            == WeakSpotLocation::West || loc == WeakSpotLocation::East,
        0 <= side <= SIM_LIM,
        0 <= eradius <= SIM_LIM,
        0 <= pradius <= SIM_LIM,
        0 <= t <= SIM_LIM,
        -SIM_LIM <= epos.x <= SIM_LIM,
        -SIM_LIM <= epos.y <= SIM_LIM,
    ensures
        ({
            let d = loc.dir_s();
            let ppos = FxVec2 {
                x: (epos.x + fxmul(d.0, eradius) + fxmul(d.0, t)) as i64,
                y: (epos.y + fxmul(d.1, eradius) + fxmul(d.1, t)) as i64,
            };
            let spot = WeakSpot {
                location: loc,
                size: FxVec2 { x: side as i64, y: (side / 2) as i64 },
                rotation: loc.rotation_s(),
            };
            weak_point_hit_s(ppos, pradius, epos, eradius, spot) == (t <= (side / 2) / 2 + pradius)
        }),
{
    let d = loc.dir_s();
    lemma_fxmul_unit_exact(eradius);
    lemma_fxmul_unit_exact(t);
    let ppos = FxVec2 {
        x: (epos.x + fxmul(d.0, eradius) + fxmul(d.0, t)) as i64,
        y: (epos.y + fxmul(d.1, eradius) + fxmul(d.1, t)) as i64,
    };
    let rot = loc.rotation_s();
    let cx = epos.x + fxmul(d.0, eradius);
    let cy = epos.y + fxmul(d.1, eradius);
    let relx = ppos.x - cx;
    let rely = ppos.y - cy;
    lemma_fxmul_unit_exact(0);
    match loc {
        WeakSpotLocation::North => {
            assert(relx == 0 && rely == t);
        },
        WeakSpotLocation::South => {
            assert(relx == 0 && rely == -t);
            lemma_fxmul_neg_unit(t);
        },
        WeakSpotLocation::West => {
            assert(relx == -t && rely == 0);
            lemma_fxmul_neg_unit(t);
        },
        WeakSpotLocation::East => {
            assert(relx == t && rely == 0);
            lemma_fxmul_neg_unit(t);
        },
        _ => {
            assert(false);
        },
    }
    let u = crate::enemy::unrotate_s(relx as int, rely as int, rot);
    assert(u.0 == 0 && u.1 == t);
    let hy = ((side / 2) as i64 as int) / 2;
    let hx = (side as i64 as int) / 2;
    assert(0 <= hy <= hx);
    let dy = crate::fx::clamp_i(t, -hy, hy) - t;
    if t <= hy {
        assert(dy == 0);
        assert(0 <= pradius * pradius) by (nonlinear_arith);
        assert(t <= hy + pradius);
    } else {
        assert(dy == hy - t);
        assert((dy * dy <= pradius * pradius) == (t - hy <= pradius)) by (nonlinear_arith)
            requires
                dy == hy - t,
                t > hy,
                pradius >= 0,
        ;
    }
}

/// `fxmul` by a negative unit component negates exactly.
proof fn lemma_fxmul_neg_unit(t: int)
    requires
        t >= 0,
    ensures
        fxmul((-t), (-SCALE) as int) == t,
        fxmul((-t), SCALE as int) == -t,
        fxmul((-SCALE) as int, (-t)) == t,
        fxmul(0, (-SCALE) as int) == 0,
        fxmul((-t), 0) == 0,
{
    let s = SCALE as int;
    assert((-t) * (-s) == t * s) by (nonlinear_arith);
    assert((-t) * s == -(t * s)) by (nonlinear_arith);
    assert((-s) * (-t) == t * s) by (nonlinear_arith);
    assert(0 * (-s) == 0) by (nonlinear_arith);
    assert((-t) * 0 == 0) by (nonlinear_arith);
    assert(t * s == s * t) by (nonlinear_arith);
    vstd::arithmetic::div_mod::lemma_div_multiples_vanish(t, s);
    if t > 0 {
        vstd::arithmetic::div_mod::lemma_div_pos_is_pos(s * t, s);
    }
}

} // verus!
