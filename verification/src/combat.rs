//! The arena variant of the combat rules: a single collision radius, a
//! side-facing weak point, dash damage with saturation, symmetric
//! repulsion along the normalized separation, and immunity windows on
//! both parties of a normal hit.

use vstd::prelude::*;
use crate::components::{CollisionImmunity, ColorRgb, Drone, Health, Velocity, WeakPointSide};
use crate::constants::{
    COLLISION_IMMUNITY_DURATION, COLLISION_RADIUS, DRONE_REPULSION_FORCE,
};
use crate::fx::{fxmul, mul_fx, FX_LIM, SCALE, SIM_LIM};
use crate::physics::vec_bounded;
use crate::timer::{Timer, TimerMode};
use crate::vec2::{lemma_normalize_unit, normalize_or_zero, normalize_s, FxVec2};
use crate::world::TICK_LIM;

verus! {

broadcast use vstd::seq_lib::group_seq_properties;

/// The player's combat state in the arena rules.
#[derive(Clone, Copy, Debug, PartialEq, Eq, Structural)]
pub struct PlayerState {
    pub pos: FxVec2,
    pub vel: Velocity,
    pub dashing: bool,
    pub health: Health,
    pub immunity: Option<CollisionImmunity>,
}

/// A drone's combat state in the arena rules.
#[derive(Clone, Copy, Debug, PartialEq, Eq, Structural)]
pub struct DroneState {
    pub pos: FxVec2,
    pub vel: Velocity,
    pub drone: Drone,
    pub immunity: Option<CollisionImmunity>,
}

/// An entity at or below zero health is dead and despawns.
pub fn death_system(health: &Health) -> (dead: bool)
    ensures
        dead == (health.current <= 0),
{
    health.current <= 0
}

/// Whether the player touches the drone's vulnerable side: strictly on
/// that side of the drone's center.
pub open spec fn hit_on_weak(side: WeakPointSide, ppos: FxVec2, dpos: FxVec2) -> bool {
    match side {
        WeakPointSide::Left => ppos.x < dpos.x,
        WeakPointSide::Right => ppos.x > dpos.x,
        WeakPointSide::Top => ppos.y > dpos.y,
        WeakPointSide::Bottom => ppos.y < dpos.y,
    }
}

/// Strict proximity: the centers are closer than the collision radius.
pub open spec fn within_collision_radius(ppos: FxVec2, dpos: FxVec2) -> bool {
    let dx = ppos.x - dpos.x;
    let dy = ppos.y - dpos.y;
    dx * dx + dy * dy < (COLLISION_RADIUS as int) * (COLLISION_RADIUS as int)
}

/// Run the strict proximity test; exact per `within_collision_radius`.
fn check_within_radius(ppos: FxVec2, dpos: FxVec2) -> (close: bool)
    requires
        vec_bounded(ppos, TICK_LIM as int),
        vec_bounded(dpos, TICK_LIM as int),
    ensures
        close == within_collision_radius(ppos, dpos),
{
    let dx = ppos.x - dpos.x;
    let dy = ppos.y - dpos.y;
    proof {
        assert(0 <= (dx as int) * (dx as int) <= 0x100000000000000000000) by (nonlinear_arith)
            requires
                -0x4000000000 <= dx <= 0x4000000000,
        ;
        assert(0 <= (dy as int) * (dy as int) <= 0x100000000000000000000) by (nonlinear_arith)
            requires
                -0x4000000000 <= dy <= 0x4000000000,
        ;
        assert((COLLISION_RADIUS as int) * (COLLISION_RADIUS as int) == (COLLISION_RADIUS as i128)
            * (COLLISION_RADIUS as i128)) by (nonlinear_arith);
    }
    let dist_sq: i128 = (dx as i128) * (dx as i128) + (dy as i128) * (dy as i128);
    let thresh: i128 = (COLLISION_RADIUS as i128) * (COLLISION_RADIUS as i128);
    dist_sq < thresh
}

/// The repulsion vector pushing the player away from the drone: the
/// normalized separation scaled by the repulsion force.
pub open spec fn repel_s(ppos: FxVec2, dpos: FxVec2) -> (int, int) {
    let d = normalize_s(ppos.x - dpos.x, ppos.y - dpos.y);
    (fxmul(DRONE_REPULSION_FORCE as int, d.0), fxmul(DRONE_REPULSION_FORCE as int, d.1))
}

/// The index of the first drone within the collision radius that has no
/// immunity window of its own, if any.
pub open spec fn first_contact_s(ppos: FxVec2, drones: Seq<DroneState>) -> Option<int>
    decreases drones.len(),
{
    if drones.len() == 0 {
        Option::None
    } else if within_collision_radius(ppos, drones[0].pos) && drones[0].immunity is None {
        Option::Some(0int)
    } else {
        match first_contact_s(ppos, drones.skip(1)) {
            Option::None => Option::None,
            Option::Some(k) => Option::Some(k + 1),
        }
    }
}

/// A fresh immunity window of the arena rules, remembering the sprite
/// color to restore.
pub open spec fn fresh_immunity(color: ColorRgb) -> CollisionImmunity {
    CollisionImmunity {
        timer: Timer {
            mode: TimerMode::Once,
            duration: COLLISION_IMMUNITY_DURATION,
            elapsed: 0,
            finished: false,
        },
        blink: true,
        original_color: Option::Some(color),
    }
}

/// What the first contact does.  A dash onto the vulnerable side costs
/// the drone three hit points, saturating at zero, and destroys it at
/// zero, with no immunity handed out.  Any other contact costs the
/// player one hit point, pushes both apart along the normalized
/// separation, and puts an immunity window on both.
pub open spec fn contact_apply_s(
    p: PlayerState,
    drones: Seq<DroneState>,
    j: int,
    pcolor: ColorRgb,
    dcolor: ColorRgb,
) -> (PlayerState, Seq<DroneState>) {
    let d = drones[j];
    if p.dashing && hit_on_weak(d.drone.weak_point, p.pos, d.pos) {
        let hp2: u8 = if d.drone.hp >= 3 {
            (d.drone.hp - 3) as u8
        } else {
            0
        };
        if hp2 == 0 {
            (p, drones.remove(j))
        } else {
            (
                p,
                drones.update(j, DroneState { drone: Drone { hp: hp2, ..d.drone }, ..d }),
            )
        }
    } else {
        let r = repel_s(p.pos, d.pos);
        let p2 = PlayerState {
            vel: Velocity(
                FxVec2 { x: (p.vel.0.x + r.0) as i64, y: (p.vel.0.y + r.1) as i64 },
            ),
            health: Health { current: (p.health.current - 1) as i32, max: p.health.max },
            immunity: Option::Some(fresh_immunity(pcolor)),
            ..p
        };
        let d2 = DroneState {
            vel: Velocity(
                FxVec2 { x: (d.vel.0.x - r.0) as i64, y: (d.vel.0.y - r.1) as i64 },
            ),
            immunity: Option::Some(fresh_immunity(dcolor)),
            ..d
        };
        (p2, drones.update(j, d2))
    }
}

/// The arena collision rule: while the player has no immunity window,
/// the first drone within the collision radius that has none either is
/// processed and the scan stops; exact per `first_contact_s` and
/// `contact_apply_s`.  The sprite colors of both parties come in as
/// plain values so a new immunity window can remember them.
#[verifier::rlimit(100)]
pub fn drone_player_collision_system(
    p: &mut PlayerState,
    drones: &mut Vec<DroneState>,
    pcolor: ColorRgb,
    dcolor: ColorRgb,
) -> (hit: Option<usize>)
    requires
        vec_bounded(old(p).pos, TICK_LIM as int),
        vec_bounded(old(p).vel.0, SIM_LIM as int),
        old(p).health.wf(),
        forall|j: int|
            0 <= j < old(drones)@.len() ==> vec_bounded(
                (#[trigger] old(drones)@[j]).pos,
                TICK_LIM as int,
            ) && vec_bounded(old(drones)@[j].vel.0, SIM_LIM as int),
    ensures
        old(p).immunity is Some ==> *final(p) == *old(p) && final(drones)@ == old(drones)@ && hit
            is None,
        old(p).immunity is None ==> match first_contact_s(old(p).pos, old(drones)@) {
            Option::None => *final(p) == *old(p) && final(drones)@ == old(drones)@ && hit is None,
            Option::Some(j) => hit == Some(j as usize) && (*final(p), final(drones)@)
                == contact_apply_s(*old(p), old(drones)@, j, pcolor, dcolor),
        },
{
    if p.immunity.is_some() {
        return None;
    }
    let ghost ds = drones@;
    let ghost ppos = p.pos;
    let mut i: usize = 0;
    while i < drones.len()
        invariant
            ds == drones@,
            ppos == p.pos,
            *p == *old(p),
            i <= ds.len(),
            vec_bounded(p.pos, TICK_LIM as int),
            forall|j: int|
                0 <= j < ds.len() ==> vec_bounded((#[trigger] ds[j]).pos, TICK_LIM as int)
                    && vec_bounded(ds[j].vel.0, SIM_LIM as int),
            first_contact_s(ppos, ds) == crate::world::shift_opt(
                first_contact_s(ppos, ds.skip(i as int)),
                i as int,
            ),
        ensures
            ds == drones@,
            ppos == p.pos,
            *p == *old(p),
            i <= ds.len(),
            first_contact_s(ppos, ds) == crate::world::shift_opt(
                first_contact_s(ppos, ds.skip(i as int)),
                i as int,
            ),
            i < ds.len() ==> within_collision_radius(ppos, ds[i as int].pos) && ds[i as int]
                .immunity is None,
        decreases ds.len() - i,
    {
        let d = drones[i];
        proof {
            assert(ds.skip(i as int)[0] == ds[i as int]);
            assert(ds.skip(i as int).skip(1) =~= ds.skip(i as int + 1));
        }
        if check_within_radius(p.pos, d.pos) && d.immunity.is_none() {
            break ;
        }
        i = i + 1;
    }
    if i < drones.len() {
        proof {
            assert(ds.skip(i as int)[0] == ds[i as int]);
            assert(first_contact_s(ppos, ds.skip(i as int)) == Option::Some(0int));
            assert(first_contact_s(ppos, ds) == Option::Some(i as int));
        }
        apply_contact(p, drones, i, pcolor, dcolor);
        Some(i)
    } else {
        proof {
            assert(ds.skip(i as int) =~= Seq::<DroneState>::empty());
        }
        None
    }
}

/// Carry out the effects of the first contact; exact per
/// `contact_apply_s`.
#[verifier::rlimit(100)]
fn apply_contact(
    p: &mut PlayerState,
    drones: &mut Vec<DroneState>,
    j: usize,
    pcolor: ColorRgb,
    dcolor: ColorRgb,
)
    requires
        j < old(drones)@.len(),
        vec_bounded(old(p).pos, TICK_LIM as int),
        vec_bounded(old(p).vel.0, SIM_LIM as int),
        old(p).health.wf(),
        vec_bounded(old(drones)@[j as int].pos, TICK_LIM as int),
        vec_bounded(old(drones)@[j as int].vel.0, SIM_LIM as int),
    ensures
        (*final(p), final(drones)@) == contact_apply_s(
            *old(p),
            old(drones)@,
            j as int,
            pcolor,
            dcolor,
        ),
{
    let d = drones[j];
    if p.dashing && hit_on_weak_check(d.drone.weak_point, p.pos, d.pos) {
        let hp2: u8 = if d.drone.hp >= 3 {
            d.drone.hp - 3
        } else {
            0
        };
        if hp2 == 0 {
            drones.remove(j);
        } else {
            drones[j] = DroneState {
                pos: d.pos,
                vel: d.vel,
                drone: Drone { hp: hp2, weak_point: d.drone.weak_point },
                immunity: d.immunity,
            };
        }
    } else {
        let rel = FxVec2 { x: p.pos.x - d.pos.x, y: p.pos.y - d.pos.y };
        proof {
            lemma_normalize_unit(rel.x as int, rel.y as int);
        }
        let dir = normalize_or_zero(rel);
        let rx = mul_fx(DRONE_REPULSION_FORCE, dir.x);
        let ry = mul_fx(DRONE_REPULSION_FORCE, dir.y);
        proof {
            crate::fx::lemma_fxmul_contraction(DRONE_REPULSION_FORCE as int, dir.x as int);
            crate::fx::lemma_fxmul_contraction(DRONE_REPULSION_FORCE as int, dir.y as int);
        }
        p.vel.0.x = p.vel.0.x + rx;
        p.vel.0.y = p.vel.0.y + ry;
        p.health.current = p.health.current - 1;
        p.immunity = Some(
            CollisionImmunity {
                timer: Timer::new(COLLISION_IMMUNITY_DURATION, TimerMode::Once),
                blink: true,
                original_color: Some(pcolor),
            },
        );
        drones[j] = DroneState {
            pos: d.pos,
            vel: Velocity(FxVec2 { x: d.vel.0.x - rx, y: d.vel.0.y - ry }),
            drone: d.drone,
            immunity: Some(
                CollisionImmunity {
                    timer: Timer::new(COLLISION_IMMUNITY_DURATION, TimerMode::Once),
                    blink: true,
                    original_color: Some(dcolor),
                },
            ),
        };
    }
}

/// Run the weak-side test; exact per `hit_on_weak`.
fn hit_on_weak_check(side: WeakPointSide, ppos: FxVec2, dpos: FxVec2) -> (r: bool)
    ensures
        r == hit_on_weak(side, ppos, dpos),
{
    match side {
        WeakPointSide::Left => ppos.x < dpos.x,
        WeakPointSide::Right => ppos.x > dpos.x,
        WeakPointSide::Top => ppos.y > dpos.y,
        WeakPointSide::Bottom => ppos.y < dpos.y,
    }
}

/// Whether the white flash of the blink is on: the windows alternate
/// every twelfth of a second, starting visible.
pub open spec fn blink_on(elapsed: int) -> bool {
    (elapsed * 12 / (SCALE as int)) % 2 == 0
}

/// One tick of an arena immunity window: the timer advances; the sprite
/// color to restore is remembered the first time; while blinking, the
/// sprite alternates between white and its own color; on expiry the
/// window disappears and the color is restored.
pub open spec fn immunity_blink_tick(ci: CollisionImmunity, color: ColorRgb, dt: int) -> (
    Option<CollisionImmunity>,
    ColorRgb,
) {
    let t = ci.timer.ticked(dt);
    let orig: ColorRgb = match ci.original_color {
        Option::Some(c) => c,
        Option::None => color,
    };
    let shown: ColorRgb = if ci.blink {
        if blink_on(t.elapsed as int) {
            ColorRgb { r: 255, g: 255, b: 255 }
        } else {
            orig
        }
    } else {
        color
    };
    if t.finished {
        (Option::None, orig)
    } else {
        (
            Option::Some(
                CollisionImmunity { timer: t, blink: ci.blink, original_color: Option::Some(orig) },
            ),
            shown,
        )
    }
}

/// Advance an arena immunity window; exact per `immunity_blink_tick`.
pub fn collision_immunity_system(
    immunity: &mut Option<CollisionImmunity>,
    color: &mut ColorRgb,
    dt: i64,
)
    requires
        0 <= dt <= FX_LIM,
        ((*old(immunity)) matches Some(ci) ==> ci.timer.wf()),
    ensures
        match *old(immunity) {
            Option::Some(ci) => (*final(immunity), *final(color)) == immunity_blink_tick(
                ci,
                *old(color),
                dt as int,
            ),
            Option::None => *final(immunity) == *old(immunity) && *final(color) == *old(color),
        },
        ((*final(immunity)) matches Some(ci) ==> ci.timer.wf()),
{
    let ci = match immunity {
        Some(ci) => *ci,
        None => {
            return ;
        },
    };
    let mut t = ci.timer;
    t.tick(dt);
    let orig = match ci.original_color {
        Some(c) => c,
        None => *color,
    };
    if ci.blink {
        let phase = ((t.elapsed as u64) * 12) / (SCALE as u64);
        if phase % 2 == 0 {
            *color = ColorRgb { r: 255, g: 255, b: 255 };
        } else {
            *color = orig;
        }
    }
    if t.finished {
        *color = orig;
        *immunity = None;
    } else {
        *immunity = Some(CollisionImmunity { timer: t, blink: ci.blink, original_color: Some(orig) });
    }
}

} // verus!
