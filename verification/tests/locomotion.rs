use flier_core::config::GameConfig;
use flier_core::physics::{
    apply_grounding_system, apply_velocity_system, friction_system, gravity_system, GroundState,
    Velocity,
};
use flier_core::vec2::FxVec2;
use flier_core::SCALE;

fn default_cfg() -> GameConfig {
    GameConfig::default()
}

const DT_60: i64 = 1092; // one sixtieth of a second, truncated

#[test]
fn gravity_pulls_target_velocity_down() {
    let cfg = default_cfg();
    let mut vel = Velocity::zero();
    gravity_system(&mut vel, false, &cfg, DT_60);
    // -42 * dt, exact in fixed point: trunc(2752512 * 1092 / 65536)
    assert_eq!(vel.target.y, -45864);
    assert_eq!(vel.target.x, 0);
    assert_eq!(vel.current.y, 0);
}

#[test]
fn charging_reduces_gravity() {
    let cfg = default_cfg();
    let mut vel = Velocity::zero();
    gravity_system(&mut vel, true, &cfg, DT_60);
    let mut vel_plain = Velocity::zero();
    gravity_system(&mut vel_plain, false, &cfg, DT_60);
    assert!(vel.target.y > vel_plain.target.y);
    assert!(vel.target.y < 0);
}

#[test]
fn friction_scales_target_exactly() {
    let cfg = default_cfg();
    let mut vel = Velocity {
        current: FxVec2 { x: 0, y: 0 },
        target: FxVec2 { x: 100 * SCALE, y: 0 },
    };
    friction_system(&mut vel, false, &cfg, DT_60);
    // factor = 1 - 2.0 * dt = 63352/65536; 6553600 * 63352 / 65536 == 6335200
    assert_eq!(vel.target.x, 6335200);
}

#[test]
fn ground_friction_is_stronger() {
    let cfg = default_cfg();
    let mut air = Velocity {
        current: FxVec2 { x: 0, y: 0 },
        target: FxVec2 { x: 100 * SCALE, y: 0 },
    };
    let mut ground = air;
    friction_system(&mut air, false, &cfg, DT_60);
    friction_system(&mut ground, true, &cfg, DT_60);
    assert!(ground.target.x < air.target.x);
}

#[test]
fn smoothing_moves_current_toward_target() {
    let cfg = default_cfg();
    let mut pos = FxVec2 { x: 0, y: 0 };
    let mut vel = Velocity {
        current: FxVec2 { x: 0, y: 0 },
        target: FxVec2 { x: 100 * SCALE, y: 0 },
    };
    apply_velocity_system(&mut pos, &mut vel, &cfg, DT_60);
    // t = 8.0 * dt = 8736/65536; lerp(0, 100, t) == 873600 raw
    assert_eq!(vel.current.x, 873600);
    // position advances by current * dt
    assert_eq!(pos.x, 873600 * 1092 / 65536);
}

#[test]
fn smoothing_converges_monotonically() {
    // the smoothing law: under a constant target the distance shrinks
    // every tick and the current value never overshoots
    let cfg = default_cfg();
    let target = 100 * SCALE;
    let mut pos = FxVec2 { x: 0, y: 0 };
    let mut vel = Velocity {
        current: FxVec2 { x: 0, y: 0 },
        target: FxVec2 { x: target, y: 0 },
    };
    let mut last_gap = target;
    for _ in 0..120 {
        apply_velocity_system(&mut pos, &mut vel, &cfg, DT_60);
        vel.target.x = target;
        let gap = target - vel.current.x;
        assert!(gap >= 0, "overshoot");
        assert!(gap <= last_gap, "distance to target grew");
        last_gap = gap;
    }
    assert!(last_gap < target / 100);
}

#[test]
fn falling_through_floor_snaps_and_reports_impact() {
    // flier falls from y=50 to below floor_y=-160 in one tick at
    // velocity -500: snapped to the floor, vertical speed zeroed,
    // grounded, impact speed 500 observable
    let cfg = default_cfg();
    let mut pos = FxVec2 { x: 0, y: 50 * SCALE };
    let mut vel = Velocity {
        current: FxVec2 { x: 0, y: -500 * SCALE },
        target: FxVec2 { x: 0, y: -500 * SCALE },
    };
    let half_second: i64 = 32768;
    apply_velocity_system(&mut pos, &mut vel, &cfg, half_second);
    assert_eq!(pos.y, -200 * SCALE);
    assert!(pos.y < cfg.floor_y);
    let mut ground = GroundState::Airborne;
    let landed = apply_grounding_system(&mut pos, &mut vel, &mut ground, &cfg);
    assert_eq!(pos.y, cfg.floor_y);
    assert_eq!(vel.current.y, 0);
    assert_eq!(vel.target.y, 0);
    assert_eq!(ground, GroundState::Grounded);
    assert_eq!(landed, Some(500 * SCALE));
}

#[test]
fn grounding_is_idempotent_at_floor_line() {
    let cfg = default_cfg();
    let mut pos = FxVec2 { x: 5 * SCALE, y: cfg.floor_y };
    let mut vel = Velocity::zero();
    let mut ground = GroundState::Airborne;
    apply_grounding_system(&mut pos, &mut vel, &mut ground, &cfg);
    assert_eq!(ground, GroundState::Grounded);
    for _ in 0..10 {
        let landed = apply_grounding_system(&mut pos, &mut vel, &mut ground, &cfg);
        assert_eq!(ground, GroundState::Grounded);
        assert_eq!(pos.y, cfg.floor_y);
        assert_eq!(vel.current.y, 0);
        assert_eq!(landed, None, "no second landing while resting");
    }
}

#[test]
fn grounding_clears_above_hysteresis_band() {
    let cfg = default_cfg();
    let mut pos = FxVec2 { x: 0, y: cfg.floor_y + SCALE };
    let mut vel = Velocity {
        current: FxVec2 { x: 0, y: 10 * SCALE },
        target: FxVec2 { x: 0, y: 10 * SCALE },
    };
    let mut ground = GroundState::Grounded;
    apply_grounding_system(&mut pos, &mut vel, &mut ground, &cfg);
    assert_eq!(ground, GroundState::Airborne);
}

#[test]
fn bounds_clamp_position_and_spring_pulls_down() {
    let cfg = default_cfg();
    let mut pos = FxVec2 { x: cfg.x_limit + 10 * SCALE, y: 0 };
    let mut vel = Velocity {
        current: FxVec2 { x: 5 * SCALE, y: 0 },
        target: FxVec2 { x: 5 * SCALE, y: 0 },
    };
    flier_core::physics::player_bounds_system(&mut pos, &mut vel, &cfg);
    assert_eq!(pos.x, cfg.x_limit);
    assert_eq!(vel.target.x, 0);
    assert_eq!(vel.current.x, 0);

    let mut pos2 = FxVec2 { x: 0, y: cfg.ceiling_y + 10 * SCALE };
    let mut vel2 = Velocity::zero();
    flier_core::physics::player_bounds_system(&mut pos2, &mut vel2, &cfg);
    // pull = -overstep * spring = -60 units/s, inside the pull cap
    assert_eq!(vel2.target.y, -60 * SCALE);
}
