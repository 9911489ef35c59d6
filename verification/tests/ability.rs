use flier_core::config::GameConfig;
use flier_core::physics::Velocity;
use flier_core::player::{
    dash_arrow_system, nuke_system, player_charge_dash_system, player_dash_effect_system,
    player_dash_system, player_movement_system, player_nuke_system,
    player_start_charge_dash_system, ChargeStep, DashDirectionArrow, DashEffect, Dashing, Nuke,
    NUKE_DURATION,
};
use flier_core::timer::{Timer, TimerMode};
use flier_core::vec2::FxVec2;
use flier_core::SCALE;

const DT_60: i64 = 1092;

#[test]
fn movement_accelerates_and_clamps() {
    let cfg = GameConfig::default();
    let mut vel = Velocity::zero();
    let right = FxVec2 { x: SCALE, y: 0 };
    player_movement_system(&mut vel, right, &cfg, DT_60);
    // 3200 * dt, truncated
    assert_eq!(vel.target.x, 3200 * 1092);
    for _ in 0..100 {
        player_movement_system(&mut vel, right, &cfg, DT_60);
    }
    assert_eq!(vel.target.x, cfg.player_max_x_speed);
}

#[test]
fn start_charge_captures_aim_and_zeroes_target() {
    let mut vel = Velocity {
        current: FxVec2 { x: SCALE, y: SCALE },
        target: FxVec2 { x: SCALE, y: SCALE },
    };
    let mut arrow = DashDirectionArrow::hidden();
    let pos = FxVec2 { x: 0, y: 0 };
    let mouse = FxVec2 { x: 100 * SCALE, y: 0 };
    let charging = player_start_charge_dash_system(pos, &mut vel, &mut arrow, mouse, Some(7));
    assert_eq!(vel.target.x, 0);
    assert_eq!(vel.target.y, 0);
    assert_eq!(charging.dir, FxVec2 { x: SCALE, y: 0 });
    assert_eq!(charging.power, 0);
    assert_eq!(charging.sound_entity, Some(7));
    assert!(arrow.visibility);
    assert_eq!(arrow.size, 0);
}

#[test]
fn charge_power_grows_while_held() {
    // power grows by dt / charge_duration per held tick and never sinks
    let cfg = GameConfig::default();
    let pos = FxVec2 { x: 0, y: 0 };
    let mouse = FxVec2 { x: 0, y: 100 * SCALE };
    let mut charging = flier_core::player::ChargingDash::new(FxVec2 { x: 0, y: SCALE });
    let mut arrow = DashDirectionArrow::hidden();
    let mut last = 0;
    for _ in 0..10 {
        match player_charge_dash_system(pos, &charging, &arrow, true, mouse, &cfg, DT_60) {
            ChargeStep::Held { charging: c, arrow: a } => {
                assert!(c.power >= last);
                assert_eq!(c.power, last + 1456); // dt / 0.75 s, exact
                last = c.power;
                charging = c;
                arrow = a;
            },
            ChargeStep::Released { .. } => panic!("still held"),
        }
    }
}

#[test]
fn released_charge_is_clamped_to_one() {
    // held long past full charge, the consumed power is exactly one
    let cfg = GameConfig::default();
    let pos = FxVec2 { x: 0, y: 0 };
    let mouse = FxVec2 { x: 0, y: -100 * SCALE };
    let mut charging = flier_core::player::ChargingDash::new(FxVec2 { x: 0, y: -SCALE });
    charging.power = 3 * SCALE;
    let arrow = DashDirectionArrow::hidden();
    match player_charge_dash_system(pos, &charging, &arrow, false, mouse, &cfg, DT_60) {
        ChargeStep::Released { dashing, effect, arrow: a, stopped_sound } => {
            assert_eq!(effect.power, SCALE);
            assert_eq!(dashing.power, FxVec2 { x: 0, y: -SCALE });
            assert_eq!(dashing.timer.duration, cfg.player_dash_duration);
            // immunity window scales with the consumed power (full here)
            assert_eq!(effect.timer.duration, cfg.player_dash_immunity_duration);
            assert!(!a.visibility);
            assert_eq!(stopped_sound, None);
        },
        ChargeStep::Held { .. } => panic!("was released"),
    }
}

#[test]
fn partial_charge_scales_immunity_window() {
    let cfg = GameConfig::default();
    let pos = FxVec2 { x: 0, y: 0 };
    let mouse = FxVec2 { x: 0, y: -100 * SCALE };
    let mut charging = flier_core::player::ChargingDash::new(FxVec2 { x: SCALE, y: 0 });
    charging.power = SCALE / 2;
    let arrow = DashDirectionArrow::hidden();
    match player_charge_dash_system(pos, &charging, &arrow, false, mouse, &cfg, DT_60) {
        ChargeStep::Released { effect, dashing, .. } => {
            assert_eq!(effect.power, SCALE / 2);
            assert_eq!(effect.timer.duration, cfg.player_dash_immunity_duration / 2);
            assert_eq!(dashing.power, FxVec2 { x: SCALE / 2, y: 0 });
        },
        _ => panic!("was released"),
    }
}

#[test]
fn dash_overrides_target_velocity_and_bleeds_down() {
    let cfg = GameConfig::default();
    let mut vel = Velocity::zero();
    let mut dashing = Some(Dashing::new(
        FxVec2 { x: SCALE, y: 0 },
        cfg.player_dash_duration,
    ));
    player_dash_system(&mut vel, &mut dashing, &cfg, DT_60);
    assert_eq!(vel.target.x, cfg.player_dash_speed);
    assert!(dashing.is_some());
    // tick it out: duration 0.12 s is under 8 ticks of 1/60
    for _ in 0..10 {
        player_dash_system(&mut vel, &mut dashing, &cfg, DT_60);
    }
    assert!(dashing.is_none());
    // bled down to the normal cap along the dash direction
    assert_eq!(vel.target.x, cfg.player_max_x_speed);
}

#[test]
fn dash_effect_ticks_out() {
    let mut effect = Some(DashEffect::new(FxVec2 { x: 0, y: -SCALE }, SCALE, SCALE));
    for _ in 0..60 {
        player_dash_effect_system(&mut effect, DT_60);
        assert!(effect.is_some());
    }
    player_dash_effect_system(&mut effect, DT_60);
    assert!(effect.is_none());
}

#[test]
fn full_power_downward_dash_on_floor_spawns_nuke() {
    let cfg = GameConfig::default();
    let pos = FxVec2 { x: 0, y: cfg.floor_y };
    let mut dashing = Some(Dashing::new(FxVec2 { x: 0, y: -SCALE }, cfg.player_dash_duration));
    let mut effect = Some(DashEffect::new(FxVec2 { x: 0, y: -SCALE }, SCALE, SCALE));
    let spawned = player_nuke_system(pos, &mut dashing, &mut effect, &cfg);
    let nuke = spawned.expect("nuke spawns");
    assert_eq!(nuke.timer.duration, NUKE_DURATION);
    assert_eq!(nuke.combo, 0);
    assert!(dashing.is_none());
    assert!(effect.is_none());
}

#[test]
fn partial_or_upward_dash_never_triggers_nuke() {
    let cfg = GameConfig::default();
    let pos = FxVec2 { x: 0, y: cfg.floor_y };
    // partial power
    let mut dashing = Some(Dashing::new(FxVec2 { x: 0, y: -SCALE }, cfg.player_dash_duration));
    let mut effect = Some(DashEffect::new(FxVec2 { x: 0, y: -SCALE }, SCALE - 1, SCALE));
    assert!(player_nuke_system(pos, &mut dashing, &mut effect, &cfg).is_none());
    assert!(effect.is_some());
    // upward aim
    let mut effect_up = Some(DashEffect::new(FxVec2 { x: 0, y: SCALE }, SCALE, SCALE));
    assert!(player_nuke_system(pos, &mut dashing, &mut effect_up, &cfg).is_none());
    // airborne
    let high = FxVec2 { x: 0, y: 100 * SCALE };
    let mut effect_air = Some(DashEffect::new(FxVec2 { x: 0, y: -SCALE }, SCALE, SCALE));
    assert!(player_nuke_system(high, &mut dashing, &mut effect_air, &cfg).is_none());
}

#[test]
fn nuke_fades_and_despawns() {
    let mut nuke = Some(Nuke::new(SCALE));
    let alpha = nuke_system(&mut nuke, SCALE / 2);
    // half a second left of one: 255 * 0.5 truncated
    assert_eq!(alpha, 127);
    assert!(nuke.is_some());
    let alpha2 = nuke_system(&mut nuke, SCALE / 2);
    assert_eq!(alpha2, 0);
    assert!(nuke.is_none());
}

#[test]
fn arrow_caps_size_and_cues_full_charge_once() {
    let mut arrow = DashDirectionArrow {
        direction: FxVec2 { x: SCALE, y: 0 },
        visibility: true,
        size: 2 * SCALE,
        full_charged: false,
    };
    let (offset, scale_y, cue) = dash_arrow_system(&mut arrow);
    assert_eq!(scale_y, SCALE);
    assert_eq!(offset, FxVec2 { x: 32 * SCALE, y: 0 });
    assert!(cue, "first full-size tick fires the cue");
    let (_, _, cue2) = dash_arrow_system(&mut arrow);
    assert!(!cue2, "the cue fires only once");
}

#[test]
fn timer_modes_behave() {
    let mut once = Timer::new(SCALE, TimerMode::Once);
    once.tick(SCALE / 2);
    assert!(!once.finished());
    once.tick(SCALE / 2);
    assert!(once.finished());
    once.tick(SCALE);
    assert!(once.finished(), "a once timer stays finished");

    let mut rep = Timer::new(SCALE, TimerMode::Repeating);
    rep.tick(SCALE + 100);
    assert!(rep.finished(), "wrapped this tick");
    assert_eq!(rep.elapsed, 100);
    rep.tick(100);
    assert!(!rep.finished(), "finished only on wrapping ticks");
}
