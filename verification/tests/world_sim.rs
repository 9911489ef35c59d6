use flier_core::config::GameConfig;
use flier_core::enemy::{EnemyMovement, EnemyWobble, WeakSpot, WeakSpotLocation};
use flier_core::game_state::GameState;
use flier_core::health::Health;
use flier_core::input::{Input, INPUT_DASH, INPUT_RIGHT, INPUT_UP};
use flier_core::physics::{
    blink_system, collision_immunity_system, Blink, CollisionImmunity, GroundState, Radius,
    Velocity,
};
use flier_core::player::{Nuke, NUKE_RADIUS};
use flier_core::score::Score;
use flier_core::vec2::FxVec2;
use flier_core::world::{
    enemy_respawn_system, nuke_drone_collision_system, spawn_enemies, spawn_enemy,
    spawn_fly_enemy, spawn_ground_enemy, spawn_player, tick, DroneEnt, EnemyRespawnTimer,
    GameWorld, NukeEnt,
};
use flier_core::SCALE;

const DT_60: i64 = 1092;

fn fresh_world() -> GameWorld {
    let mut w = GameWorld {
        config: GameConfig::default(),
        state: GameState::Running,
        score: Score(0),
        flier: None,
        drones: Vec::new(),
        nukes: Vec::new(),
        respawn: EnemyRespawnTimer { timer: None },
    };
    spawn_player(&mut w);
    w
}

fn drone_at(x: i64, y: i64) -> DroneEnt {
    DroneEnt {
        pos: FxVec2 { x, y },
        vel: Velocity::zero(),
        radius: Radius(16 * SCALE),
        health: Health::new(1),
        weak_spot: WeakSpot::new(WeakSpotLocation::North, 16 * SCALE),
        movement: EnemyMovement { period: 4 * SCALE, speed: 80 * SCALE },
        wobble: None,
        airborne_exempt: true,
        ground: GroundState::Airborne,
    }
}

#[test]
fn spawn_player_resets_session() {
    let mut w = fresh_world();
    w.score = Score(99);
    w.nukes.push(NukeEnt {
        pos: FxVec2 { x: 0, y: 0 },
        radius: Radius(NUKE_RADIUS),
        nuke: Nuke::new(SCALE),
        alpha: 255,
    });
    spawn_player(&mut w);
    assert_eq!(w.score.0, 0);
    assert!(w.nukes.is_empty());
    let f = w.flier.unwrap();
    assert_eq!(f.pos, FxVec2 { x: 0, y: 0 });
    assert_eq!(f.health, Health { current: 3, max: 3 });
    assert_eq!(f.radius.0, 16 * SCALE);
}

#[test]
fn idle_tick_applies_gravity_to_flier() {
    let mut w = fresh_world();
    let ev = tick(&mut w, Input(0), FxVec2 { x: 0, y: 0 }, None, DT_60);
    let f = w.flier.unwrap();
    assert!(f.vel.target.y < 0, "gravity pulls the intended velocity down");
    assert!(f.pos.y < 0, "the flier starts falling");
    assert!(!ev.took_damage);
    assert!(!ev.game_over);
    assert_eq!(ev.destroyed, 0);
}

#[test]
fn tick_outside_running_state_is_a_no_op() {
    let mut w = fresh_world();
    w.state = GameState::MainMenu;
    let before = w.flier;
    let ev = tick(&mut w, Input(INPUT_RIGHT), FxVec2 { x: 0, y: 0 }, None, DT_60);
    assert_eq!(w.flier, before);
    assert!(!ev.took_damage);
    assert_eq!(ev.destroyed, 0);
}

#[test]
fn tick_without_flier_still_advances_nukes() {
    let mut w = fresh_world();
    w.flier = None;
    w.nukes.push(NukeEnt {
        pos: FxVec2 { x: 0, y: 0 },
        radius: Radius(NUKE_RADIUS),
        nuke: Nuke::new(SCALE),
        alpha: 255,
    });
    w.drones.push(drone_at(30 * SCALE, 0));
    let ev = tick(&mut w, Input(0), FxVec2 { x: 0, y: 0 }, None, DT_60);
    assert_eq!(ev.destroyed, 1, "the blast still destroys the drone");
    assert_eq!(w.score.0, 1);
    assert!(w.drones.is_empty());
}

#[test]
fn held_dash_intent_starts_and_grows_a_charge() {
    let mut w = fresh_world();
    let mouse = FxVec2 { x: 100 * SCALE, y: 0 };
    tick(&mut w, Input(INPUT_DASH), mouse, Some(3), DT_60);
    let c = w.flier.unwrap().charging.unwrap();
    assert_eq!(c.dir, FxVec2 { x: SCALE, y: 0 });
    assert_eq!(c.power, 1456, "one tick of charge accumulated");
    assert_eq!(c.sound_entity, Some(3));
    // release on the next tick: the dash and its effect appear
    let ev = tick(&mut w, Input(0), mouse, None, DT_60);
    let f = w.flier.unwrap();
    assert!(f.charging.is_none());
    assert!(f.dashing.is_some());
    assert!(f.effect.is_some());
    assert_eq!(ev.stopped_sound, Some(3));
}

#[test]
fn game_over_transition_on_fatal_hit() {
    let mut w = fresh_world();
    let mut f = w.flier.unwrap();
    f.health = Health { current: 1, max: 3 };
    w.flier = Some(f);
    w.drones.push(drone_at(20 * SCALE, 0));
    let ev = tick(&mut w, Input(0), FxVec2 { x: 0, y: 0 }, None, DT_60);
    assert!(ev.took_damage);
    assert!(ev.game_over);
    assert_eq!(w.state, GameState::GameOver);
}

#[test]
fn immunity_blocks_body_damage() {
    let mut w = fresh_world();
    let mut f = w.flier.unwrap();
    f.immunity = Some(CollisionImmunity::new(10 * SCALE));
    w.flier = Some(f);
    w.drones.push(drone_at(20 * SCALE, 0));
    let ev = tick(&mut w, Input(0), FxVec2 { x: 0, y: 0 }, None, DT_60);
    assert!(!ev.took_damage);
    assert_eq!(w.flier.unwrap().health.current, 3);
}

#[test]
fn immunity_round_trip_restores_opacity() {
    // a one-second window at sixtieth-second ticks: 61 frames later no
    // immunity and no blink is left and the opacity is back to one
    let mut immunity = Some(CollisionImmunity::new(SCALE));
    let mut blink = Some(Blink::new(50));
    let mut alpha: i64 = 0;
    for _ in 0..60 {
        collision_immunity_system(&mut immunity, &mut blink, &mut alpha, DT_60);
    }
    assert!(immunity.is_some(), "sixty ticks fall just short of a second");
    collision_immunity_system(&mut immunity, &mut blink, &mut alpha, DT_60);
    assert!(immunity.is_none());
    assert!(blink.is_none());
    assert_eq!(alpha, SCALE);
    assert_eq!(alpha as f64 / SCALE as f64, 1.0);
}

#[test]
fn blink_drives_visibility_on_wrap_ticks() {
    let mut blink = Some(Blink::new(50));
    let mut alpha: i64 = SCALE;
    blink_system(&mut blink, &mut alpha, DT_60);
    assert_eq!(alpha, 0, "invisible while the period runs");
    blink_system(&mut blink, &mut alpha, 3276);
    assert_eq!(alpha, SCALE, "visible on the tick the period wraps");
}

#[test]
fn nuke_scores_with_its_own_combo() {
    let mut drones = vec![drone_at(30 * SCALE, 0), drone_at(0, 40 * SCALE)];
    let mut nukes = vec![NukeEnt {
        pos: FxVec2 { x: 0, y: 0 },
        radius: Radius(NUKE_RADIUS),
        nuke: Nuke::new(SCALE),
        alpha: 255,
    }];
    let mut score = Score(10);
    nuke_drone_collision_system(&mut drones, &mut nukes, &mut score);
    // both drones overlap the 96-unit blast: 11 + 12 points
    assert_eq!(score.0, 10 + 1 + 2);
    assert_eq!(nukes[0].nuke.combo, 2);
    assert!(drones.is_empty());
}

#[test]
fn nuke_out_of_range_scores_nothing() {
    let mut drones = vec![drone_at(500 * SCALE, 0)];
    let mut nukes = vec![NukeEnt {
        pos: FxVec2 { x: 0, y: 0 },
        radius: Radius(NUKE_RADIUS),
        nuke: Nuke::new(SCALE),
        alpha: 255,
    }];
    let mut score = Score(0);
    nuke_drone_collision_system(&mut drones, &mut nukes, &mut score);
    assert_eq!(score.0, 0);
    assert_eq!(drones.len(), 1);
}

#[test]
fn fly_enemy_spawns_in_its_band() {
    for _ in 0..20 {
        let d = spawn_fly_enemy();
        assert!(-150 * SCALE <= d.pos.x && d.pos.x < 150 * SCALE);
        assert!(280 * SCALE <= d.pos.y && d.pos.y < 360 * SCALE);
        assert_eq!(d.health, Health { current: 1, max: 1 });
        assert!(d.airborne_exempt);
        assert!(d.wobble.is_some());
        let m = d.movement;
        assert!(4 * SCALE <= m.period && m.period < 8 * SCALE);
        assert!(80 * SCALE <= m.speed && m.speed < 100 * SCALE);
    }
}

#[test]
fn ground_enemy_rests_on_the_floor() {
    let cfg = GameConfig::default();
    for _ in 0..10 {
        let d = spawn_ground_enemy(&cfg);
        assert_eq!(d.pos.y, cfg.floor_y + 16 * SCALE);
        assert_eq!(d.weak_spot.location, WeakSpotLocation::South);
        assert!(!d.airborne_exempt);
        assert!(d.wobble.is_none());
    }
}

#[test]
fn opening_wave_has_three_drones() {
    let mut w = fresh_world();
    spawn_enemies(&mut w);
    assert_eq!(w.drones.len(), 3);
    let cfg = w.config;
    let extra = spawn_enemy(&cfg);
    assert_eq!(extra.radius.0, 16 * SCALE);
}

#[test]
fn respawn_scheduler_rests_when_crowded() {
    let mut w = fresh_world();
    for _ in 0..4 {
        w.drones.push(drone_at(100 * SCALE, 100 * SCALE));
    }
    w.respawn.timer = Some(flier_core::timer::Timer::new(
        SCALE,
        flier_core::timer::TimerMode::Once,
    ));
    let spawned = enemy_respawn_system(&mut w, DT_60);
    assert_eq!(spawned, 0);
    assert!(w.respawn.timer.is_none());
}

#[test]
fn respawn_fires_after_its_delay() {
    let mut w = fresh_world();
    w.drones.push(drone_at(100 * SCALE, 100 * SCALE));
    // arm the timer, then push it past any possible delay (four seconds)
    let spawned0 = enemy_respawn_system(&mut w, DT_60);
    assert_eq!(spawned0, 0);
    let spawned = enemy_respawn_system(&mut w, 4 * SCALE);
    assert!(1 <= spawned && spawned <= 3);
    assert_eq!(w.drones.len(), 1 + spawned);
}

#[test]
fn input_direction_is_normalized() {
    let i = Input(INPUT_UP | INPUT_RIGHT);
    let d = i.dir();
    assert_eq!(d, FxVec2 { x: 46341, y: 46341 });
    let right = Input(INPUT_RIGHT);
    assert_eq!(right.dir(), FxVec2 { x: SCALE, y: 0 });
    assert_eq!(Input(0).dir(), FxVec2 { x: 0, y: 0 });
    assert!(Input(INPUT_DASH).dash());
    assert!(!Input(INPUT_UP).dash());
}

#[test]
fn weak_spot_random_side_is_orthogonal() {
    for _ in 0..20 {
        let loc = WeakSpotLocation::new_ortho();
        assert!(matches!(
            loc,
            WeakSpotLocation::North
                | WeakSpotLocation::South
                | WeakSpotLocation::West
                | WeakSpotLocation::East
        ));
    }
    for _ in 0..10 {
        let w = EnemyWobble::new_random();
        assert!(140 * SCALE <= w.base_y && w.base_y < 180 * SCALE);
        assert_eq!(w.target_y, w.base_y);
    }
}

#[test]
fn camera_follows_and_clamps() {
    let cfg = GameConfig::default();
    let mut cam = FxVec2 { x: 0, y: 0 };
    // target above the camera window: the camera chases the clamped point
    let target = FxVec2 { x: 10 * SCALE, y: 500 * SCALE };
    flier_core::world::camera_follow(&mut cam, target, &cfg, DT_60);
    assert!(cam.y <= cfg.cam_max_y);
    assert!(cam.x > 0 && cam.x < 10 * SCALE);
    for _ in 0..600 {
        flier_core::world::camera_follow(&mut cam, target, &cfg, DT_60);
    }
    assert!(cam.y <= cfg.cam_max_y, "never past the window");
}

#[test]
fn parallax_layers_move_against_the_camera() {
    // a factor of 0.06: trunc(100 * 3932) of the reversed camera
    let factor = 3932; // 0.06 in fixed point
    let x = flier_core::world::parallax_system(100 * SCALE, factor);
    assert_eq!(x, -393200);
    assert_eq!(flier_core::world::parallax_system(0, factor), 0);
}
