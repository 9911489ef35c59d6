use flier_core::config::GameConfig;
use flier_core::enemy::{weak_point_hit, EnemyMovement, WeakSpot, WeakSpotLocation};
use flier_core::health::Health;
use flier_core::physics::{circles_overlap, GroundState, Radius, Velocity};
use flier_core::player::DashEffect;
use flier_core::score::Score;
use flier_core::vec2::FxVec2;
use flier_core::world::{
    player_damage_drone_system, player_drone_collision_system, DroneEnt, Flier,
};
use flier_core::SCALE;

fn drone_at(x: i64, y: i64, loc: WeakSpotLocation) -> DroneEnt {
    DroneEnt {
        pos: FxVec2 { x, y },
        vel: Velocity::zero(),
        radius: Radius(16 * SCALE),
        health: Health::new(1),
        weak_spot: WeakSpot::new(loc, 16 * SCALE),
        movement: EnemyMovement { period: 4 * SCALE, speed: 80 * SCALE },
        wobble: None,
        airborne_exempt: true,
        ground: GroundState::Airborne,
    }
}

fn flier_at(x: i64, y: i64) -> Flier {
    Flier {
        pos: FxVec2 { x, y },
        vel: Velocity {
            current: FxVec2 { x: 10 * SCALE, y: 0 },
            target: FxVec2 { x: 10 * SCALE, y: 0 },
        },
        radius: Radius(16 * SCALE),
        health: Health::new(3),
        ground: GroundState::Airborne,
        charging: None,
        dashing: None,
        effect: None,
        immunity: None,
        blink: None,
        alpha: SCALE,
        arrow: flier_core::player::DashDirectionArrow::hidden(),
    }
}

#[test]
fn circle_overlap_threshold_is_exact() {
    let a = FxVec2 { x: 0, y: 0 };
    let b = FxVec2 { x: 32 * SCALE, y: 0 };
    assert!(circles_overlap(a, 16 * SCALE, b, 16 * SCALE), "touching counts");
    let c = FxVec2 { x: 32 * SCALE + 1, y: 0 };
    assert!(!circles_overlap(a, 16 * SCALE, c, 16 * SCALE));
}

#[test]
fn body_collision_damages_and_attaches_immunity() {
    // flier at the origin, drone at (30, 0), both radius 16: the
    // distance 30 is under 32, so the hit lands; health drops by one
    // and an immunity window with its blink attaches
    let mut f = flier_at(0, 0);
    let drones = vec![drone_at(30 * SCALE, 0, WeakSpotLocation::North)];
    let (took, over) = player_drone_collision_system(&mut f, &drones);
    assert!(took);
    assert!(!over);
    assert_eq!(f.health.current, 2);
    assert!(f.immunity.is_some());
    assert!(f.blink.is_some());
    assert_eq!(f.immunity.unwrap().timer.duration, SCALE); // one second
    // knockback reflects along the dominant separation axis (x here)
    assert_eq!(f.vel.current.x, -10 * SCALE);
    assert_eq!(f.vel.target.x, -10 * SCALE);
}

#[test]
fn body_collision_at_distance_misses() {
    let mut f = flier_at(0, 0);
    let drones = vec![drone_at(40 * SCALE, 0, WeakSpotLocation::North)];
    let (took, over) = player_drone_collision_system(&mut f, &drones);
    assert!(!took);
    assert!(!over);
    assert_eq!(f.health.current, 3);
    assert!(f.immunity.is_none());
}

#[test]
fn last_hit_point_ends_the_game() {
    let mut f = flier_at(0, 0);
    f.health = Health { current: 1, max: 3 };
    let drones = vec![drone_at(30 * SCALE, 0, WeakSpotLocation::North)];
    let (took, over) = player_drone_collision_system(&mut f, &drones);
    assert!(took);
    assert!(over, "zero health is the designed terminal transition");
    assert!(f.immunity.is_none(), "no immunity on the killing hit");
}

#[test]
fn first_overlapping_drone_wins() {
    let mut f = flier_at(0, 0);
    let drones = vec![
        drone_at(200 * SCALE, 0, WeakSpotLocation::North),
        drone_at(30 * SCALE, 0, WeakSpotLocation::North),
        drone_at(0, 30 * SCALE, WeakSpotLocation::North),
    ];
    let (took, _) = player_drone_collision_system(&mut f, &drones);
    assert!(took);
    // only one hit is processed per tick: one point of damage
    assert_eq!(f.health.current, 2);
}

#[test]
fn weak_point_hit_is_rotation_correct() {
    // the same threshold on every orthogonal side: along the outward
    // axis the test hits at distance threshold - 1 unit and misses at
    // threshold + 1 unit; threshold = side/4 + flier radius = 4 + 16
    let side = 16 * SCALE;
    let eradius = 16 * SCALE;
    let pradius = 16 * SCALE;
    let threshold = side / 4 + pradius;
    let epos = FxVec2 { x: 0, y: 0 };
    for loc in [
        WeakSpotLocation::North,
        WeakSpotLocation::South,
        WeakSpotLocation::West,
        WeakSpotLocation::East,
    ] {
        let spot = WeakSpot::new(loc, side);
        let dir = loc.to_dir();
        let center = FxVec2 {
            x: dir.x / SCALE * eradius,
            y: dir.y / SCALE * eradius,
        };
        let near = FxVec2 {
            x: center.x + dir.x / SCALE * (threshold - SCALE),
            y: center.y + dir.y / SCALE * (threshold - SCALE),
        };
        let far = FxVec2 {
            x: center.x + dir.x / SCALE * (threshold + SCALE),
            y: center.y + dir.y / SCALE * (threshold + SCALE),
        };
        assert!(
            weak_point_hit(near, pradius, epos, eradius, &spot),
            "hit under the threshold"
        );
        assert!(
            !weak_point_hit(far, pradius, epos, eradius, &spot),
            "miss over the threshold"
        );
    }
}

#[test]
fn weak_point_miss_on_the_wrong_side() {
    let spot = WeakSpot::new(WeakSpotLocation::North, 16 * SCALE);
    let epos = FxVec2 { x: 0, y: 0 };
    // approach from below while the spot faces north
    let below = FxVec2 { x: 0, y: -20 * SCALE };
    assert!(!weak_point_hit(below, 16 * SCALE, epos, 16 * SCALE, &spot));
}

#[test]
fn three_consecutive_kills_score_six() {
    // combo starting at zero: 1 + (1+1) + (1+2) == 6
    let mut vel = Velocity::zero();
    let mut effect = DashEffect::new(FxVec2 { x: 0, y: -SCALE }, SCALE, SCALE);
    let mut drones = vec![
        drone_at(0, -30 * SCALE, WeakSpotLocation::North),
        drone_at(0, -30 * SCALE, WeakSpotLocation::North),
        drone_at(0, -30 * SCALE, WeakSpotLocation::North),
    ];
    let mut score = Score(0);
    player_damage_drone_system(
        FxVec2 { x: 0, y: 0 },
        16 * SCALE,
        &mut vel,
        &mut effect,
        &mut drones,
        &mut score,
    );
    assert_eq!(score.0, 6);
    assert_eq!(effect.combo, 3);
    assert!(drones.is_empty());
}

#[test]
fn partial_charge_kill_reflects_velocity() {
    let mut vel = Velocity {
        current: FxVec2 { x: 0, y: -5 * SCALE },
        target: FxVec2 { x: 0, y: -5 * SCALE },
    };
    let mut effect = DashEffect::new(FxVec2 { x: 0, y: -SCALE }, SCALE / 2, SCALE);
    let mut drones = vec![drone_at(0, -30 * SCALE, WeakSpotLocation::North)];
    let mut score = Score(0);
    player_damage_drone_system(
        FxVec2 { x: 0, y: 0 },
        16 * SCALE,
        &mut vel,
        &mut effect,
        &mut drones,
        &mut score,
    );
    assert_eq!(score.0, 1);
    assert!(drones.is_empty());
    // dominant axis is y: vertical velocities flipped
    assert_eq!(vel.current.y, 5 * SCALE);
    assert_eq!(vel.target.y, 5 * SCALE);
}

#[test]
fn full_charge_kill_passes_through() {
    let mut vel = Velocity {
        current: FxVec2 { x: 0, y: -5 * SCALE },
        target: FxVec2 { x: 0, y: -5 * SCALE },
    };
    let mut effect = DashEffect::new(FxVec2 { x: 0, y: -SCALE }, SCALE, SCALE);
    let mut drones = vec![drone_at(0, -30 * SCALE, WeakSpotLocation::North)];
    let mut score = Score(0);
    player_damage_drone_system(
        FxVec2 { x: 0, y: 0 },
        16 * SCALE,
        &mut vel,
        &mut effect,
        &mut drones,
        &mut score,
    );
    assert!(drones.is_empty());
    assert_eq!(vel.current.y, -5 * SCALE, "full power keeps its momentum");
}
