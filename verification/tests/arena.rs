use flier_core::combat::{
    collision_immunity_system, death_system, drone_player_collision_system, DroneState,
    PlayerState,
};
use flier_core::components::{
    CollisionImmunity, ColorRgb, Drone, Health, Velocity, WeakPointSide,
};
use flier_core::constants::{COLLISION_IMMUNITY_DURATION, DRONE_REPULSION_FORCE};
use flier_core::timer::{Timer, TimerMode};
use flier_core::vec2::FxVec2;
use flier_core::SCALE;

const WHITE: ColorRgb = ColorRgb { r: 255, g: 255, b: 255 };
const GREY: ColorRgb = ColorRgb { r: 200, g: 200, b: 200 };
const RED: ColorRgb = ColorRgb { r: 255, g: 50, b: 50 };

fn player_at(x: i64, y: i64, dashing: bool) -> PlayerState {
    PlayerState {
        pos: FxVec2 { x, y },
        vel: Velocity(FxVec2 { x: 0, y: 0 }),
        dashing,
        health: Health { current: 5, max: 5 },
        immunity: None,
    }
}

fn drone_at(x: i64, y: i64, side: WeakPointSide) -> DroneState {
    DroneState {
        pos: FxVec2 { x, y },
        vel: Velocity(FxVec2 { x: 0, y: 0 }),
        drone: Drone { hp: 3, weak_point: side },
        immunity: None,
    }
}

#[test]
fn death_at_zero_or_below() {
    assert!(death_system(&Health { current: 0, max: 5 }));
    assert!(death_system(&Health { current: -2, max: 5 }));
    assert!(!death_system(&Health { current: 1, max: 5 }));
}

#[test]
fn dash_on_weak_side_destroys_drone() {
    // weak point faces left; the dashing player approaches from the left
    let mut p = player_at(0, 0, true);
    let mut drones = vec![drone_at(30 * SCALE, 0, WeakPointSide::Left)];
    let hit = drone_player_collision_system(&mut p, &mut drones, GREY, RED);
    assert_eq!(hit, Some(0));
    assert!(drones.is_empty(), "three damage kills a three-point drone");
    assert_eq!(p.health.current, 5, "a weak-point dash costs nothing");
    assert!(p.immunity.is_none());
}

#[test]
fn dash_on_armored_side_is_a_normal_hit() {
    // weak point faces right; the player comes from the left
    let mut p = player_at(0, 0, true);
    let mut drones = vec![drone_at(30 * SCALE, 0, WeakPointSide::Right)];
    let hit = drone_player_collision_system(&mut p, &mut drones, GREY, RED);
    assert_eq!(hit, Some(0));
    assert_eq!(p.health.current, 4);
    assert_eq!(drones.len(), 1);
    assert_eq!(drones[0].drone.hp, 3, "the drone keeps its hit points");
    // both sides get an immunity window remembering their color
    let pi = p.immunity.unwrap();
    assert_eq!(pi.timer.duration, COLLISION_IMMUNITY_DURATION);
    assert!(pi.blink);
    assert_eq!(pi.original_color, Some(GREY));
    let di = drones[0].immunity.unwrap();
    assert_eq!(di.original_color, Some(RED));
    // symmetric repulsion along the separation: player pushed left
    assert_eq!(p.vel.0.x, -DRONE_REPULSION_FORCE);
    assert_eq!(drones[0].vel.0.x, DRONE_REPULSION_FORCE);
}

#[test]
fn collision_skipped_while_immune() {
    let mut p = player_at(0, 0, false);
    p.immunity = Some(CollisionImmunity {
        timer: Timer::new(COLLISION_IMMUNITY_DURATION, TimerMode::Once),
        blink: true,
        original_color: Some(GREY),
    });
    let mut drones = vec![drone_at(10 * SCALE, 0, WeakPointSide::Left)];
    let hit = drone_player_collision_system(&mut p, &mut drones, GREY, RED);
    assert_eq!(hit, None);
    assert_eq!(p.health.current, 5);
}

#[test]
fn immune_drone_is_skipped_for_the_next_one() {
    let mut p = player_at(0, 0, false);
    let mut shielded = drone_at(10 * SCALE, 0, WeakPointSide::Left);
    shielded.immunity = Some(CollisionImmunity {
        timer: Timer::new(COLLISION_IMMUNITY_DURATION, TimerMode::Once),
        blink: true,
        original_color: Some(RED),
    });
    let mut drones = vec![shielded, drone_at(20 * SCALE, 0, WeakPointSide::Right)];
    let hit = drone_player_collision_system(&mut p, &mut drones, GREY, RED);
    assert_eq!(hit, Some(1), "the shielded drone is passed over");
    assert_eq!(p.health.current, 4);
}

#[test]
fn out_of_radius_is_no_contact() {
    let mut p = player_at(0, 0, false);
    let mut drones = vec![drone_at(41 * SCALE, 0, WeakPointSide::Left)];
    let hit = drone_player_collision_system(&mut p, &mut drones, GREY, RED);
    assert_eq!(hit, None, "40 units is the strict limit");
}

#[test]
fn immunity_blinks_white_then_restores() {
    let mut immunity = Some(CollisionImmunity {
        timer: Timer::new(COLLISION_IMMUNITY_DURATION, TimerMode::Once),
        blink: true,
        original_color: None,
    });
    let mut color = GREY;
    // first twelfth of a second: the flash is on
    collision_immunity_system(&mut immunity, &mut color, 1092);
    assert_eq!(color, WHITE);
    assert_eq!(immunity.unwrap().original_color, Some(GREY));
    // into the second twelfth: back to the remembered color
    collision_immunity_system(&mut immunity, &mut color, 5462 - 1092);
    assert_eq!(color, GREY);
    // tick the window out entirely: removed, color restored
    collision_immunity_system(&mut immunity, &mut color, COLLISION_IMMUNITY_DURATION);
    assert!(immunity.is_none());
    assert_eq!(color, GREY);
}
