use flier_core::animation::{animate_player, Animation, AnimationDir, Blink};
use flier_core::physics::Velocity;
use flier_core::timer::{Timer, TimerMode};
use flier_core::vec2::FxVec2;
use flier_core::SCALE;

fn fly_sheet() -> Animation {
    Animation {
        first: 0,
        last: 3,
        dir: AnimationDir::Forwards,
        timer: Timer::new(6553, TimerMode::Repeating), // a tenth of a second
    }
}

#[test]
fn frames_ping_pong_between_ends() {
    let mut anim = fly_sheet();
    let mut index: usize = 0;
    let mut flip = false;
    let vel = Velocity::zero();
    let step = 6553; // one full frame period per call
    let mut seen = Vec::new();
    for _ in 0..8 {
        animate_player(&mut anim, &mut index, &mut flip, &vel, step);
        seen.push(index);
    }
    assert_eq!(seen, vec![1, 2, 3, 2, 1, 0, 1, 2]);
}

#[test]
fn facing_follows_horizontal_intent() {
    let mut anim = fly_sheet();
    let mut index: usize = 1;
    let mut flip = false;
    let left = Velocity {
        current: FxVec2 { x: 0, y: 0 },
        target: FxVec2 { x: -SCALE, y: 0 },
    };
    animate_player(&mut anim, &mut index, &mut flip, &left, 1);
    assert!(flip, "facing left");
    let idle = Velocity::zero();
    animate_player(&mut anim, &mut index, &mut flip, &idle, 1);
    assert!(flip, "no intent keeps the last facing");
}

#[test]
fn blink_period_is_exact() {
    let b = Blink::new(50);
    assert_eq!(b.timer.duration, 3276);
    assert_eq!(b.timer.mode, TimerMode::Repeating);
}
