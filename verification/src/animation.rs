//! Sprite-sheet animation bookkeeping: a ping-pong frame counter and
//! the blink timer presentation reads.  Only the frame arithmetic lives
//! here; drawing is the presentation layer's business.

use vstd::prelude::*;
use crate::fx::{FX_LIM, SCALE};
use crate::timer::{Timer, TimerMode};
use crate::physics::Velocity;

verus! {

/// Direction the frame counter currently walks.
#[derive(Clone, Copy, Debug, PartialEq, Eq, Structural, Default)]
pub enum AnimationDir {
    #[default]
    Forwards,
    Backwards,
}

/// A ping-pong animation over a frame range of a sprite sheet.
#[derive(Clone, Copy, Debug, PartialEq, Eq, Structural)]
pub struct Animation {
    pub first: usize,
    pub last: usize,
    pub dir: AnimationDir,
    pub timer: Timer,
}

/// The repeating blink timer of the flier's damage flicker.
#[derive(Clone, Copy, Debug, PartialEq, Eq, Structural)]
pub struct Blink {
    pub timer: Timer,
}

impl Blink {
    /// A repeating blink period given in milliseconds.
    pub fn new(duration_millis: u64) -> (r: Blink)
        requires
            1 <= duration_millis <= 1000000,
        ensures
            r.timer == (Timer {
                mode: TimerMode::Repeating,
                duration: ((duration_millis * SCALE) / 1000) as i64,
                elapsed: 0,
                finished: false,
            }),
            r.timer.wf(),
    {
        let raw = (duration_millis * (SCALE as u64)) / 1000;
        proof {
            assert(duration_millis * (SCALE as u64) >= 65536) by (nonlinear_arith)
                requires
                    duration_millis >= 1,
                    SCALE == 65536,
            ;
            assert(duration_millis * (SCALE as u64) <= 65536000000) by (nonlinear_arith)
                requires
                    duration_millis <= 1000000,
                    SCALE == 65536,
            ;
        }
        Blink { timer: Timer::new(raw as i64, TimerMode::Repeating) }
    }
}

impl Animation {
    pub open spec fn wf(self) -> bool {
        &&& self.first <= self.last < usize::MAX
        &&& self.timer.wf()
    }
}

/// One tick of the flier's sheet animation: the sprite faces the way
/// the intended velocity points; each time the frame timer wraps, the
/// frame index walks one step between the first and last frame,
/// turning around at each end.  Returns the new facing (whether the
/// sprite is flipped), kept when there is no horizontal intent.
pub open spec fn animate_tick(
    anim: Animation,
    atlas_index: int,
    flip_x: bool,
    vel: Velocity,
    dt: int,
) -> (Animation, int, bool) {
    let flip = if vel.target.x != 0 {
        vel.target.x < 0
    } else {
        flip_x
    };
    let t = anim.timer.ticked(dt);
    if t.finished {
        let idx = if anim.dir == AnimationDir::Forwards {
            atlas_index + 1
        } else {
            atlas_index - 1
        };
        let dir = if anim.dir == AnimationDir::Forwards && idx == anim.last {
            AnimationDir::Backwards
        } else if anim.dir == AnimationDir::Backwards && idx == anim.first {
            AnimationDir::Forwards
        } else {
            anim.dir
        };
        (Animation { dir, timer: t, ..anim }, idx, flip)
    } else {
        (Animation { timer: t, ..anim }, atlas_index, flip)
    }
}

/// Advance the flier's sheet animation; exact per `animate_tick`.
pub fn animate_player(
    anim: &mut Animation,
    atlas_index: &mut usize,
    flip_x: &mut bool,
    vel: &Velocity,
    dt: i64,
)
    requires
        old(anim).wf(),
        0 <= dt <= FX_LIM,
        old(anim).first <= *old(atlas_index) <= old(anim).last,
        old(anim).dir == AnimationDir::Forwards ==> *old(atlas_index) < old(anim).last,
        old(anim).dir == AnimationDir::Backwards ==> *old(atlas_index) > old(anim).first,
    ensures
        (*final(anim), (*final(atlas_index)) as int, *final(flip_x)) == animate_tick(
            *old(anim),
            (*old(atlas_index)) as int,
            *old(flip_x),
            *vel,
            dt as int,
        ),
        final(anim).wf(),
        final(anim).first <= *final(atlas_index) <= final(anim).last,
        final(anim).dir == AnimationDir::Forwards ==> *final(atlas_index) < final(anim).last,
        final(anim).dir == AnimationDir::Backwards ==> *final(atlas_index) > final(anim).first,
{
    if vel.target.x != 0 {
        *flip_x = vel.target.x < 0;
    }
    anim.timer.tick(dt);
    if anim.timer.finished {
        if matches!(anim.dir, AnimationDir::Forwards) {
            *atlas_index = *atlas_index + 1;
            if *atlas_index == anim.last {
                anim.dir = AnimationDir::Backwards;
            }
        } else {
            *atlas_index = *atlas_index - 1;
            if *atlas_index == anim.first {
                anim.dir = AnimationDir::Forwards;
            }
        }
    }
}

} // verus!
