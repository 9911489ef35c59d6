//! The per-tick input snapshot: held directions and the dash intent,
//! packed as bit flags, plus the aim position in world coordinates.

use vstd::prelude::*;
use crate::fx::SCALE;
use crate::vec2::{normalize_or_zero, normalize_s, FxVec2};

verus! {

pub const INPUT_UP: u8 = 1;

pub const INPUT_DOWN: u8 = 2;

pub const INPUT_LEFT: u8 = 4;

pub const INPUT_RIGHT: u8 = 8;

pub const INPUT_DASH: u8 = 16;

/// The held keys of one tick, one bit per intent.
#[derive(Clone, Copy, Debug, PartialEq, Eq, Structural, Default)]
pub struct Input(pub u8);

/// The cursor's world position of one tick, used for dash aiming.
#[derive(Clone, Copy, Debug, PartialEq, Eq, Structural)]
pub struct MousePos(pub FxVec2);

/// The held movement intent as a unit vector.
pub open spec fn input_dir_s(i: Input) -> FxVec2 {
    let d = normalize_s(
        axis_intent(i.right(), i.left()),
        axis_intent(i.up(), i.down()),
    );
    FxVec2 { x: d.0 as i64, y: d.1 as i64 }
}

/// The unscaled movement intent on one axis: plus one for the positive
/// key, minus one for the negative key, their sum when both are held.
pub open spec fn axis_intent(pos_held: bool, neg_held: bool) -> int {
    (if pos_held {
        SCALE as int
    } else {
        0
    }) - (if neg_held {
        SCALE as int
    } else {
        0
    })
}

impl Input {
    pub open spec fn up(self) -> bool {
        self.0 & INPUT_UP != 0
    }

    pub open spec fn down(self) -> bool {
        self.0 & INPUT_DOWN != 0
    }

    pub open spec fn left(self) -> bool {
        self.0 & INPUT_LEFT != 0
    }

    pub open spec fn right(self) -> bool {
        self.0 & INPUT_RIGHT != 0
    }

    /// The held movement intent as a unit direction (or zero): the sum
    /// of the held axis keys, normalized.
    pub fn dir(&self) -> (r: FxVec2)
        ensures
            r == input_dir_s(*self),
            -SCALE <= r.x <= SCALE,
            -SCALE <= r.y <= SCALE,
    {
        let mut x: i64 = 0;
        let mut y: i64 = 0;
        if self.0 & INPUT_UP != 0 {
            y = y + SCALE;
        }
        if self.0 & INPUT_DOWN != 0 {
            y = y - SCALE;
        }
        if self.0 & INPUT_RIGHT != 0 {
            x = x + SCALE;
        }
        if self.0 & INPUT_LEFT != 0 {
            x = x - SCALE;
        }
        proof {
            crate::vec2::lemma_normalize_unit(x as int, y as int);
        }
        normalize_or_zero(FxVec2 { x, y })
    }

    /// Whether the dash intent is held.
    pub open spec fn dash_held(self) -> bool {
        self.0 & INPUT_DASH != 0
    }

    /// Whether the dash intent is held.
    pub fn dash(&self) -> (r: bool)
        ensures
            r == self.dash_held(),
    {
        self.0 & INPUT_DASH != 0
    }
}

} // verus!
