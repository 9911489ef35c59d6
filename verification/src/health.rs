//! Hit points.

use vstd::prelude::*;

verus! {

/// Remaining and maximum hit points.  An entity whose current health
/// reaches zero is marked for destruction: the flier's death ends the
/// game, a drone's death despawns it.
#[derive(Clone, Copy, Debug, PartialEq, Eq, Structural)]
pub struct Health {
    pub current: u8,
    pub max: u8,
}

impl Health {
    pub open spec fn wf(self) -> bool {
        self.current <= self.max
    }

    /// Full health at the given maximum.
    pub fn new(value: u8) -> (r: Health)
        ensures
            r == (Health { current: value, max: value }),
            r.wf(),
    {
        Health { current: value, max: value }
    }
}

/// Marker for an entity whose destruction has been decided.
#[derive(Clone, Copy, Debug, PartialEq, Eq, Structural)]
pub struct Killed;

} // verus!
