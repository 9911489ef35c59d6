//! The score ledger.

use vstd::prelude::*;

verus! {

/// Accumulated points.  Each kill awards `1 + combo`, where the combo
/// counter lives with the dash effect or nuke that scored it.
#[derive(Clone, Copy, Debug, PartialEq, Eq, Structural)]
pub struct Score(pub u32);

} // verus!
