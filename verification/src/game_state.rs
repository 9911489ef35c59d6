//! The top-level session state.

use vstd::prelude::*;

verus! {

/// Phases of a session.  The simulation core runs during `Running`; the
/// flier's death is the designed transition to `GameOver`.
#[derive(Clone, Copy, Debug, PartialEq, Eq, Structural, Default)]
pub enum GameState {
    #[default]
    AssetLoading,
    Setup,
    MainMenu,
    Running,
    GameOver,
}

} // verus!
