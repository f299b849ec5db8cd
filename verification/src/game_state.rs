//! The first-generation game's global flags.
use vstd::prelude::*;

verus! {

/// Whether the game should exit, and whether it is paused.
pub struct GameState {
    pub should_exit: bool,
    pub paused: bool,
}

impl GameState {
    /// Running and not paused.
    pub fn new() -> (g: GameState)
        ensures
            !g.should_exit,
            !g.paused,
    {
        GameState { should_exit: false, paused: false }
    }
}

} // verus!
