//! The state that loads a level.
use vstd::prelude::*;

verus! {

/// Loads settings, the player and the scene, then hands over to the game.
pub struct LoadingState {
    done: bool,
}

/// What the loading state asks for after an update.
#[derive(Debug, PartialEq, Eq, Clone, Copy)]
pub enum LoadingStep {
    /// Keep loading.
    Stay,
    /// Loading is done: switch to the game.
    SwitchToGame,
}

impl LoadingState {
    /// Nothing loaded yet.
    pub fn new() -> (s: Self)
        ensures
            !s.is_done(),
    {
        LoadingState { done: false }
    }

    pub closed spec fn is_done(&self) -> bool {
        self.done
    }

    /// Records that everything has been loaded.
    pub fn finish(&mut self)
        ensures
            final(self).is_done(),
    {
        self.done = true;
    }

    /// After an update: switch to the game once loading is done.
    pub fn step(&self) -> (s: LoadingStep)
        ensures
            s == if self.is_done() { LoadingStep::SwitchToGame } else { LoadingStep::Stay },
    {
        if self.done {
            LoadingStep::SwitchToGame
        } else {
            LoadingStep::Stay
        }
    }
}

} // verus!
