//! The decisions of the game's states: which key does what.
pub mod game;
pub mod loading;
pub mod main;

use vstd::prelude::*;

verus! {

/// The keys that the game's states react to; every other key is `Other`.
#[derive(Debug, PartialEq, Eq, Clone, Copy)]
pub enum KeyCode {
    Back,
    Escape,
    Return,
    P,
    Other,
}

} // verus!
