//! The in-game state: cursor grabbing and leaving the game.
use vstd::prelude::*;
use super::KeyCode;

verus! {

/// What a key press in the game asks for.
#[derive(Debug, PartialEq, Eq, Clone, Copy)]
pub enum GameKeyAction {
    /// Back: leave the game (pop the state).
    PopState,
    /// Escape: set the cursor grab and visibility, then record the toggle with
    /// `cursor_toggled`.
    ToggleCursor { grab: bool, visible: bool },
    Nothing,
}

/// Whether the game holds the cursor.
pub struct CursorState {
    grabbed: bool,
}

impl CursorState {
    /// The cursor is not grabbed until the game starts.
    pub fn new() -> (c: Self)
        ensures
            !c.is_grabbed(),
    {
        CursorState { grabbed: false }
    }

    pub closed spec fn is_grabbed(&self) -> bool {
        self.grabbed
    }

    /// Whether the cursor is grabbed.
    pub fn grabbed(&self) -> (g: bool)
        ensures
            g == self.is_grabbed(),
    {
        self.grabbed
    }

    /// Records that the window has grabbed (`true`) or released (`false`) the cursor.
    pub fn set_grabbed(&mut self, grabbed: bool)
        ensures
            final(self).is_grabbed() == grabbed,
    {
        self.grabbed = grabbed;
    }

    /// The game's answer to a pressed key: Back leaves, Escape asks to flip the grab (and
    /// to show the cursor exactly when it was grabbed).
    pub fn key_action(&self, key: Option<KeyCode>) -> (a: GameKeyAction)
        ensures
            a == match key {
                Some(KeyCode::Back) => GameKeyAction::PopState,
                Some(KeyCode::Escape) => GameKeyAction::ToggleCursor {
                    grab: !self.is_grabbed(),
                    visible: self.is_grabbed(),
                },
                _ => GameKeyAction::Nothing,
            },
    {
        match key {
            Some(KeyCode::Back) => GameKeyAction::PopState,
            Some(KeyCode::Escape) => GameKeyAction::ToggleCursor { grab: !self.grabbed, visible: self.grabbed },
            _ => GameKeyAction::Nothing,
        }
    }

    /// Records that the toggle that `key_action` asked for was carried out.
    pub fn cursor_toggled(&mut self)
        ensures
            final(self).is_grabbed() == !old(self).is_grabbed(),
    {
        self.grabbed = !self.grabbed;
    }
}

} // verus!
