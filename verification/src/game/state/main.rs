//! The main menu.
use vstd::prelude::*;
use super::KeyCode;
use crate::ui::console::Console;

verus! {

/// What a key press in the main menu asks for.
#[derive(Debug, PartialEq, Eq, Clone, Copy)]
pub enum MainKeyAction {
    /// Escape: send the exit event to the event loop.
    Exit,
    /// Return: push a loading state.
    StartLoading,
    Nothing,
}

/// The main menu's answer to a pressed key.
pub fn main_key_action(key: Option<KeyCode>) -> (a: MainKeyAction)
    ensures
        a == match key {
            Some(KeyCode::Escape) => MainKeyAction::Exit,
            Some(KeyCode::Return) => MainKeyAction::StartLoading,
            _ => MainKeyAction::Nothing,
        },
{
    match key {
        Some(KeyCode::Escape) => MainKeyAction::Exit,
        Some(KeyCode::Return) => MainKeyAction::StartLoading,
        _ => MainKeyAction::Nothing,
    }
}

/// A key pressed while the main menu is not the active state: P opens or closes the console.
pub fn main_inactive_key(console: &mut Console, key: Option<KeyCode>)
    ensures
        final(console)@.open == if key == Some(KeyCode::P) { !old(console)@.open } else { old(console)@.open },
        final(console)@.log == old(console)@.log,
        final(console)@.command == old(console)@.command,
{
    if let Some(KeyCode::P) = key {
        let open = console.is_open();
        console.set_open(!open);
    }
}

} // verus!
