use engine::game::state::game::{CursorState, GameKeyAction};
use engine::game::state::loading::{LoadingState, LoadingStep};
use engine::game::state::main::{main_inactive_key, main_key_action, MainKeyAction};
use engine::game::state::KeyCode;
use engine::game_state::GameState;
use engine::ui::console::{parse_command, Console, ConsoleAction, ConsoleCommand};

fn console_with(command: &str) -> Console {
    let mut c = Console::default();
    c.set_command(command.to_string());
    c
}

#[test]
fn console_starts_closed_and_empty() {
    let c = Console::default();
    assert!(!c.is_open());
    assert_eq!(c.log(), "");
    assert_eq!(c.command(), "");
}

#[test]
fn commands_are_logged_and_the_line_cleared() {
    let mut c = console_with("  hello ");
    assert_eq!(c.handle_command(), ConsoleAction::Nothing);
    assert_eq!(c.log(), "CMD:   hello \n");
    assert_eq!(c.command(), "");
}

#[test]
fn clear_empties_the_log() {
    let mut c = console_with("foo");
    c.handle_command();
    c.set_command(" clear\t".to_string());
    assert_eq!(c.handle_command(), ConsoleAction::Nothing);
    assert_eq!(c.log(), "");
}

#[test]
fn josh_off_asks_for_removal_and_reports_it() {
    let mut c = console_with("josh off");
    assert_eq!(c.handle_command(), ConsoleAction::RemoveJosh);
    c.josh_removed();
    assert_eq!(c.log(), "CMD: josh off\nJosh successfully obliterated!\n");
}

#[test]
fn show_debug_asks_for_the_window() {
    let mut c = console_with("show debug ");
    assert_eq!(c.handle_command(), ConsoleAction::ShowDebugWindow);
    assert_eq!(c.log(), "CMD: show debug \n");
}

#[test]
fn command_names() {
    assert_eq!(parse_command("clear"), ConsoleCommand::Clear);
    assert_eq!(parse_command("josh off"), ConsoleCommand::JoshOff);
    assert_eq!(parse_command("show debug"), ConsoleCommand::ShowDebug);
    assert_eq!(parse_command("Clear"), ConsoleCommand::Unknown);
    assert_eq!(parse_command(""), ConsoleCommand::Unknown);
}

#[test]
fn main_menu_keys() {
    assert_eq!(main_key_action(Some(KeyCode::Escape)), MainKeyAction::Exit);
    assert_eq!(main_key_action(Some(KeyCode::Return)), MainKeyAction::StartLoading);
    assert_eq!(main_key_action(Some(KeyCode::P)), MainKeyAction::Nothing);
    assert_eq!(main_key_action(None), MainKeyAction::Nothing);
}

#[test]
fn p_toggles_the_console_from_the_main_menu() {
    let mut c = Console::default();
    main_inactive_key(&mut c, Some(KeyCode::P));
    assert!(c.is_open());
    main_inactive_key(&mut c, Some(KeyCode::Escape));
    assert!(c.is_open());
    main_inactive_key(&mut c, Some(KeyCode::P));
    assert!(!c.is_open());
}

#[test]
fn loading_switches_to_the_game_when_done() {
    let mut l = LoadingState::new();
    assert_eq!(l.step(), LoadingStep::Stay);
    l.finish();
    assert_eq!(l.step(), LoadingStep::SwitchToGame);
}

#[test]
fn game_keys_and_cursor() {
    let mut c = CursorState::new();
    assert!(!c.grabbed());
    c.set_grabbed(true);
    assert_eq!(c.key_action(Some(KeyCode::Escape)), GameKeyAction::ToggleCursor { grab: false, visible: true });
    c.cursor_toggled();
    assert!(!c.grabbed());
    assert_eq!(c.key_action(Some(KeyCode::Escape)), GameKeyAction::ToggleCursor { grab: true, visible: false });
    assert_eq!(c.key_action(Some(KeyCode::Back)), GameKeyAction::PopState);
    assert_eq!(c.key_action(Some(KeyCode::Return)), GameKeyAction::Nothing);
}

#[test]
fn game_state_starts_running() {
    let g = GameState::new();
    assert!(!g.should_exit);
    assert!(!g.paused);
}

#[test]
fn closed_console_ignores_completed_lines() {
    let mut c = console_with("show debug");
    assert_eq!(c.update(true), None);
    assert_eq!(c.command(), "show debug");
    c.set_open(true);
    assert_eq!(c.update(false), None);
    assert_eq!(c.update(true), Some(ConsoleAction::ShowDebugWindow));
    assert_eq!(c.command(), "");
    assert_eq!(c.log(), "CMD: show debug\n");
}

#[test]
fn commands_are_trimmed_of_unicode_white_space_only() {
    let mut c = console_with("\u{3000}\u{a0}josh off\u{2029}\u{85}");
    assert_eq!(c.handle_command(), ConsoleAction::RemoveJosh);
    // A zero-width space is not white space, so the command is not recognised.
    let mut c = console_with("\u{200b}show debug");
    assert_eq!(c.handle_command(), ConsoleAction::Nothing);
    let mut c = console_with(" \t\n\r\u{b}\u{c}");
    assert_eq!(c.handle_command(), ConsoleAction::Nothing);
    assert_eq!(c.log(), "CMD:  \t\n\r\u{b}\u{c}\n");
}
