//! The developer console: a log and a command line.
use vstd::prelude::*;

verus! {

/// A character with Unicode's `White_Space` property, which is what `char::is_whitespace`
/// answers.
pub open spec fn is_white_space(c: char) -> bool {
    let u = c as u32;
    ||| 0x09 <= u <= 0x0d
    ||| u == 0x20
    ||| u == 0x85
    ||| u == 0xa0
    ||| u == 0x1680
    ||| 0x2000 <= u <= 0x200a
    ||| u == 0x2028
    ||| u == 0x2029
    ||| u == 0x202f
    ||| u == 0x205f
    ||| u == 0x3000
}

/// `s` without its leading white space.
pub open spec fn trim_start(s: Seq<char>) -> Seq<char>
    decreases s.len(),
{
    if s.len() > 0 && is_white_space(s[0]) {
        trim_start(s.drop_first())
    } else {
        s
    }
}

/// `s` without its trailing white space.
pub open spec fn trim_end(s: Seq<char>) -> Seq<char>
    decreases s.len(),
{
    if s.len() > 0 && is_white_space(s.last()) {
        trim_end(s.drop_last())
    } else {
        s
    }
}

/// `s` without its leading and trailing white space.
pub open spec fn trimmed(s: Seq<char>) -> Seq<char> {
    trim_end(trim_start(s))
}

/// Calls `str::trim`, which returns the slice with its leading and trailing white space
/// (characters with the `White_Space` property) removed.
#[verifier::external_body]
fn str_trim(s: &str) -> (r: &str)
    ensures
        r@ == trimmed(s@),
{
    s.trim()
}

/// The commands that the console knows.
#[derive(Debug, PartialEq, Eq, Clone, Copy)]
pub enum ConsoleCommand {
    /// `clear`: empty the log.
    Clear,
    /// `josh off`: remove the entity that stands at the marked spot.
    JoshOff,
    /// `show debug`: open the camera debug window.
    ShowDebug,
    /// Anything else: ignored.
    Unknown,
}

/// What the application must do after a command.
#[derive(Debug, PartialEq, Eq, Clone, Copy)]
pub enum ConsoleAction {
    Nothing,
    /// Remove the entity that stands at the marked spot, then report with `josh_removed`.
    RemoveJosh,
    /// Insert the camera debug window.
    ShowDebugWindow,
}

/// The command that a trimmed command line names.
pub open spec fn command_of(line: Seq<char>) -> ConsoleCommand {
    if line == "clear"@ {
        ConsoleCommand::Clear
    } else if line == "josh off"@ {
        ConsoleCommand::JoshOff
    } else if line == "show debug"@ {
        ConsoleCommand::ShowDebug
    } else {
        ConsoleCommand::Unknown
    }
}

/// Names the command of a trimmed command line.
pub fn parse_command(line: &str) -> (c: ConsoleCommand)
    ensures
        c == command_of(line@),
{
    let l = String::from_str(line);
    if l == String::from_str("clear") {
        ConsoleCommand::Clear
    } else if l == String::from_str("josh off") {
        ConsoleCommand::JoshOff
    } else if l == String::from_str("show debug") {
        ConsoleCommand::ShowDebug
    } else {
        ConsoleCommand::Unknown
    }
}

/// The log, command line and visibility of the console.
pub struct ConsoleView {
    pub open: bool,
    pub log: Seq<char>,
    pub command: Seq<char>,
}

/// The developer console.
pub struct Console {
    pub open: bool,
    log: String,
    command: String,
}

impl View for Console {
    type V = ConsoleView;

    closed spec fn view(&self) -> ConsoleView {
        ConsoleView { open: self.open, log: self.log@, command: self.command@ }
    }
}

/// The line that the log records for a command.
pub open spec fn command_log_line(command: Seq<char>) -> Seq<char> {
    "CMD: "@ + command + "\n"@
}

impl Default for Console {
    /// A closed console with an empty log and an empty command line.
    fn default() -> (c: Self)
        ensures
            c@.open == false,
            c@.log == Seq::<char>::empty(),
            c@.command == Seq::<char>::empty(),
    {
        Console { open: false, log: String::new(), command: String::new() }
    }
}

impl Console {
    /// Whether the console is shown.
    pub fn is_open(&self) -> (o: bool)
        ensures
            o == self@.open,
    {
        self.open
    }

    /// Shows or hides the console.
    pub fn set_open(&mut self, open: bool)
        ensures
            final(self)@ == (ConsoleView { open, ..old(self)@ }),
    {
        self.open = open;
    }

    /// The log.
    pub fn log(&self) -> (l: &String)
        ensures
            l@ == self@.log,
    {
        &self.log
    }

    /// The command line.
    pub fn command(&self) -> (c: &String)
        ensures
            c@ == self@.command,
    {
        &self.command
    }

    /// Replaces the command line (as the text field edits it).
    pub fn set_command(&mut self, command: String)
        ensures
            final(self)@.command == command@,
            final(self)@.open == old(self)@.open,
            final(self)@.log == old(self)@.log,
    {
        self.command = command;
    }

    /// Runs `command` (the trimmed command line): `clear` empties the log, the others ask
    /// the application to act. The command line is emptied.
    pub fn run_command(&mut self, command: &str) -> (a: ConsoleAction)
        ensures
            final(self)@.open == old(self)@.open,
            final(self)@.command == Seq::<char>::empty(),
            final(self)@.log == if command_of(command@) == ConsoleCommand::Clear {
                Seq::<char>::empty()
            } else {
                old(self)@.log
            },
            a == match command_of(command@) {
                ConsoleCommand::JoshOff => ConsoleAction::RemoveJosh,
                ConsoleCommand::ShowDebug => ConsoleAction::ShowDebugWindow,
                _ => ConsoleAction::Nothing,
            },
    {
        let action = match parse_command(command) {
            ConsoleCommand::Clear => {
                self.log = String::new();
                ConsoleAction::Nothing
            },
            ConsoleCommand::JoshOff => ConsoleAction::RemoveJosh,
            ConsoleCommand::ShowDebug => ConsoleAction::ShowDebugWindow,
            ConsoleCommand::Unknown => ConsoleAction::Nothing,
        };
        self.command = String::new();
        action
    }

    /// Handles the completed command line: records it in the log, then runs it trimmed.
    pub fn handle_command(&mut self) -> (a: ConsoleAction)
        ensures
            final(self)@.open == old(self)@.open,
            final(self)@.command == Seq::<char>::empty(),
            final(self)@.log == if command_of(trimmed(old(self)@.command)) == ConsoleCommand::Clear {
                Seq::<char>::empty()
            } else {
                old(self)@.log + command_log_line(old(self)@.command)
            },
            a == match command_of(trimmed(old(self)@.command)) {
                ConsoleCommand::JoshOff => ConsoleAction::RemoveJosh,
                ConsoleCommand::ShowDebug => ConsoleAction::ShowDebugWindow,
                _ => ConsoleAction::Nothing,
            },
    {
        let command = self.command.clone();
        self.log.append("CMD: ");
        self.log.append(command.as_str());
        self.log.append("\n");
        assert(self.log@ =~= old(self)@.log + command_log_line(old(self)@.command));
        let line = str_trim(command.as_str());
        self.run_command(line)
    }

    /// The console's part of a frame, once its window has been drawn: when the console is
    /// open and the command line was completed, the command is handled and its action
    /// returned; otherwise nothing happens.
    pub fn update(&mut self, command_completed: bool) -> (a: Option<ConsoleAction>)
        ensures
            !(old(self)@.open && command_completed) ==> a is None && final(self)@ == old(self)@,
            old(self)@.open && command_completed ==> a == Some(
                match command_of(trimmed(old(self)@.command)) {
                    ConsoleCommand::JoshOff => ConsoleAction::RemoveJosh,
                    ConsoleCommand::ShowDebug => ConsoleAction::ShowDebugWindow,
                    _ => ConsoleAction::Nothing,
                },
            ) && final(self)@.command == Seq::<char>::empty() && final(self)@.open
                && final(self)@.log == if command_of(trimmed(old(self)@.command)) == ConsoleCommand::Clear {
                    Seq::<char>::empty()
                } else {
                    old(self)@.log + command_log_line(old(self)@.command)
                },
    {
        if self.open && command_completed {
            Some(self.handle_command())
        } else {
            None
        }
    }

    /// Records that the entity asked for by `josh off` was removed.
    pub fn josh_removed(&mut self)
        ensures
            final(self)@.open == old(self)@.open,
            final(self)@.command == old(self)@.command,
            final(self)@.log == old(self)@.log + "Josh successfully obliterated!\n"@,
    {
        self.log.append("Josh successfully obliterated!\n");
    }
}

} // verus!
