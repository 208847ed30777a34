//! Turning key events from the terminal into command tokens.
//!
//! The reading thread hands each event over as a [`KeyPress`]; only key
//! presses are turned into tokens, releases and repeats are dropped.
use vstd::prelude::*;

verus! {

/// The key of a key event.
#[derive(PartialEq, Eq, Structural, Debug, Clone, Copy)]
pub enum KeyCode {
    Char(char),
    Enter,
    /// Any key that is neither a character nor enter.
    Other,
}

/// One key event as the terminal reports it.
#[derive(PartialEq, Eq, Structural, Debug, Clone, Copy)]
pub struct KeyPress {
    pub code: KeyCode,
    /// Whether the control modifier, and no other, was held.
    pub control: bool,
    /// Whether this is a press, as opposed to a release or a repeat.
    pub is_press: bool,
}

/// One user intent, sent once per key press, in press order.
#[derive(PartialEq, Eq, Structural, Debug, Clone, Copy)]
pub enum Command {
    /// `p`
    Pause,
    /// `r`
    Resume,
    /// `q`: end the current phase, or decline another cycle.
    Quit,
    /// `s`
    Skip,
    /// Control-C: end the program.
    ForceExit,
    /// Enter.
    Confirm,
    /// Any other printable character.
    Char(char),
}

/// The command a typed character stands for.
pub open spec fn command_of_char(c: char) -> Command {
    if c == 'p' {
        Command::Pause
    } else if c == 'r' {
        Command::Resume
    } else if c == 'q' {
        Command::Quit
    } else if c == 's' {
        Command::Skip
    } else {
        Command::Char(c)
    }
}

/// The token a key event yields, if any.
pub open spec fn command_of_key(key: KeyPress) -> Option<Command> {
    if !key.is_press {
        None
    } else {
        match key.code {
            KeyCode::Char(c) => if c == 'c' && key.control {
                Some(Command::ForceExit)
            } else {
                Some(command_of_char(c))
            },
            KeyCode::Enter => Some(Command::Confirm),
            KeyCode::Other => None,
        }
    }
}

pub fn command_from_char(c: char) -> (r: Command)
    ensures
        r == command_of_char(c),
{
    if c == 'p' {
        Command::Pause
    } else if c == 'r' {
        Command::Resume
    } else if c == 'q' {
        Command::Quit
    } else if c == 's' {
        Command::Skip
    } else {
        Command::Char(c)
    }
}

/// The token to send for a key event; `None` for events that send nothing.
/// The reading thread ends after it has sent [`Command::ForceExit`].
pub fn process_key_event(key: KeyPress) -> (r: Option<Command>)
    ensures
        r == command_of_key(key),
{
    if !key.is_press {
        return None;
    }
    match key.code {
        KeyCode::Char(c) => {
            if c == 'c' && key.control {
                Some(Command::ForceExit)
            } else {
                Some(command_from_char(c))
            }
        },
        KeyCode::Enter => Some(Command::Confirm),
        KeyCode::Other => None,
    }
}

} // verus!
