//! Keys and the commands they stand for.

use vstd::prelude::*;

verus! {

/// A key press, reduced to what the player distinguishes.
#[derive(Clone, Copy, Debug, PartialEq, Eq, Structural)]
pub enum Key {
    Char(char),
    Left,
    Right,
    Enter,
    Other,
}

/// What the user can ask of the player.
#[derive(Clone, Copy, Debug, PartialEq, Eq, Structural)]
pub enum Command {
    /// Select the following track and play it.
    Advance,
    /// Select the preceding track and play it.
    Retreat,
    /// Pause a running session, resume a paused one.
    TogglePause,
    /// Play the selected track.
    Confirm,
    /// Leave the player.
    Quit,
}

/// The command bound to a key, if any.
pub open spec fn command_of(key: Key) -> Option<Command> {
    match key {
        Key::Char(c) => if c == 'q' {
            Some(Command::Quit)
        } else if c == ' ' {
            Some(Command::TogglePause)
        } else {
            None
        },
        Key::Right => Some(Command::Advance),
        Key::Left => Some(Command::Retreat),
        Key::Enter => Some(Command::Confirm),
        Key::Other => None,
    }
}

/// Looks up the command bound to a key: `q` quits, space toggles the pause,
/// the arrows move the selection and play, Enter plays; other keys do nothing.
pub fn command_for_key(key: Key) -> (r: Option<Command>)
    ensures
        r == command_of(key),
{
    match key {
        Key::Char(c) => {
            if c == 'q' {
                Some(Command::Quit)
            } else if c == ' ' {
                Some(Command::TogglePause)
            } else {
                None
            }
        },
        Key::Right => Some(Command::Advance),
        Key::Left => Some(Command::Retreat),
        Key::Enter => Some(Command::Confirm),
        Key::Other => None,
    }
}

} // verus!
