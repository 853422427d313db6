use vstd::prelude::*;

verus! {

/// Length of one relative seek step, in milliseconds.
pub const SEEK_STEP_MS: i64 = 10000;

/// How long one tick waits for a key, in milliseconds.
pub const POLL_TIMEOUT_MS: u64 = 200;

/// A key press as the input poller sees it.
#[derive(Clone, Copy, Debug, PartialEq, Eq, Structural)]
pub enum Key {
    Char(char),
    Left,
    Right,
    Esc,
    Other,
}

/// A transport command; relative seeks are in milliseconds.
#[derive(Clone, Copy, Debug, PartialEq, Eq, Structural)]
pub enum Command {
    Quit,
    TogglePause,
    SeekRelative(i64),
}

/// The fixed key bindings: space toggles pause, the arrows seek ten seconds
/// back or forward, `q` and escape quit, and any other key does nothing.
pub open spec fn key_command(k: Key) -> Option<Command> {
    match k {
        Key::Char(c) => if c == ' ' {
            Some(Command::TogglePause)
        } else if c == 'q' {
            Some(Command::Quit)
        } else {
            None
        },
        Key::Left => Some(Command::SeekRelative((-SEEK_STEP_MS) as i64)),
        Key::Right => Some(Command::SeekRelative(SEEK_STEP_MS)),
        Key::Esc => Some(Command::Quit),
        Key::Other => None,
    }
}

/// Maps a key press to the command it stands for, if any.
pub fn command_for_key(k: Key) -> (r: Option<Command>)
    ensures
        r == key_command(k),
{
    match k {
        Key::Char(c) => if c == ' ' {
            Some(Command::TogglePause)
        } else if c == 'q' {
            Some(Command::Quit)
        } else {
            None
        },
        Key::Left => Some(Command::SeekRelative(-SEEK_STEP_MS)),
        Key::Right => Some(Command::SeekRelative(SEEK_STEP_MS)),
        Key::Esc => Some(Command::Quit),
        Key::Other => None,
    }
}

} // verus!
