//! What the CEC connection observes, and what the backends ask of it.
use vstd::prelude::*;

use crate::meta_command::MetaCommand;

verus! {

/// The remote-control keys that the backends react to.
#[derive(Debug, Clone, Copy, PartialEq, Eq, Structural)]
pub enum KeyCode {
    Select,
    Up,
    Down,
    Left,
    Right,
    Exit,
    Play,
    Pause,
    Stop,
    Rewind,
    FastForward,
    Forward,
    Backward,
    /// Any key that no backend reacts to.
    Other,
}

/// A key press reported by the CEC connection. A press with a zero
/// duration is the initial press; repeats and releases carry a duration.
#[derive(Debug, Clone, Copy, PartialEq, Eq, Structural)]
pub struct KeyPress {
    pub code: KeyCode,
    pub duration_ms: u64,
}

/// The opcode of a raw CEC command received from the bus.
#[derive(Debug, Clone, Copy, PartialEq, Eq, Structural)]
pub enum Opcode {
    Standby,
    Other,
}

#[derive(Debug, Clone, Copy, PartialEq, Eq, Structural)]
pub enum LogLevel {
    Error,
    Warning,
    Notice,
    Traffic,
    Debug,
    All,
}

#[derive(Debug, Clone, PartialEq, Eq)]
pub struct LogMessage {
    pub level: LogLevel,
    pub message: String,
}

/// Something the CEC connection observed.
#[derive(Debug, Clone, PartialEq, Eq)]
pub enum Event {
    KeyPress(KeyPress),
    Command(Opcode),
    LogMessage(LogMessage),
}

impl Event {
    /// The key of an initial (zero-duration) key press, if this is one.
    pub open spec fn initial_key(self) -> Option<KeyCode> {
        match self {
            Event::KeyPress(k) => if k.duration_ms == 0 {
                Some(k.code)
            } else {
                None
            },
            _ => None,
        }
    }

    pub fn initial_key_of(&self) -> (r: Option<KeyCode>)
        ensures
            r == self.initial_key(),
    {
        match self {
            Event::KeyPress(k) => if k.duration_ms == 0 {
                Some(k.code)
            } else {
                None
            },
            _ => None,
        }
    }
}

/// Something a backend wants done with the CEC connection. Device paths are
/// the raw bytes of the device node's path.
#[derive(Debug, Clone, PartialEq, Eq)]
pub enum Request {
    /// Drop the connection and open a new one, on the given device if any.
    ResetDevice(Option<Vec<u8>>),
    /// Drop the connection without opening a new one.
    RemoveDevice(Vec<u8>),
    /// Carry out a command on the open connection.
    MetaCommand(MetaCommand),
}

} // verus!
