//! The decisions of the connection's owner: what each request does to the
//! connection, and how the native library's log messages are handled.
use vstd::prelude::*;

use crate::event::{LogLevel, Request};
use crate::meta_command::MetaCommand;

verus! {

/// What to do with the connection.
#[derive(Debug, Clone, PartialEq, Eq)]
pub enum ConnectionAction {
    /// Drop the connection, if any, then open a new one, on the given
    /// device if any.
    Reopen(Option<Vec<u8>>),
    /// Drop the connection, if any.
    Close,
    /// Carry out the command on the open connection.
    Run(MetaCommand),
    /// Nothing: a command with no connection to carry it out is dropped.
    Ignore,
}

/// What applying `request` does, with or without an open connection.
pub fn apply_request(connected: bool, request: Request) -> (r: ConnectionAction)
    ensures
        match request {
            Request::ResetDevice(port) => r == ConnectionAction::Reopen(port),
            Request::RemoveDevice(_) => r == ConnectionAction::Close,
            Request::MetaCommand(c) => if connected {
                r == ConnectionAction::Run(c)
            } else {
                r == ConnectionAction::Ignore
            },
        },
{
    match request {
        Request::ResetDevice(port) => ConnectionAction::Reopen(port),
        Request::RemoveDevice(_) => ConnectionAction::Close,
        Request::MetaCommand(c) => if connected {
            ConnectionAction::Run(c)
        } else {
            ConnectionAction::Ignore
        },
    }
}

/// How a log message of the native library is handled.
#[derive(Debug, Clone, Copy, PartialEq, Eq)]
pub enum LogHandling {
    /// An error of the CEC layer that ends the process.
    Fatal,
    /// Printed under the given label.
    Report(&'static str),
}

pub open spec fn log_label(level: LogLevel) -> Seq<char> {
    match level {
        LogLevel::Warning => "warning"@,
        LogLevel::Notice => "notice"@,
        LogLevel::Traffic => "traffic"@,
        _ => "debug"@,
    }
}

/// Error messages end the process; the others are reported under their
/// level's name. `All` is a filter setting, never the level of a message.
pub fn log_handling(level: LogLevel) -> (r: LogHandling)
    requires
        !(level is All),
    ensures
        level is Error <==> r is Fatal,
        r matches LogHandling::Report(label) ==> label@ == log_label(level),
{
    proof {
        reveal_strlit("warning");
        reveal_strlit("notice");
        reveal_strlit("traffic");
        reveal_strlit("debug");
    }
    match level {
        LogLevel::Error => LogHandling::Fatal,
        LogLevel::Warning => LogHandling::Report("warning"),
        LogLevel::Notice => LogHandling::Report("notice"),
        LogLevel::Traffic => LogHandling::Report("traffic"),
        _ => LogHandling::Report("debug"),
    }
}

} // verus!
