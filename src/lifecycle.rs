//! The decision of the process loop once a session has ended.

use vstd::prelude::*;
use crate::model::ControlSignal;

verus! {

/// How a session came to an end.
#[derive(Clone, Debug, PartialEq, Eq)]
pub enum SessionEnd {
    /// A command raised a control signal.
    Signal(ControlSignal),
    /// An operational error: connecting, receiving or sending failed. The
    /// text describes it.
    Failed(String),
    /// The event stream ran out; not an error.
    StreamEnded,
}

/// What the process loop does next.
#[derive(Clone, Debug, PartialEq, Eq)]
pub enum Next {
    /// Connect a fresh session and go on.
    Reconnect,
    /// Write the text to the operator's output, then connect a fresh session.
    ReportAndReconnect(String),
    /// Stop the process with a success status.
    Terminate,
}

/// The process loop's next step: a restart or the end of the stream
/// reconnects, an exit stops, an error is reported and then reconnects. The
/// signal is told apart from an error by its kind, never by its text.
pub fn next_step(end: SessionEnd) -> (r: Next)
    ensures
        match end {
            SessionEnd::Signal(ControlSignal::Restart) => r is Reconnect,
            SessionEnd::Signal(ControlSignal::Exit) => r is Terminate,
            SessionEnd::Failed(text) => r is ReportAndReconnect && r->ReportAndReconnect_0@ == text@,
            SessionEnd::StreamEnded => r is Reconnect,
        },
{
    match end {
        SessionEnd::Signal(ControlSignal::Restart) => Next::Reconnect,
        SessionEnd::Signal(ControlSignal::Exit) => Next::Terminate,
        SessionEnd::Failed(text) => Next::ReportAndReconnect(text),
        SessionEnd::StreamEnded => Next::Reconnect,
    }
}

} // verus!
