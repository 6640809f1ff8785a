//! The decisions of the connection loop: which work an event calls for,
//! and what a socket error means for its connection.
use vstd::prelude::*;
use crate::stream::{ready_contains, READABLE, WRITABLE};

verus! {

/// The token under which the listening socket is registered
/// (`u32::MAX - 1`).
pub const SERVER_TOKEN: usize = 4294967294;

/// The kinds of socket error that the loop tells apart.
#[derive(PartialEq, Eq, Structural, Debug, Clone, Copy)]
pub enum SocketErrorKind {
    ConnectionReset,
    ConnectionAborted,
    BrokenPipe,
    WouldBlock,
    Other,
}

/// What to do about a socket error.
#[derive(PartialEq, Eq, Structural, Debug, Clone, Copy)]
pub enum ErrorAction {
    /// The peer is gone: drop the connection and shut its socket down.
    Close,
    /// Nothing to do until the socket is ready again.
    Ignore,
    /// Log the error and keep the connection.
    Report,
}

/// A reset, aborted or broken connection is closed; a socket that would
/// block is left alone; every other error is reported.
pub fn error_action(kind: SocketErrorKind) -> (action: ErrorAction)
    ensures
        action == (match kind {
            SocketErrorKind::ConnectionReset
            | SocketErrorKind::ConnectionAborted
            | SocketErrorKind::BrokenPipe => ErrorAction::Close,
            SocketErrorKind::WouldBlock => ErrorAction::Ignore,
            SocketErrorKind::Other => ErrorAction::Report,
        }),
{
    match kind {
        SocketErrorKind::ConnectionReset
        | SocketErrorKind::ConnectionAborted
        | SocketErrorKind::BrokenPipe => ErrorAction::Close,
        SocketErrorKind::WouldBlock => ErrorAction::Ignore,
        SocketErrorKind::Other => ErrorAction::Report,
    }
}

/// The work that a readiness event on a connection calls for.
#[derive(PartialEq, Eq, Structural, Debug, Clone, Copy)]
pub struct EventWork {
    pub read: bool,
    pub write: bool,
}

/// A readable event calls for reading, a writable one for writing.
pub fn event_work(readiness: usize) -> (work: EventWork)
    ensures
        work.read == ready_contains(readiness, READABLE),
        work.write == ready_contains(readiness, WRITABLE),
{
    EventWork {
        read: readiness & READABLE == READABLE,
        write: readiness & WRITABLE == WRITABLE,
    }
}


/// An event calls for reading exactly when its lowest readiness bit is
/// set, and for writing exactly when its second bit is.
pub proof fn lemma_event_work_bits(readiness: usize, work: EventWork)
    requires
        work.read == ready_contains(readiness, READABLE),
        work.write == ready_contains(readiness, WRITABLE),
    ensures
        work.read == (readiness & 1usize == 1usize),
        work.write == (readiness & 2usize == 2usize),
{
}

} // verus!
