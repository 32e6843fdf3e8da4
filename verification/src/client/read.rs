//! How a client judges a failed read.
use vstd::prelude::*;

verus! {

/// The kinds of I/O failure that a read tells apart.
#[derive(Clone, Copy, Debug, PartialEq, Eq, Structural)]
pub enum IoFailure {
    /// The stream ended in the middle of a line.
    UnexpectedEof,
    /// The peer aborted the connection.
    ConnectionAborted,
    /// The read timed out.
    TimedOut,
    /// Any other I/O failure.
    Other,
}

/// Why a read gave no message.
#[derive(Clone, Copy, Debug, PartialEq, Eq, Structural)]
pub enum ReadFailure {
    /// The underlying I/O operation failed.
    Io(IoFailure),
    /// The line was not a message.
    Parse,
    /// The stream was closed.
    StreamClosed,
}

impl ReadFailure {
    /// Whether the read failed because the connection is gone: the stream closed, or
    /// the I/O failed by an early end, an abort or a timeout.
    pub fn is_disconnect(&self) -> (r: bool)
        ensures
            r == match *self {
                ReadFailure::StreamClosed => true,
                ReadFailure::Io(k) => k != IoFailure::Other,
                ReadFailure::Parse => false,
            },
    {
        match self {
            ReadFailure::StreamClosed => true,
            ReadFailure::Io(IoFailure::UnexpectedEof) => true,
            ReadFailure::Io(IoFailure::ConnectionAborted) => true,
            ReadFailure::Io(IoFailure::TimedOut) => true,
            _ => false,
        }
    }
}

} // verus!
