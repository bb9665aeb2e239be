//! What can end a session.

use vstd::prelude::*;

verus! {

/// Every failure is final: nothing is tried again.
#[derive(Clone, Copy, Debug, PartialEq, Eq, Structural)]
pub enum SessionError {
    /// The connection to the peer could not be made.
    ConnectionError,
    /// The peer sent nothing, or bytes that are no message of the expected kind.
    ProtocolError,
    /// Reading from or writing to the peer failed.
    IoError,
    /// The rules refuse a move that reached the board: the peers disagree
    /// about the game.
    MoveApplicationError,
}

impl SessionError {
    /// A short text for the failure.
    pub fn describe(&self) -> (text: &'static str)
        ensures
            text@ == match *self {
                SessionError::ConnectionError => "connection error"@,
                SessionError::ProtocolError => "protocol error"@,
                SessionError::IoError => "i/o error"@,
                SessionError::MoveApplicationError => "move application error"@,
            },
    {
        match self {
            SessionError::ConnectionError => "connection error",
            SessionError::ProtocolError => "protocol error",
            SessionError::IoError => "i/o error",
            SessionError::MoveApplicationError => "move application error",
        }
    }
}

} // verus!
