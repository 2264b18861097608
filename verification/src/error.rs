//! The ways in which a session can fail.

use vstd::prelude::*;

verus! {

/// Why an operation of the protocol failed. Every one of them ends the
/// session it occurs in; none is fatal to the process.
#[derive(Debug, Clone, Copy, PartialEq, Eq, Structural)]
pub enum Error {
    /// The stream failed to read, write or flush.
    Transport,
    /// An operation did not complete within its deadline.
    Timeout,
    /// A frame does not fit the scratch buffer it is read into.
    Framing,
    /// A payload is not the encoding of the expected message.
    Decode,
    /// A message's encoding does not fit the buffer it is written to, or is
    /// too long to be framed.
    Encode,
    /// An event arrived that the alternation of requests and updates does
    /// not allow in the current state.
    Protocol,
}

/// The text that stands for each error on a status display.
pub open spec fn error_message(e: Error) -> Seq<char> {
    match e {
        Error::Transport => "Failed to reach the peer"@,
        Error::Timeout => "Timeout"@,
        Error::Framing => "supplied buf not big enough"@,
        Error::Decode => "Failed to deserialize data"@,
        Error::Encode => "Failed to serialize data"@,
        Error::Protocol => "Unexpected message"@,
    }
}

impl Error {
    /// A short human-readable description, for a status display.
    pub fn message(&self) -> (text: &'static str)
        ensures
            text@ == error_message(*self),
    {
        match self {
            Error::Transport => "Failed to reach the peer",
            Error::Timeout => "Timeout",
            Error::Framing => "supplied buf not big enough",
            Error::Decode => "Failed to deserialize data",
            Error::Encode => "Failed to serialize data",
            Error::Protocol => "Unexpected message",
        }
    }

    /// Whether the error points at a defect in how the program was put
    /// together (a buffer too small for the messages it must hold) rather
    /// than at a condition of the network.
    pub fn is_configuration_defect(&self) -> (defect: bool)
        ensures
            defect <==> (*self == Error::Framing || *self == Error::Encode),
    {
        match self {
            Error::Framing | Error::Encode => true,
            _ => false,
        }
    }
}

} // verus!
