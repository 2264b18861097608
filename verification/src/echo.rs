//! An echo over a web socket: what comes in goes back out.

use vstd::prelude::*;

verus! {

/// A message that arrives on a web socket.
#[derive(Debug, PartialEq, Eq)]
pub enum WsMessage {
    /// A text.
    Text(String),
    /// Bytes.
    Binary(Vec<u8>),
    /// The next part of a message that came in parts.
    Continuation,
    /// A ping, with what it carries.
    Ping(Vec<u8>),
    /// The answer to a ping.
    Pong(Vec<u8>),
    /// The peer closes.
    Close,
    /// Nothing.
    Nop,
}

/// The web socket delivered something that is no message.
#[derive(Debug, Clone, Copy, PartialEq, Eq, Structural)]
pub struct WsProtocolError;

/// What the echo sends back.
#[derive(Debug, PartialEq, Eq)]
pub enum WsReply {
    /// The answer to a ping, carrying what the ping carried.
    Pong(Vec<u8>),
    /// A text.
    Text(String),
    /// Bytes.
    Binary(Vec<u8>),
}

/// The answer of the echo to what arrived: a ping is answered, a text and
/// bytes are sent back as they came, and nothing else is answered.
pub open spec fn echo(arrived: Result<WsMessage, WsProtocolError>) -> Option<WsReply> {
    match arrived {
        Ok(WsMessage::Ping(payload)) => Some(WsReply::Pong(payload)),
        Ok(WsMessage::Text(text)) => Some(WsReply::Text(text)),
        Ok(WsMessage::Binary(bytes)) => Some(WsReply::Binary(bytes)),
        _ => None,
    }
}

/// The echo. It keeps nothing from one message to the next.
#[derive(Debug, Clone, Copy, PartialEq, Eq, Structural)]
pub struct MyWs {}

impl MyWs {
    /// Handles what arrived on the web socket and returns what to send
    /// back, if anything.
    pub fn handle(&mut self, arrived: Result<WsMessage, WsProtocolError>) -> (reply: Option<
        WsReply,
    >)
        ensures
            reply == echo(arrived),
            *final(self) == *old(self),
    {
        match arrived {
            Ok(WsMessage::Ping(payload)) => Some(WsReply::Pong(payload)),
            Ok(WsMessage::Text(text)) => Some(WsReply::Text(text)),
            Ok(WsMessage::Binary(bytes)) => Some(WsReply::Binary(bytes)),
            _ => None,
        }
    }
}

} // verus!
