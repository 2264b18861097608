//! Resynchronisation protocol between a badge and its server.
//!
//! The badge shows a short text and blinks a light; the server holds the
//! values that both should have. Over one reliable, secured byte stream the
//! badge asks (`Request`) and the server answers with what changed
//! (`Update`), each message carried in a length-prefixed frame.
//!
//! Nothing here performs I/O or waits. Streams are reached through the two
//! transport traits; the session engines and the supervisor are state
//! machines that a driver feeds with the outcome of what it did for them;
//! and the workers of a badge meet only in the relay primitives.
//!
//! * `wire`, `message`, `frame`: the bytes on the stream.
//! * `transport`, `connection`: the stream and its scratch buffer.
//! * `client`, `server`, `supervisor`, `race`: who does what, and when.
//! * `relay`, `blink`: from the network worker to the light and the text.
//! * `shared_state`, `text`: the values of the server.
//! * `memory_buffer`, `echo`: a bounded buffer of numbers, and the echo of
//!   the server's web socket.

pub mod blink;
pub mod client;
pub mod connection;
pub mod echo;
pub mod error;
pub mod frame;
pub mod memory_buffer;
pub mod message;
pub mod race;
pub mod relay;
pub mod server;
pub mod shared_state;
pub mod supervisor;
pub mod text;
pub mod transport;
pub mod wire;
