//! One established connection: the stream, and the scratch buffer in which
//! every message of the connection is encoded and every frame is read. The
//! buffer is as long as the longest frame that either side sends, so that
//! no message of the protocol fails for want of room.

use vstd::prelude::*;
use vstd::utf8::is_ascii_chars_encode_utf8;
use crate::error::Error;
use crate::frame::fits;
use crate::frame::frame;
use crate::frame::message_read;
use crate::frame::read_framed_value;
use crate::frame::write_frame;
use crate::frame::HEADER_LEN;
use crate::message::request_wire;
use crate::message::update_wire;
use crate::message::Message;
use crate::message::Request;
use crate::message::UpdateView;
use crate::text::is_ascii_char;
use crate::text::is_badge_text;
use crate::transport::AsyncRead;
use crate::transport::AsyncWrite;

verus! {

/// The length of the scratch buffer of a connection.
pub const SCRATCH_LEN: usize = 256;

/// The length of the longest encoding of an update whose text a badge can
/// show: two marks, the length of the text in one byte, the text, and the
/// interval.
pub const MAX_UPDATE_LEN: usize = 72;

/// A stream with the scratch buffer that goes with it.
pub struct Connection<S> {
    stream: S,
    scratch: [u8; SCRATCH_LEN],
}

impl<S: AsyncRead + AsyncWrite> Connection<S> {
    /// The stream of the connection.
    pub closed spec fn stream(&self) -> S {
        self.stream
    }

    /// A connection on `stream`.
    pub fn new(stream: S) -> (connection: Self)
        ensures
            connection.stream() == stream,
    {
        Connection { stream, scratch: [0u8; SCRATCH_LEN] }
    }

    /// Gives the stream back.
    pub fn into_stream(self) -> (stream: S)
        ensures
            stream == self.stream(),
    {
        self.stream
    }

    /// Sends one message: writes its frame and flushes.
    ///
    /// Fails with `Error::Encode`, and leaves the stream alone, if and only
    /// if the encoding of `value` is longer than `SCRATCH_LEN`; and with
    /// `Error::Transport` where the stream fails to write or to flush.
    pub fn send<T: Message>(&mut self, value: &T) -> (done: Result<(), Error>)
        ensures
            T::wire(value@).len() > SCRATCH_LEN <==> done == Err::<(), Error>(Error::Encode),
            done matches Err(e) ==> e == Error::Encode || e == Error::Transport,
            done == Err::<(), Error>(Error::Encode) ==> final(self).stream() == old(
                self,
            ).stream(),
            old(self).stream().written() matches Some(bytes) ==> if T::wire(value@).len()
                <= SCRATCH_LEN {
                done is Ok && final(self).stream().written() == Some(
                    bytes + frame(T::wire(value@)),
                )
            } else {
                final(self).stream().written() == Some(bytes)
            },
    {
        match write_frame(&mut self.stream, value, &mut self.scratch) {
            Ok(()) => {},
            Err(e) => {
                return Err(e);
            },
        }
        match self.stream.flush() {
            Ok(()) => Ok(()),
            Err(_) => Err(Error::Transport),
        }
    }

    /// Receives one message: reads one frame and decodes its payload.
    ///
    /// Fails with `Error::Framing` where the frame is longer than
    /// `SCRATCH_LEN`, with `Error::Decode` where its payload stands for no
    /// message, and with `Error::Transport` where the stream fails.
    pub fn receive<T: Message>(&mut self) -> (read: Result<T, Error>)
        ensures
            match read {
                Ok(message) => T::wire(message@).len() <= SCRATCH_LEN,
                Err(e) => e == Error::Framing || e == Error::Transport || e == Error::Decode,
            },
            old(self).stream().unread() matches Some(input) ==> {
                let (outcome, rest) = message_read::<T>(input, SCRATCH_LEN as nat);
                &&& final(self).stream().unread() == Some(rest)
                &&& match read {
                    Ok(message) => outcome == Ok::<T::V, Error>(message@),
                    Err(e) => outcome == Err::<T::V, Error>(e),
                }
            },
    {
        read_framed_value(&mut self.stream, &mut self.scratch)
    }
}

/// An ASCII character lies between the first and the last of them.
proof fn lemma_ascii_char_in_range(c: char)
    requires
        is_ascii_char(c),
    ensures
        '\0' <= c <= '\u{7f}',
{
}

/// The scratch buffer of a connection is long enough for every message of
/// the protocol: for either request, and for every update whose text a
/// badge can show. Sending such a message never fails for want of room.
pub proof fn lemma_messages_fit_scratch(request: Request, update: UpdateView)
    requires
        update.text matches Some(text) ==> is_badge_text(text),
    ensures
        request_wire(request).len() == 1,
        update_wire(update).len() <= MAX_UPDATE_LEN,
        fits(request_wire(request), SCRATCH_LEN as nat),
        fits(update_wire(update), SCRATCH_LEN as nat),
        HEADER_LEN + MAX_UPDATE_LEN <= SCRATCH_LEN,
{
    match update.text {
        Some(text) => {
            assert forall|i: int| 0 <= i < text.len() implies '\0' <= #[trigger] text[i]
                <= '\u{7f}' by {
                lemma_ascii_char_in_range(text[i]);
            }
            is_ascii_chars_encode_utf8(text);
        },
        None => {},
    }
}

} // verus!
