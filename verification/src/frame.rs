//! Frames: how messages travel on a stream. A frame is the length of its
//! payload in four bytes, least significant first, and then the payload.
//!
//! A frame is read into a scratch buffer that the caller lends. A frame
//! whose payload is longer than that buffer is refused as soon as its
//! length is known, before any of the payload is read.
//!
//! What a stream does is not for this module to decide. Where a stream
//! gives an account of its bytes (`AsyncRead::unread`,
//! `AsyncWrite::written`), the outcome of each function here is stated
//! exactly; of any other stream the contracts say what holds however its
//! calls turned out, and `frame_len` holds the one decision that is made
//! on what a stream delivered.

use vstd::prelude::*;
use crate::error::Error;
use crate::message::request_wire;
use crate::message::update_wire;
use crate::message::Message;
use crate::message::Request;
use crate::message::Update;
use crate::message::UpdateView;
use crate::transport::AsyncRead;
use crate::transport::AsyncWrite;
use crate::wire::le32;
use crate::wire::le32_at;
use crate::wire::le32_bytes;
use crate::wire::le32_value;
use crate::wire::lemma_le32_inverse;

verus! {

/// How many bytes the length of a frame takes.
pub const HEADER_LEN: usize = 4;

/// The longest payload that a frame can hold.
pub const MAX_PAYLOAD_LEN: usize = 0xffff_ffff;

/// The frame that carries `payload`.
pub open spec fn frame(payload: Seq<u8>) -> Seq<u8>
    recommends
        payload.len() <= MAX_PAYLOAD_LEN,
{
    le32(payload.len() as u32) + payload
}

/// Reading one frame from a stream that holds `input`, into a buffer of
/// `capacity` bytes: the payload or the error, and what the stream holds
/// afterwards.
///
/// A buffer too short for the length reads nothing. A length beyond the
/// buffer is a framing error, and nothing after the length is read. A
/// stream that ends before the length or the payload does is a transport
/// error.
pub open spec fn frame_read(input: Seq<u8>, capacity: nat) -> (Result<Seq<u8>, Error>, Seq<u8>) {
    if capacity < HEADER_LEN {
        (Err(Error::Framing), input)
    } else if input.len() < HEADER_LEN {
        (Err(Error::Transport), input)
    } else {
        let declared = le32_value(input.take(HEADER_LEN as int));
        let rest = input.skip(HEADER_LEN as int);
        if declared > capacity {
            (Err(Error::Framing), rest)
        } else if rest.len() < declared {
            (Err(Error::Transport), rest)
        } else {
            (Ok(rest.take(declared)), rest.skip(declared))
        }
    }
}

/// Reading one frame and the message of its payload: as `frame_read`, and
/// a payload that stands for no message is a decoding error.
pub open spec fn message_read<T: Message>(input: Seq<u8>, capacity: nat) -> (
    Result<T::V, Error>,
    Seq<u8>,
) {
    let (read, rest) = frame_read(input, capacity);
    match read {
        Ok(payload) => match T::parse(payload) {
            Some(message) => (Ok(message), rest),
            None => (Err(Error::Decode), rest),
        },
        Err(e) => (Err(e), rest),
    }
}

/// Whether the encoding of a message fits a scratch buffer of `capacity`
/// bytes and a frame.
pub open spec fn fits(payload: Seq<u8>, capacity: nat) -> bool {
    payload.len() <= capacity && payload.len() <= MAX_PAYLOAD_LEN
}

/// The length that the header of a frame declares, if a payload of that
/// length fits a buffer of `capacity` bytes; `Error::Framing` if it does
/// not.
pub fn frame_len(header: &[u8; 4], capacity: usize) -> (declared: Result<usize, Error>)
    ensures
        match declared {
            Ok(n) => n == le32_value(header@) && n <= capacity,
            Err(e) => e == Error::Framing && le32_value(header@) > capacity,
        },
{
    proof {
        lemma_le32_inverse(0, header@);
    }
    let n = le32_at(header.as_slice(), 0) as usize;
    if n > capacity {
        Err(Error::Framing)
    } else {
        Ok(n)
    }
}

/// Reads one frame from `stream` into `buf` and returns its payload.
///
/// The stream is asked for the four bytes of the length and then for
/// exactly as many bytes as the length says, and for nothing more. The
/// call fails with `Error::Framing` where `buf` cannot hold the length (the
/// stream is then left alone) or the payload (nothing after the length is
/// then read), and with `Error::Transport` where the stream fails.
pub fn read_frame<'a, S: AsyncRead>(stream: &mut S, buf: &'a mut [u8]) -> (read: Result<
    &'a [u8],
    Error,
>)
    ensures
        old(buf)@.len() < HEADER_LEN ==> read is Err && read->Err_0 == Error::Framing
            && *final(stream) == *old(stream),
        match read {
            Ok(payload) => payload@.len() <= old(buf)@.len(),
            Err(e) => e == Error::Framing || e == Error::Transport,
        },
        old(stream).unread() matches Some(input) ==> {
            let (outcome, rest) = frame_read(input, old(buf)@.len());
            &&& final(stream).unread() == Some(rest)
            &&& match read {
                Ok(payload) => outcome == Ok::<Seq<u8>, Error>(payload@),
                Err(e) => outcome == Err::<Seq<u8>, Error>(e),
            }
        },
{
    let capacity = buf.len();
    if capacity < HEADER_LEN {
        return Err(Error::Framing);
    }
    let ghost input = stream.unread();
    let (head, _) = buf.split_at_mut(HEADER_LEN);
    match stream.read_exact(head) {
        Ok(()) => {},
        Err(_) => {
            return Err(Error::Transport);
        },
    }
    let header = [buf[0], buf[1], buf[2], buf[3]];
    let declared = match frame_len(&header, capacity) {
        Ok(n) => n,
        Err(e) => {
            return Err(e);
        },
    };
    let (body, _) = buf.split_at_mut(declared);
    match stream.read_exact(body) {
        Ok(()) => {},
        Err(_) => {
            return Err(Error::Transport);
        },
    }
    let payload: &'a [u8] = &buf[0..declared];
    proof {
        if input is Some {
            assert(payload@ =~= input->0.skip(4).take(declared as int));
        }
    }
    Ok(payload)
}

/// Reads one frame from `stream` into `buf` and the message of its payload.
///
/// Fails as `read_frame` does, and with `Error::Decode` where the frame
/// was read and its payload stands for no message; the frame is taken
/// from the stream all the same.
pub fn read_framed_value<S: AsyncRead, T: Message>(stream: &mut S, buf: &mut [u8]) -> (read:
    Result<T, Error>)
    ensures
        old(buf)@.len() < HEADER_LEN ==> read is Err && read->Err_0 == Error::Framing
            && *final(stream) == *old(stream),
        match read {
            Ok(message) => T::wire(message@).len() <= old(buf)@.len(),
            Err(e) => e == Error::Framing || e == Error::Transport || e == Error::Decode,
        },
        old(stream).unread() matches Some(input) ==> {
            let (outcome, rest) = message_read::<T>(input, old(buf)@.len());
            &&& final(stream).unread() == Some(rest)
            &&& match read {
                Ok(message) => outcome == Ok::<T::V, Error>(message@),
                Err(e) => outcome == Err::<T::V, Error>(e),
            }
        },
{
    match read_frame(stream, buf) {
        Ok(payload) => {
            proof {
                T::lemma_parse_exact(payload@);
            }
            T::decode(payload)
        },
        Err(e) => Err(e),
    }
}

/// Writes the frame of `value` to `stream`, with `buf` as the scratch
/// buffer in which the message is encoded.
///
/// Fails with `Error::Encode`, and leaves the stream alone, if and only if
/// the encoding of `value` is longer than `buf` or than a frame can hold;
/// and with `Error::Transport` where the stream fails.
pub fn write_frame<S: AsyncWrite, T: Message>(stream: &mut S, value: &T, buf: &mut [u8]) -> (done:
    Result<(), Error>)
    ensures
        final(buf)@.len() == old(buf)@.len(),
        !fits(T::wire(value@), old(buf)@.len()) <==> done == Err::<(), Error>(Error::Encode),
        done matches Err(e) ==> e == Error::Encode || e == Error::Transport,
        done == Err::<(), Error>(Error::Encode) ==> *final(stream) == *old(stream),
        old(stream).written() matches Some(bytes) ==> if fits(T::wire(value@), old(buf)@.len()) {
            done is Ok && final(stream).written() == Some(bytes + frame(T::wire(value@)))
        } else {
            final(stream).written() == Some(bytes)
        },
{
    let n = match value.encode(buf) {
        Ok(n) => n,
        Err(e) => {
            return Err(e);
        },
    };
    if n > MAX_PAYLOAD_LEN {
        return Err(Error::Encode);
    }
    let header = le32_bytes(n as u32);
    match stream.write_all(header.as_slice()) {
        Ok(()) => {},
        Err(_) => {
            return Err(Error::Transport);
        },
    }
    match stream.write_all(&buf[0..n]) {
        Ok(()) => {},
        Err(_) => {
            return Err(Error::Transport);
        },
    }
    Ok(())
}

/// The length that a frame declares is the length of its payload. A buffer
/// that can hold the payload reads the frame back as that payload and
/// leaves what follows the frame; a buffer that cannot fails with
/// `Error::Framing` and reads none of the payload.
pub proof fn lemma_frame_read_of_frame(payload: Seq<u8>, rest: Seq<u8>, capacity: nat)
    requires
        payload.len() <= MAX_PAYLOAD_LEN,
    ensures
        frame(payload).len() == HEADER_LEN + payload.len(),
        le32_value((frame(payload) + rest).take(HEADER_LEN as int)) == payload.len(),
        HEADER_LEN <= capacity && payload.len() <= capacity ==> frame_read(
            frame(payload) + rest,
            capacity,
        ) == (Ok::<Seq<u8>, Error>(payload), rest),
        payload.len() > capacity ==> frame_read(frame(payload) + rest, capacity).0 == Err::<
            Seq<u8>,
            Error,
        >(Error::Framing),
        payload.len() > capacity ==> frame_read(frame(payload) + rest, capacity).1 == (if capacity
            < HEADER_LEN {
            frame(payload) + rest
        } else {
            payload + rest
        }),
{
    let input = frame(payload) + rest;
    lemma_le32_inverse(payload.len() as u32, Seq::empty());
    assert(input.take(4) =~= le32(payload.len() as u32));
    assert(input.skip(4) =~= payload + rest);
    assert((payload + rest).take(payload.len() as int) =~= payload);
}

/// No over-read: from a stream that holds one frame and then another, two
/// reads return the two payloads in turn and leave nothing unread.
pub proof fn lemma_two_frames_read_exactly(first: Seq<u8>, second: Seq<u8>, capacity: nat)
    requires
        capacity >= HEADER_LEN,
        fits(first, capacity),
        fits(second, capacity),
    ensures
        frame_read(frame(first) + frame(second), capacity) == (
            Ok::<Seq<u8>, Error>(first),
            frame(second),
        ),
        frame_read(frame(second), capacity) == (Ok::<Seq<u8>, Error>(second), Seq::<u8>::empty()),
{
    lemma_frame_read_of_frame(first, frame(second), capacity);
    lemma_frame_read_of_frame(second, Seq::empty(), capacity);
}

/// A message that was framed is read back as it was, by any buffer that
/// can hold its encoding, with what follows the frame left over.
pub proof fn lemma_message_read_of_frame<T: Message>(message: T::V, rest: Seq<u8>, capacity: nat)
    requires
        capacity >= HEADER_LEN,
        fits(T::wire(message), capacity),
    ensures
        message_read::<T>(frame(T::wire(message)) + rest, capacity) == (
            Ok::<T::V, Error>(message),
            rest,
        ),
{
    lemma_frame_read_of_frame(T::wire(message), rest, capacity);
    T::lemma_round_trip(message);
}

/// No over-read within a round: from a stream that holds the frame of a
/// `Ready` and then the frame of an update, reading a request and then an
/// update returns the two messages and leaves nothing unread.
pub proof fn lemma_round_is_read_exactly(update: UpdateView, capacity: nat)
    requires
        capacity >= HEADER_LEN,
        fits(update_wire(update), capacity),
    ensures
        message_read::<Request>(
            frame(request_wire(Request::Ready)) + frame(update_wire(update)),
            capacity,
        ) == (Ok::<Request, Error>(Request::Ready), frame(update_wire(update))),
        message_read::<Update>(frame(update_wire(update)), capacity) == (
            Ok::<UpdateView, Error>(update),
            Seq::<u8>::empty(),
        ),
{
    lemma_message_read_of_frame::<Request>(Request::Ready, frame(update_wire(update)), capacity);
    lemma_message_read_of_frame::<Update>(update, Seq::empty(), capacity);
    assert(frame(update_wire(update)) + Seq::<u8>::empty() =~= frame(update_wire(update)));
}

} // verus!
