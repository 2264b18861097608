//! What the protocol needs of a byte stream: to read exactly as many bytes
//! as it asks for, and to write all the bytes it hands over and flush them.
//! A secured stream, a plain socket and a stream in memory all offer it.
//!
//! Each trait carries a mathematical account of its stream: the bytes still
//! to be delivered, and the bytes written so far. The contracts of the
//! methods are what an implementation promises over them; the protocol is
//! proved from these promises alone.

use vstd::prelude::*;

verus! {

/// The reading half of a stream. A call returns when the bytes are there
/// or the stream has failed; the worker that calls waits meanwhile.
pub trait AsyncRead {
    /// Why a read failed. The protocol does not look inside.
    type Error;

    /// The bytes that the stream has yet to deliver, oldest first, where the
    /// stream gives an account of them.
    open spec fn unread(&self) -> Option<Seq<u8>> {
        None
    }

    /// Fills `buf` with the next bytes of the stream. On success the stream
    /// has delivered exactly as many bytes as `buf` is long, and no more;
    /// on failure nothing is promised of either.
    fn read_exact(&mut self, buf: &mut [u8]) -> (done: Result<(), Self::Error>)
        ensures
            final(buf)@.len() == old(buf)@.len(),
            old(self).unread() matches Some(bytes) ==> match done {
                Ok(()) => {
                    &&& old(buf)@.len() <= bytes.len()
                    &&& final(buf)@ == bytes.take(old(buf)@.len() as int)
                    &&& final(self).unread() == Some(bytes.skip(old(buf)@.len() as int))
                },
                Err(_) => {
                    &&& old(buf)@.len() > bytes.len()
                    &&& final(self).unread() == Some(bytes)
                },
            },
    ;
}

/// The writing half of a stream.
pub trait AsyncWrite {
    /// Why a write failed. The protocol does not look inside.
    type Error;

    /// The bytes that the stream has taken so far, oldest first, where the
    /// stream gives an account of them.
    open spec fn written(&self) -> Option<Seq<u8>> {
        None
    }

    /// Writes all of `buf`. On success the stream has taken exactly these
    /// bytes, after all it had taken before.
    fn write_all(&mut self, buf: &[u8]) -> (done: Result<(), Self::Error>)
        ensures
            old(self).written() matches Some(bytes) ==> done is Ok && final(self).written()
                == Some(bytes + buf@),
    ;

    /// Sends on what the stream has taken but still holds back. It adds no
    /// bytes.
    fn flush(&mut self) -> (done: Result<(), Self::Error>)
        ensures
            old(self).written() matches Some(bytes) ==> done is Ok && final(self).written()
                == Some(bytes),
    ;
}

/// The one way in which a stream in memory fails: it was asked for more
/// bytes than it holds.
#[derive(Debug, Clone, Copy, PartialEq, Eq, Structural)]
pub struct EndOfStream;

/// A stream in memory: what is written to it can be read from it, in the
/// same order. It stands in for a connection where none is at hand.
pub struct MemoryStream {
    data: Vec<u8>,
    cursor: usize,
}

impl MemoryStream {
    /// All bytes that were written to the stream, read or not.
    pub closed spec fn history(&self) -> Seq<u8> {
        self.data@
    }

    /// The bytes that were written and not yet read.
    pub closed spec fn pending(&self) -> Seq<u8> {
        if self.cursor <= self.data@.len() {
            self.data@.skip(self.cursor as int)
        } else {
            Seq::empty()
        }
    }

    /// A stream that holds nothing.
    pub fn new() -> (stream: Self)
        ensures
            stream.history() == Seq::<u8>::empty(),
            stream.pending() == Seq::<u8>::empty(),
    {
        MemoryStream { data: Vec::new(), cursor: 0 }
    }

    /// A stream that holds `bytes`, all of them unread.
    pub fn holding(bytes: Vec<u8>) -> (stream: Self)
        ensures
            stream.history() == bytes@,
            stream.pending() == bytes@,
    {
        MemoryStream { data: bytes, cursor: 0 }
    }

    /// How many bytes wait to be read.
    pub fn pending_len(&self) -> (n: usize)
        ensures
            n == self.pending().len(),
    {
        if self.cursor <= self.data.len() {
            self.data.len() - self.cursor
        } else {
            0
        }
    }
}

impl AsyncRead for MemoryStream {
    type Error = EndOfStream;

    open spec fn unread(&self) -> Option<Seq<u8>> {
        Some(self.pending())
    }

    /// Succeeds if and only if as many bytes wait as `buf` is long; a read
    /// that fails takes nothing.
    fn read_exact(&mut self, buf: &mut [u8]) -> (done: Result<(), EndOfStream>)
        ensures
            done is Ok <==> old(buf)@.len() <= old(self).pending().len(),
            done is Err ==> final(self).pending() == old(self).pending() && final(buf)@ == old(
                buf,
            )@,
            final(self).history() == old(self).history(),
    {
        let n = buf.len();
        if self.pending_len() < n {
            return Err(EndOfStream);
        }
        if n == 0 {
            return Ok(());
        }
        let start = self.cursor;
        let total = self.data.len();
        let mut i: usize = 0;
        while i < n
            invariant
                i <= n,
                n == buf@.len(),
                total == self.data@.len(),
                start + n <= self.data@.len(),
                start == self.cursor,
                *self == *old(self),
                buf@.take(i as int) == self.pending().take(i as int),
            decreases n - i,
        {
            buf[i] = self.data[start + i];
            i = i + 1;
        }
        self.cursor = start + n;
        Ok(())
    }
}

impl AsyncWrite for MemoryStream {
    type Error = EndOfStream;

    open spec fn written(&self) -> Option<Seq<u8>> {
        Some(self.history())
    }

    /// Never fails: the bytes are added to those that wait to be read.
    fn write_all(&mut self, buf: &[u8]) -> (done: Result<(), EndOfStream>)
        ensures
            done is Ok,
            final(self).pending() == old(self).pending() + buf@,
    {
        if self.cursor > self.data.len() {
            self.cursor = self.data.len();
        }
        let mut i: usize = 0;
        while i < buf.len()
            invariant
                i <= buf@.len(),
                self.cursor == old(self).cursor || self.cursor == old(self).data@.len(),
                self.cursor <= old(self).data@.len(),
                self.data@ == old(self).data@ + buf@.take(i as int),
                self.pending() == old(self).pending() + buf@.take(i as int),
            decreases buf@.len() - i,
        {
            let ghost before = self.data@;
            self.data.push(buf[i]);
            assert(self.data@.skip(self.cursor as int) =~= before.skip(self.cursor as int)
                + seq![buf@[i as int]]);
            i = i + 1;
        }
        Ok(())
    }

    /// Never fails, and changes nothing.
    fn flush(&mut self) -> (done: Result<(), EndOfStream>)
        ensures
            done is Ok,
            final(self).pending() == old(self).pending(),
    {
        Ok(())
    }
}

} // verus!
