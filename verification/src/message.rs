//! The two messages of the protocol.
//!
//! A `Request` travels from the badge to the server, an `Update` comes
//! back. An `Update` names only what changed: an absent field means "as it
//! was in the update before", not "cleared".

use vstd::prelude::*;
use vstd::std_specs::convert::TryFromSpecImpl;
use vstd::utf8::decode_utf8;
use vstd::utf8::decode_utf8_encode_utf8;
use vstd::utf8::encode_utf8;
use vstd::utf8::encode_utf8_decode_utf8;
use vstd::utf8::encode_utf8_valid_utf8;
use vstd::utf8::valid_utf8;
use crate::error::Error;
use crate::wire::le32;
use crate::wire::le32_at;
use crate::wire::le32_bytes;
use crate::wire::le32_value;
use crate::wire::lemma_le32_inverse;
use crate::wire::lemma_varint_of_varint_parse;
use crate::wire::lemma_varint_parse_of_varint;
use crate::wire::put_varint;
use crate::wire::take_varint;
use crate::wire::varint;
use crate::wire::varint_len;
use crate::wire::varint_parse;

verus! {

/// What the badge asks of the server.
#[derive(Debug, Clone, Copy, PartialEq, Eq, Structural)]
pub enum Request {
    /// Ready for new data.
    Ready,
    /// Close the connection.
    Close,
}

impl View for Request {
    type V = Request;

    open spec fn view(&self) -> Request {
        *self
    }
}

/// What the server tells the badge.
#[derive(Debug, Clone, PartialEq, Eq)]
pub struct Update {
    /// The text to display, if it changed.
    pub text: Option<String>,
    /// The interval of the light in milliseconds, if it changed.
    pub freq: Option<u32>,
}

/// An `Update` as a mathematical value: the text as its characters.
pub struct UpdateView {
    /// The characters of the text, if the update names one.
    pub text: Option<Seq<char>>,
    /// The interval in milliseconds, if the update names one.
    pub freq: Option<u32>,
}

/// The characters of an optional text.
pub open spec fn text_view(text: Option<String>) -> Option<Seq<char>> {
    match text {
        Some(s) => Some(s@),
        None => None,
    }
}

impl View for Update {
    type V = UpdateView;

    open spec fn view(&self) -> UpdateView {
        UpdateView { text: text_view(self.text), freq: self.freq }
    }
}

impl UpdateView {
    /// The update that names no change.
    pub open spec fn unchanged() -> UpdateView {
        UpdateView { text: None, freq: None }
    }
}

impl Update {
    /// The update that names no change.
    pub fn unchanged() -> (u: Update)
        ensures
            u@ == UpdateView::unchanged(),
    {
        Update { text: None, freq: None }
    }

    /// Whether this update names no change at all.
    pub fn is_unchanged(&self) -> (b: bool)
        ensures
            b <==> self@ == UpdateView::unchanged(),
    {
        self.text.is_none() && self.freq.is_none()
    }
}

/// A message of the protocol: a value with one encoding, from which it can
/// be read back.
pub trait Message: Sized + View {
    /// The bytes that stand for `v` on the wire.
    spec fn wire(v: Self::V) -> Seq<u8>;

    /// The message that `bytes` stand for, if they are the encoding of one.
    spec fn parse(bytes: Seq<u8>) -> Option<Self::V>;

    /// Every message is read back from its encoding.
    proof fn lemma_round_trip(v: Self::V)
        ensures
            Self::parse(Self::wire(v)) == Some(v),
    ;

    /// Only its own encoding is read as a message: nothing may follow it,
    /// and no other bytes stand for it.
    proof fn lemma_parse_exact(bytes: Seq<u8>)
        ensures
            Self::parse(bytes) matches Some(v) ==> Self::wire(v) == bytes,
    ;

    /// Writes the encoding of the message to the front of `buf` and returns
    /// its length. Fails with `Error::Encode`, and leaves `buf` as it was,
    /// if and only if the encoding is longer than `buf`.
    fn encode(&self, buf: &mut [u8]) -> (written: Result<usize, Error>)
        ensures
            final(buf)@.len() == old(buf)@.len(),
            match written {
                Ok(n) => {
                    &&& n == Self::wire(self@).len()
                    &&& n <= old(buf)@.len()
                    &&& final(buf)@.take(n as int) == Self::wire(self@)
                },
                Err(e) => {
                    &&& e == Error::Encode
                    &&& Self::wire(self@).len() > old(buf)@.len()
                    &&& final(buf)@ == old(buf)@
                },
            },
    ;

    /// Reads the message that `bytes` stand for. Fails with
    /// `Error::Decode` if and only if they stand for none.
    fn decode(bytes: &[u8]) -> (read: Result<Self, Error>)
        ensures
            match read {
                Ok(message) => Self::parse(bytes@) == Some(message@),
                Err(e) => e == Error::Decode && Self::parse(bytes@) is None,
            },
    ;
}

/// The encoding of a request: one byte, 0 for `Ready` and 1 for `Close`.
pub open spec fn request_wire(request: Request) -> Seq<u8> {
    match request {
        Request::Ready => seq![0u8],
        Request::Close => seq![1u8],
    }
}

/// The request that `bytes` stand for, if any.
pub open spec fn request_parse(bytes: Seq<u8>) -> Option<Request> {
    if bytes.len() == 1 && bytes[0] == 0 {
        Some(Request::Ready)
    } else if bytes.len() == 1 && bytes[0] == 1 {
        Some(Request::Close)
    } else {
        None
    }
}

impl Request {
    /// The encoding of the request.
    pub fn serialize(&self) -> (bytes: [u8; 1])
        ensures
            bytes@ == request_wire(*self),
    {
        let bytes = match self {
            Request::Ready => [0u8],
            Request::Close => [1u8],
        };
        bytes
    }
}

impl Message for Request {
    open spec fn wire(v: Request) -> Seq<u8> {
        request_wire(v)
    }

    open spec fn parse(bytes: Seq<u8>) -> Option<Request> {
        request_parse(bytes)
    }

    proof fn lemma_round_trip(v: Request) {
    }

    proof fn lemma_parse_exact(bytes: Seq<u8>) {
    }

    fn encode(&self, buf: &mut [u8]) -> (written: Result<usize, Error>) {
        if buf.len() < 1 {
            return Err(Error::Encode);
        }
        let bytes = self.serialize();
        buf[0] = bytes[0];
        Ok(1)
    }

    fn decode(bytes: &[u8]) -> (read: Result<Request, Error>) {
        if bytes.len() != 1 {
            Err(Error::Decode)
        } else if bytes[0] == 0 {
            Ok(Request::Ready)
        } else if bytes[0] == 1 {
            Ok(Request::Close)
        } else {
            Err(Error::Decode)
        }
    }
}

impl<'a> TryFrom<&'a [u8]> for Request {
    type Error = Error;

    /// Reads the request that `bytes` stand for.
    fn try_from(bytes: &'a [u8]) -> (read: Result<Request, Error>) {
        Request::decode(bytes)
    }
}

impl<'a> TryFromSpecImpl<&'a [u8]> for Request {
    open spec fn obeys_try_from_spec() -> bool {
        true
    }

    open spec fn try_from_spec(bytes: &'a [u8]) -> Result<Request, Error> {
        match request_parse(bytes@) {
            Some(request) => Ok(request),
            None => Err(Error::Decode),
        }
    }
}

/// The encoding of an optional text: the byte 0 if there is none; else the
/// byte 1, the length in bytes of the text's UTF-8 form as a variable-length
/// number, and that form.
pub open spec fn text_wire(text: Option<Seq<char>>) -> Seq<u8> {
    match text {
        None => seq![0u8],
        Some(chars) => seq![1u8] + varint(encode_utf8(chars).len()) + encode_utf8(chars),
    }
}

/// The encoding of an optional interval: the byte 0 if there is none; else
/// the byte 1 and the interval in four bytes, least significant first.
pub open spec fn freq_wire(freq: Option<u32>) -> Seq<u8> {
    match freq {
        None => seq![0u8],
        Some(f) => seq![1u8] + le32(f),
    }
}

/// The encoding of an update: its text, then its interval.
pub open spec fn update_wire(update: UpdateView) -> Seq<u8> {
    text_wire(update.text) + freq_wire(update.freq)
}

/// Reads an optional text off the front of `bytes`: the text, and how many
/// bytes hold it.
pub open spec fn text_parse(bytes: Seq<u8>) -> Option<(Option<Seq<char>>, nat)> {
    if bytes.len() == 0 {
        None
    } else if bytes[0] == 0 {
        Some((None, 1))
    } else if bytes[0] == 1 {
        match varint_parse(bytes.skip(1)) {
            Some((len, used)) => {
                let start = 1 + used;
                if start + len <= bytes.len() && valid_utf8(
                    bytes.subrange(start as int, (start + len) as int),
                ) {
                    Some(
                        (
                            Some(decode_utf8(bytes.subrange(start as int, (start + len) as int))),
                            start + len,
                        ),
                    )
                } else {
                    None
                }
            },
            None => None,
        }
    } else {
        None
    }
}

/// The optional interval that `bytes` stand for, if any.
pub open spec fn freq_parse(bytes: Seq<u8>) -> Option<Option<u32>> {
    if bytes.len() == 1 && bytes[0] == 0 {
        Some(None)
    } else if bytes.len() == 5 && bytes[0] == 1 {
        Some(Some(le32_value(bytes.skip(1)) as u32))
    } else {
        None
    }
}

/// The update that `bytes` stand for, if any: a text, and an interval in
/// all the bytes that follow it.
pub open spec fn update_parse(bytes: Seq<u8>) -> Option<UpdateView> {
    match text_parse(bytes) {
        Some((text, used)) => match freq_parse(bytes.skip(used as int)) {
            Some(freq) => Some(UpdateView { text, freq }),
            None => None,
        },
        None => None,
    }
}

/// An optional text is read back from its encoding, whatever follows it.
pub proof fn lemma_text_parse_of_wire(text: Option<Seq<char>>, rest: Seq<u8>)
    ensures
        text_parse(text_wire(text) + rest) == Some((text, text_wire(text).len())),
{
    let bytes = text_wire(text) + rest;
    match text {
        None => {},
        Some(chars) => {
            let body = encode_utf8(chars);
            let head = varint(body.len());
            lemma_varint_parse_of_varint(body.len(), body + rest);
            assert(bytes.skip(1) =~= head + (body + rest));
            let start = 1 + head.len();
            assert(bytes.subrange(start as int, (start + body.len()) as int) =~= body);
            encode_utf8_valid_utf8(chars);
            encode_utf8_decode_utf8(chars);
        },
    }
}

/// What is read as an optional text is the encoding of that text.
pub proof fn lemma_text_wire_of_parse(bytes: Seq<u8>)
    ensures
        text_parse(bytes) matches Some((text, used)) ==> 1 <= used <= bytes.len() && bytes.take(
            used as int,
        ) == text_wire(text),
{
    match text_parse(bytes) {
        Some((Some(chars), used)) => {
            lemma_varint_of_varint_parse(bytes.skip(1));
            let (len, head_len) = varint_parse(bytes.skip(1)).unwrap();
            let start = 1 + head_len;
            decode_utf8_encode_utf8(bytes.subrange(start as int, (start + len) as int));
        },
        _ => {},
    }
}

/// An optional interval is read back from its encoding, and only its
/// encoding is read as it.
pub proof fn lemma_freq_inverse(freq: Option<u32>, bytes: Seq<u8>)
    ensures
        freq_parse(freq_wire(freq)) == Some(freq),
        freq_parse(bytes) matches Some(f) ==> freq_wire(f) == bytes,
{
    match freq {
        Some(f) => {
            lemma_le32_inverse(f, Seq::empty());
            assert(freq_wire(freq).skip(1) =~= le32(f));
        },
        None => {},
    }
    match freq_parse(bytes) {
        Some(Some(f)) => {
            lemma_le32_inverse(f, bytes.skip(1));
            assert(seq![1u8] + bytes.skip(1) =~= bytes);
        },
        _ => {},
    }
}

/// Every update is read back from its encoding.
pub proof fn lemma_update_round_trip(update: UpdateView)
    ensures
        update_parse(update_wire(update)) == Some(update),
{
    let tail = freq_wire(update.freq);
    lemma_text_parse_of_wire(update.text, tail);
    lemma_freq_inverse(update.freq, tail);
}

/// Only its own encoding is read as an update.
pub proof fn lemma_update_parse_exact(bytes: Seq<u8>)
    ensures
        update_parse(bytes) matches Some(update) ==> update_wire(update) == bytes,
{
    match update_parse(bytes) {
        Some(update) => {
            lemma_text_wire_of_parse(bytes);
            let used = text_parse(bytes).unwrap().1;
            lemma_freq_inverse(update.freq, bytes.skip(used as int));
        },
        None => {},
    }
}

/// No two updates have the same encoding, and no two requests.
pub proof fn lemma_wire_is_injective(a: UpdateView, b: UpdateView, p: Request, q: Request)
    ensures
        update_wire(a) == update_wire(b) ==> a == b,
        request_wire(p) == request_wire(q) ==> p == q,
{
    lemma_update_round_trip(a);
    lemma_update_round_trip(b);
}

/// Copies `src` into `buf` from `at` on. Nothing else in `buf` changes.
fn copy_into(src: &[u8], buf: &mut [u8], at: usize)
    requires
        at + src@.len() <= old(buf)@.len(),
    ensures
        final(buf)@.len() == old(buf)@.len(),
        final(buf)@.subrange(at as int, at + src@.len()) == src@,
        final(buf)@.take(at as int) == old(buf)@.take(at as int),
{
    let room = buf.len();
    let mut i: usize = 0;
    while i < src.len()
        invariant
            i <= src@.len(),
            at + src@.len() <= buf@.len(),
            buf@.len() == room,
            buf@.len() == old(buf)@.len(),
            buf@.subrange(at as int, at + i) == src@.take(i as int),
            buf@.take(at as int) == old(buf)@.take(at as int),
        decreases src@.len() - i,
    {
        buf[at + i] = src[i];
        i = i + 1;
    }
}

impl Update {
    /// Writes the encoding of the update to the front of `buf` and returns
    /// the part of `buf` that holds it. Fails with `Error::Encode` if and
    /// only if the encoding is longer than `buf`.
    pub fn serialize<'a>(&self, buf: &'a mut [u8]) -> (written: Result<&'a [u8], Error>)
        ensures
            match written {
                Ok(bytes) => bytes@ == update_wire(self@) && bytes@.len() <= old(buf)@.len(),
                Err(e) => e == Error::Encode && update_wire(self@).len() > old(buf)@.len(),
            },
    {
        match self.encode(buf) {
            Ok(n) => {
                let bytes: &'a [u8] = &buf[0..n];
                Ok(bytes)
            },
            Err(e) => Err(e),
        }
    }
}

impl Message for Update {
    open spec fn wire(v: UpdateView) -> Seq<u8> {
        update_wire(v)
    }

    open spec fn parse(bytes: Seq<u8>) -> Option<UpdateView> {
        update_parse(bytes)
    }

    proof fn lemma_round_trip(v: UpdateView) {
        lemma_update_round_trip(v);
    }

    proof fn lemma_parse_exact(bytes: Seq<u8>) {
        lemma_update_parse_exact(bytes);
    }

    fn encode(&self, buf: &mut [u8]) -> (written: Result<usize, Error>) {
        let room = buf.len();
        let tail_len: usize = match self.freq {
            Some(_) => 5,
            None => 1,
        };
        if room < 1 + tail_len {
            return Err(Error::Encode);
        }
        let mut pos: usize;
        match &self.text {
            None => {
                buf[0] = 0;
                pos = 1;
            },
            Some(text) => {
                let body = text.as_str().as_bytes();
                let head_len = varint_len(body.len());
                let left = room - 1 - tail_len;
                if left < head_len || left - head_len < body.len() {
                    return Err(Error::Encode);
                }
                buf[0] = 1;
                let start = put_varint(body.len(), buf, 1);
                copy_into(body, buf, start);
                pos = start + body.len();
            },
        }
        let ghost texted = buf@;
        match self.freq {
            None => {
                buf[pos] = 0;
                proof {
                    assert(buf@.take(pos + 1) =~= texted.take(pos as int) + seq![0u8]);
                }
                Ok(pos + 1)
            },
            Some(f) => {
                buf[pos] = 1;
                let bytes = le32_bytes(f);
                copy_into(bytes.as_slice(), buf, pos + 1);
                proof {
                    assert(buf@.take(pos + 5) =~= texted.take(pos as int) + (seq![1u8] + le32(
                        f,
                    )));
                }
                Ok(pos + 5)
            },
        }
    }

    fn decode(bytes: &[u8]) -> (read: Result<Update, Error>) {
        let len = bytes.len();
        if len == 0 {
            return Err(Error::Decode);
        }
        let tag = bytes[0];
        let text: Option<String>;
        let pos: usize;
        if tag == 0 {
            text = None;
            pos = 1;
        } else if tag == 1 {
            proof {
                lemma_varint_of_varint_parse(bytes@.skip(1));
            }
            match take_varint(bytes, 1) {
                None => {
                    return Err(Error::Decode);
                },
                Some((n, start)) => {
                    if n > (len - start) as u64 {
                        return Err(Error::Decode);
                    }
                    let end = start + n as usize;
                    match core::str::from_utf8(&bytes[start..end]) {
                        Ok(s) => {
                            proof {
                                encode_utf8_decode_utf8(s@);
                            }
                            text = Some(s.to_owned());
                            pos = end;
                        },
                        Err(_) => {
                            return Err(Error::Decode);
                        },
                    }
                },
            }
        } else {
            return Err(Error::Decode);
        }
        let rest = len - pos;
        proof {
            if rest == 5 {
                assert(bytes@.skip(pos as int).skip(1) =~= bytes@.subrange(pos + 1, pos + 5));
                lemma_le32_inverse(0, bytes@.subrange(pos + 1, pos + 5));
            }
        }
        if rest == 1 && bytes[pos] == 0 {
            Ok(Update { text, freq: None })
        } else if rest == 5 && bytes[pos] == 1 {
            let f = le32_at(bytes, pos + 1);
            Ok(Update { text, freq: Some(f) })
        } else {
            Err(Error::Decode)
        }
    }
}

impl<'a> TryFrom<&'a [u8]> for Update {
    type Error = Error;

    /// Reads the update that `bytes` stand for. Fails with
    /// `Error::Decode` if and only if they stand for none.
    fn try_from(bytes: &'a [u8]) -> (read: Result<Update, Error>)
        ensures
            match read {
                Ok(update) => update_parse(bytes@) == Some(update@),
                Err(e) => e == Error::Decode && update_parse(bytes@) is None,
            },
    {
        Update::decode(bytes)
    }
}

impl<'a> TryFromSpecImpl<&'a [u8]> for Update {
    /// What `try_from` returns is stated over the update's view, on
    /// `try_from` itself.
    open spec fn obeys_try_from_spec() -> bool {
        false
    }

    open spec fn try_from_spec(bytes: &'a [u8]) -> Result<Update, Error> {
        Err(Error::Decode)
    }
}

/// `Utf8Error` of the standard library: why bytes are no UTF-8 text.
/// Nothing is read from it.
#[verifier::external_type_specification]
#[verifier::external_body]
pub struct ExUtf8Error(core::str::Utf8Error);

/// `core::str::from_utf8` of the standard library succeeds exactly on the
/// byte slices that are well-formed UTF-8, and the text it returns is the
/// one whose UTF-8 form is the slice.
pub assume_specification<'a>[ core::str::from_utf8 ](bytes: &'a [u8]) -> (text: Result<
    &'a str,
    core::str::Utf8Error,
>)
    ensures
        text is Ok <==> valid_utf8(bytes@),
        text matches Ok(s) ==> encode_utf8(s@) == bytes@,
;

} // verus!
