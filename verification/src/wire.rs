//! The two ways in which the wire holds an unsigned integer: in four bytes,
//! least significant first, where its width is fixed (the length of a
//! frame, an interval); and as a run of groups of seven bits, least
//! significant first and as short as the value allows, where it is not
//! (the length of a text).

use vstd::prelude::*;

verus! {

/// The four bytes of `x`, least significant first.
pub open spec fn le32(x: u32) -> Seq<u8> {
    seq![
        (x % 256) as u8,
        (x / 256 % 256) as u8,
        (x / 256 / 256 % 256) as u8,
        (x / 256 / 256 / 256) as u8,
    ]
}

/// The number that four bytes hold, least significant first.
pub open spec fn le32_value(bytes: Seq<u8>) -> int
    recommends
        bytes.len() == 4,
{
    bytes[0] + 256 * bytes[1] + 65536 * bytes[2] + 16777216 * bytes[3]
}

/// Four bytes hold the number they were made from, and only four bytes
/// that were made from a number hold it.
pub proof fn lemma_le32_inverse(x: u32, bytes: Seq<u8>)
    ensures
        le32(x).len() == 4,
        le32_value(le32(x)) == x,
        bytes.len() == 4 ==> 0 <= le32_value(bytes) <= u32::MAX && le32(le32_value(bytes) as u32)
            == bytes,
{
    if bytes.len() == 4 {
        let v = le32_value(bytes);
        let upper = bytes[1] + 256 * bytes[2] + 65536 * bytes[3];
        let top = bytes[2] + 256 * bytes[3];
        assert(v == bytes[0] + 256 * upper);
        assert(v / 256 == upper && v % 256 == bytes[0]);
        assert(upper == bytes[1] + 256 * top);
        assert(upper / 256 == top && upper % 256 == bytes[1]);
        assert(top / 256 == bytes[3] && top % 256 == bytes[2]);
        assert(le32(v as u32) =~= bytes);
    }
}

/// The four bytes of `x`, least significant first.
pub fn le32_bytes(x: u32) -> (bytes: [u8; 4])
    ensures
        bytes@ == le32(x),
{
    [
        (x % 256) as u8,
        (x / 256 % 256) as u8,
        (x / 256 / 256 % 256) as u8,
        (x / 256 / 256 / 256) as u8,
    ]
}

/// The number that the four bytes of `bytes` from `at` on hold.
pub(crate) fn le32_at(bytes: &[u8], at: usize) -> (x: u32)
    requires
        at + 4 <= bytes@.len(),
    ensures
        x == le32_value(bytes@.subrange(at as int, at + 4)),
{
    let b0 = bytes[at] as u32;
    let b1 = bytes[at + 1] as u32;
    let b2 = bytes[at + 2] as u32;
    let b3 = bytes[at + 3] as u32;
    b0 + 256 * b1 + 65536 * b2 + 16777216 * b3
}

/// The variable-length form of `n`: seven bits to a byte, least significant
/// group first, each byte but the last marked by its top bit. No shorter
/// run of bytes holds `n`.
pub open spec fn varint(n: nat) -> Seq<u8>
    decreases n,
{
    if n < 128 {
        seq![n as u8]
    } else {
        seq![(128 + n % 128) as u8] + varint(n / 128)
    }
}

/// Reads one number in variable-length form off the front of `bytes`: the
/// number, and how many bytes hold it. There is none where the bytes end
/// before the number does, or where the number is not in its shortest form.
pub open spec fn varint_parse(bytes: Seq<u8>) -> Option<(nat, nat)>
    decreases bytes.len(),
{
    if bytes.len() == 0 {
        None
    } else if bytes[0] < 128 {
        Some((bytes[0] as nat, 1))
    } else {
        match varint_parse(bytes.skip(1)) {
            Some((high, used)) => if high == 0 {
                None
            } else {
                Some((((bytes[0] - 128) + 128 * high) as nat, used + 1))
            },
            None => None,
        }
    }
}

/// The variable-length form of a number is read back as that number,
/// whatever follows it.
pub proof fn lemma_varint_parse_of_varint(n: nat, rest: Seq<u8>)
    ensures
        varint(n).len() >= 1,
        varint_parse(varint(n) + rest) == Some((n, varint(n).len())),
    decreases n,
{
    let bytes = varint(n) + rest;
    if n >= 128 {
        lemma_varint_parse_of_varint(n / 128, rest);
        assert(bytes.skip(1) =~= varint(n / 128) + rest);
    }
}

/// What is read as a number is the variable-length form of that number.
pub proof fn lemma_varint_of_varint_parse(bytes: Seq<u8>)
    ensures
        varint_parse(bytes) matches Some((n, used)) ==> 1 <= used <= bytes.len() && bytes.take(
            used as int,
        ) == varint(n),
    decreases bytes.len(),
{
    if bytes.len() > 0 && bytes[0] >= 128 {
        lemma_varint_of_varint_parse(bytes.skip(1));
    }
}

/// How many bytes the variable-length form of `n` takes.
pub fn varint_len(n: usize) -> (len: usize)
    ensures
        len == varint(n as nat).len(),
{
    let mut left = n;
    let mut len: usize = 1;
    while left >= 128
        invariant
            len >= 1,
            len + left <= 1 + n,
            len + varint(left as nat).len() == 1 + varint(n as nat).len(),
        decreases left,
    {
        left = left / 128;
        len = len + 1;
    }
    len
}

/// Writes the variable-length form of `n` into `buf` from `at` on and
/// returns where it ends. Nothing else in `buf` changes.
pub(crate) fn put_varint(n: usize, buf: &mut [u8], at: usize) -> (end: usize)
    requires
        at + varint(n as nat).len() <= old(buf)@.len(),
    ensures
        end == at + varint(n as nat).len(),
        final(buf)@.len() == old(buf)@.len(),
        final(buf)@.subrange(at as int, end as int) == varint(n as nat),
        final(buf)@.take(at as int) == old(buf)@.take(at as int),
        final(buf)@.skip(end as int) == old(buf)@.skip(end as int),
{
    let mut left = n;
    let mut pos = at;
    while left >= 128
        invariant
            at <= pos,
            pos + varint(left as nat).len() == at + varint(n as nat).len(),
            pos + varint(left as nat).len() <= buf@.len(),
            buf@.len() == old(buf)@.len(),
            buf@.subrange(at as int, pos as int) + varint(left as nat) == varint(n as nat),
            buf@.take(at as int) == old(buf)@.take(at as int),
            buf@.skip(pos as int) == old(buf)@.skip(pos as int),
        decreases left,
    {
        buf[pos] = (128 + left % 128) as u8;
        assert(old(buf)@.skip(pos + 1) =~= old(buf)@.skip(pos as int).skip(1));
        left = left / 128;
        pos = pos + 1;
    }
    buf[pos] = left as u8;
    assert(old(buf)@.skip(pos + 1) =~= old(buf)@.skip(pos as int).skip(1));
    pos + 1
}

/// What `take_varint` returns for bytes whose reading is `parsed`: the
/// number and where its bytes end, if it fits 64 bits; nothing otherwise.
pub open spec fn varint_taken(parsed: Option<(nat, nat)>, at: usize) -> Option<(u64, usize)> {
    match parsed {
        Some((n, used)) => if n <= u64::MAX {
            Some((n as u64, (at + used) as usize))
        } else {
            None
        },
        None => None,
    }
}

/// Reads one number in variable-length form from `bytes` at `at`: the
/// number and where its bytes end. There is none where `varint_parse` finds
/// none, or where the number does not fit 64 bits.
pub(crate) fn take_varint(bytes: &[u8], at: usize) -> (taken: Option<(u64, usize)>)
    requires
        at <= bytes@.len(),
    ensures
        taken == varint_taken(varint_parse(bytes@.skip(at as int)), at),
        taken matches Some((_, end)) ==> at < end <= bytes@.len(),
{
    let ghost whole = varint_parse(bytes@.skip(at as int));
    let mut acc: u64 = 0;
    let mut weight: u64 = 1;
    let mut pos = at;
    proof {
        lemma_varint_of_varint_parse(bytes@.skip(at as int));
    }
    while pos < bytes.len()
        invariant
            at <= pos <= bytes@.len(),
            acc < weight,
            whole == varint_parse(bytes@.skip(at as int)),
            whole == match varint_parse(bytes@.skip(pos as int)) {
                Some((high, used)) => if pos > at && high == 0 {
                    None
                } else {
                    Some(((acc + weight * high) as nat, (used + pos - at) as nat))
                },
                None => None,
            },
            whole matches Some((_, used)) ==> at + used <= bytes@.len(),
        decreases bytes@.len() - pos,
    {
        let byte = bytes[pos];
        let ghost rest = bytes@.skip(pos as int);
        assert(rest.skip(1) =~= bytes@.skip(pos + 1));
        if byte < 128 {
            if pos > at && byte == 0 {
                return None;
            }
            return match weight.checked_mul(byte as u64) {
                Some(product) => match acc.checked_add(product) {
                    Some(value) => Some((value, pos + 1)),
                    None => None,
                },
                None => None,
            };
        }
        if weight > u64::MAX / 128 {
            proof {
                match varint_parse(rest.skip(1)) {
                    Some((high, used)) => {
                        if high != 0 {
                            let digit = (byte - 128) as int;
                            assert(weight * (digit + 128 * high) >= weight * 128)
                                by (nonlinear_arith)
                                requires
                                    weight >= 0,
                                    digit >= 0,
                                    high >= 1,
                            ;
                        }
                    },
                    None => {},
                }
            }
            return None;
        }
        let digit = (byte - 128) as u64;
        proof {
            assert(weight * digit <= weight * 127) by (nonlinear_arith)
                requires
                    weight >= 0,
                    digit <= 127,
            ;
            match varint_parse(rest.skip(1)) {
                Some((high, used)) => {
                    assert(weight * (digit + 128 * high) == weight * digit + (128 * weight)
                        * high) by (nonlinear_arith);
                },
                None => {},
            }
        }
        acc = acc + weight * digit;
        weight = 128 * weight;
        pos = pos + 1;
    }
    None
}

} // verus!
