//! Byte strings in the SCALE format: the length in compact form, then the bytes.
//!
//! The coding itself is done by `parity-scale-codec`. This module states what it does
//! to a byte string, and proves that what was encoded decodes to itself.

use vstd::prelude::*;

verus! {

/// The longest byte string that can be encoded.
pub const MAX_LEN: usize = 0xffff_ffff;

/// The two bytes of `value`, least significant first.
pub open spec fn le16(value: nat) -> Seq<u8> {
    seq![(value % 256) as u8, (value / 256 % 256) as u8]
}

/// The four bytes of `value`, least significant first.
pub open spec fn le32(value: nat) -> Seq<u8> {
    seq![
        (value % 256) as u8,
        (value / 256 % 256) as u8,
        (value / 65536 % 256) as u8,
        (value / 16777216 % 256) as u8,
    ]
}

/// The number whose two bytes, least significant first, are those of `bytes` from `at`
/// on.
pub open spec fn value16(bytes: Seq<u8>, at: int) -> nat {
    (bytes[at] + 256 * bytes[at + 1]) as nat
}

/// The number whose four bytes, least significant first, are those of `bytes` from
/// `at` on.
pub open spec fn value32(bytes: Seq<u8>, at: int) -> nat {
    (bytes[at] + 256 * bytes[at + 1] + 65536 * bytes[at + 2] + 16777216 * bytes[at + 3]) as nat
}

/// The compact form of a length: one byte below 2^6, two below 2^14, four below 2^30,
/// five from there on. The two lowest bits of the first byte tell which; in the first
/// three forms the other bits, read least significant byte first, are the length, in
/// the fourth the four bytes that follow are.
pub open spec fn compact(len: nat) -> Seq<u8>
    recommends
        len <= MAX_LEN,
{
    if len < 64 {
        seq![(4 * len) as u8]
    } else if len < 16384 {
        le16(4 * len + 1)
    } else if len < 1073741824 {
        le32(4 * len + 2)
    } else {
        seq![3u8] + le32(len)
    }
}

/// A byte string in the SCALE format: its length in compact form, then its bytes.
pub open spec fn encoded(data: Seq<u8>) -> Seq<u8>
    recommends
        data.len() <= MAX_LEN,
{
    compact(data.len()) + data
}

/// The length that `input` starts with, and how many bytes its compact form takes.
/// There is none if `input` ends before the form does, if the form is longer than the
/// length needs, or if the length does not fit in 32 bits.
pub open spec fn compact_prefix(input: Seq<u8>) -> Option<(nat, nat)> {
    if input.len() == 0 {
        None
    } else if input[0] % 4 == 0 {
        Some(((input[0] / 4) as nat, 1))
    } else if input[0] % 4 == 1 {
        if input.len() >= 2 && value16(input, 0) / 4 >= 64 {
            Some((value16(input, 0) / 4, 2))
        } else {
            None
        }
    } else if input[0] % 4 == 2 {
        if input.len() >= 4 && value32(input, 0) / 4 >= 16384 {
            Some((value32(input, 0) / 4, 4))
        } else {
            None
        }
    } else {
        if input[0] == 3 && input.len() >= 5 && value32(input, 1) >= 1073741824 {
            Some((value32(input, 1), 5))
        } else {
            None
        }
    }
}

/// The byte string that `input` starts with in the SCALE format. What follows it in
/// `input` is not looked at. There is none if `input` does not start with a length or
/// is shorter than the length says.
pub open spec fn decoded(input: Seq<u8>) -> Option<Seq<u8>> {
    match compact_prefix(input) {
        Some((len, width)) => {
            if input.len() - width >= len {
                Some(input.subrange(width as int, (width + len) as int))
            } else {
                None
            }
        },
        None => None,
    }
}

/// The two bytes of a number below 2^16 give the number back.
proof fn lemma_le16(value: nat)
    requires
        value < 65536,
    ensures
        value16(le16(value), 0) == value,
{
}

/// The four bytes of a number below 2^32 give the number back.
proof fn lemma_le32(value: nat)
    requires
        value < 4294967296,
    ensures
        value32(le32(value), 0) == value,
{
    let a = value / 256;
    let b = a / 256;
    let c = b / 256;
    assert(value / 65536 == b);
    assert(value / 16777216 == c);
    assert(c < 256);
}

/// The length that was put in compact form is the length that is read back.
pub proof fn lemma_compact_prefix(len: nat, rest: Seq<u8>)
    requires
        len <= MAX_LEN,
    ensures
        compact_prefix(compact(len) + rest) == Some((len, compact(len).len())),
{
    let input = compact(len) + rest;
    if len < 64 {
        assert(input[0] == 4 * len);
    } else if len < 16384 {
        let form = le16(4 * len + 1);
        lemma_le16(4 * len + 1);
        assert(input[0] == form[0] && input[1] == form[1]);
        assert(value16(input, 0) == 4 * len + 1);
        assert(input[0] % 4 == 1);
    } else if len < 1073741824 {
        let form = le32(4 * len + 2);
        lemma_le32(4 * len + 2);
        assert(input[0] == form[0] && input[1] == form[1] && input[2] == form[2] && input[3]
            == form[3]);
        assert(value32(input, 0) == 4 * len + 2);
        assert(input[0] % 4 == 2);
    } else {
        let form = le32(len);
        lemma_le32(len);
        assert(input[0] == 3);
        assert(input[1] == form[0] && input[2] == form[1] && input[3] == form[2] && input[4]
            == form[3]);
        assert(value32(input, 1) == len);
    }
}

/// What was encoded decodes to itself, whatever follows it.
pub proof fn law_decode_inverts_encode(data: Seq<u8>, rest: Seq<u8>)
    requires
        data.len() <= MAX_LEN,
    ensures
        decoded(encoded(data) + rest) == Some(data),
{
    let input = encoded(data) + rest;
    assert(input =~= compact(data.len()) + (data + rest));
    lemma_compact_prefix(data.len(), data + rest);
    let width = compact(data.len()).len();
    assert(input.subrange(width as int, (width + data.len()) as int) =~= data);
}

/// Encodes a byte string: `Encode::encode` of `parity-scale-codec` on a slice of bytes.
///
/// Taken on trust: the result is the length in compact form followed by the bytes. The
/// outside function gives up on a slice longer than `MAX_LEN`, which is why such a slice
/// is not accepted here.
#[verifier::external_body]
pub(crate) fn encode(data: &[u8]) -> (out: Vec<u8>)
    requires
        data@.len() <= MAX_LEN,
    ensures
        out@ == encoded(data@),
{
    parity_scale_codec::Encode::encode(data)
}

/// Decodes a byte string: `Decode::decode` of `parity-scale-codec` for `Vec<u8>`, on a
/// slice of bytes as input.
///
/// Taken on trust: the outside function reads a length in compact form, refuses a
/// form that is longer than needed and an input that is shorter than the length says,
/// returns the bytes that follow the length and leaves the rest of the input unread.
#[verifier::external_body]
pub(crate) fn decode(input: &[u8]) -> (out: Option<Vec<u8>>)
    ensures
        out matches Some(data) ==> decoded(input@) == Some(data@),
        out is None ==> decoded(input@) is None,
{
    let mut rest = input;
    match <Vec<u8> as parity_scale_codec::Decode>::decode(&mut rest) {
        Ok(data) => Some(data),
        Err(_) => None,
    }
}

} // verus!
