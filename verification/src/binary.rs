//! The compact binary format: values one after another, by position, with
//! no names on the wire.
//!
//! A `bool` is one byte, 0 or 1. A string is the number of bytes of its
//! UTF-8 encoding, as four bytes with the lowest first, and then those
//! bytes.

use vstd::bytes::{
    lemma_auto_spec_u32_to_from_le_bytes, spec_u32_from_le_bytes, spec_u32_to_le_bytes,
    u32_from_le_bytes, u32_to_le_bytes,
};
use vstd::prelude::*;
use vstd::slice::{slice_subrange, slice_to_vec};
use vstd::utf8::{
    decode_utf8, encode_utf8, encode_utf8_decode_utf8, encode_utf8_valid_utf8, valid_utf8,
};

verus! {

/// The byte that stands for `b`.
pub open spec fn bool_bytes(b: bool) -> Seq<u8> {
    seq![if b { 1u8 } else { 0u8 }]
}

/// The bytes that stand for the string `s`, where its length can be
/// written in four bytes.
pub open spec fn string_bytes(s: Seq<char>) -> Option<Seq<u8>> {
    let text = encode_utf8(s);
    if text.len() <= u32::MAX {
        Some(spec_u32_to_le_bytes(text.len() as u32) + text)
    } else {
        None
    }
}

/// The `bool` at the front of `bytes`, and the bytes after it.
pub open spec fn read_bool(bytes: Seq<u8>) -> Option<(bool, Seq<u8>)> {
    if bytes.len() >= 1 && bytes[0] <= 1 {
        Some((bytes[0] == 1, bytes.skip(1)))
    } else {
        None
    }
}

/// The string at the front of `bytes`, and the bytes after it.
pub open spec fn read_string(bytes: Seq<u8>) -> Option<(Seq<char>, Seq<u8>)> {
    if bytes.len() < 4 {
        None
    } else {
        let n = spec_u32_from_le_bytes(bytes.take(4)) as int;
        if bytes.len() - 4 < n || !valid_utf8(bytes.subrange(4, 4 + n)) {
            None
        } else {
            Some((decode_utf8(bytes.subrange(4, 4 + n)), bytes.skip(4 + n)))
        }
    }
}

/// A `bool` that was written is read back, and what followed it is left.
pub proof fn lemma_read_written_bool(b: bool, rest: Seq<u8>)
    ensures
        read_bool(bool_bytes(b) + rest) == Some((b, rest)),
{
    assert((bool_bytes(b) + rest).skip(1) == rest);
}

/// A string that was written is read back, and what followed it is left.
pub proof fn lemma_read_written_string(s: Seq<char>, rest: Seq<u8>)
    requires
        string_bytes(s) is Some,
    ensures
        read_string(string_bytes(s).unwrap() + rest) == Some((s, rest)),
{
    let text = encode_utf8(s);
    let n = text.len() as u32;
    let bytes = string_bytes(s).unwrap() + rest;
    lemma_auto_spec_u32_to_from_le_bytes();
    assert(spec_u32_to_le_bytes(n).len() == 4);
    assert(bytes.take(4) == spec_u32_to_le_bytes(n));
    assert(bytes.subrange(4, 4 + n) == text);
    assert(bytes.skip(4 + n) == rest);
    encode_utf8_valid_utf8(s);
    encode_utf8_decode_utf8(s);
}

/// Appends the byte that stands for `b`.
pub fn put_bool(out: &mut Vec<u8>, b: bool)
    ensures
        final(out)@ == old(out)@ + bool_bytes(b),
{
    out.push(if b { 1u8 } else { 0u8 });
}

/// Appends the bytes that stand for `s`, where there are such bytes, and
/// says whether it did.
pub fn put_string(out: &mut Vec<u8>, s: &str) -> (written: bool)
    ensures
        written <==> string_bytes(s@) is Some,
        written ==> final(out)@ == old(out)@ + string_bytes(s@).unwrap(),
        !written ==> final(out)@ == old(out)@,
{
    let text = s.as_bytes();
    if text.len() > 0xffff_ffff {
        return false;
    }
    let mut length = u32_to_le_bytes(text.len() as u32);
    let mut copy = slice_to_vec(text);
    out.append(&mut length);
    out.append(&mut copy);
    true
}

/// Reads the `bool` that starts at `at`, and gives it with the place after
/// it. There is none where `at` lies beyond the bytes.
pub fn take_bool(bytes: &[u8], at: usize) -> (r: Option<(bool, usize)>)
    ensures
        r is Some <==> at <= bytes@.len() && read_bool(bytes@.skip(at as int)) is Some,
        r matches Some((b, next)) ==> at <= next <= bytes@.len() && read_bool(
            bytes@.skip(at as int),
        ) == Some((b, bytes@.skip(next as int))),
{
    if at < bytes.len() && bytes[at] <= 1 {
        assert(bytes@.skip(at as int).skip(1) == bytes@.skip(at as int + 1));
        Some((bytes[at] == 1, at + 1))
    } else {
        None
    }
}

/// `String::from_utf8` of std: the string that `bytes` encode, where they
/// are valid UTF-8, and nothing where they are not.
#[verifier::external_body]
fn string_from_utf8(bytes: Vec<u8>) -> (r: Option<String>)
    ensures
        r is Some <==> valid_utf8(bytes@),
        r matches Some(s) ==> s@ == decode_utf8(bytes@),
{
    String::from_utf8(bytes).ok()
}

/// Reads the string that starts at `at`, and gives it with the place after
/// it. There is none where `at` lies beyond the bytes.
pub fn take_string(bytes: &[u8], at: usize) -> (r: Option<(String, usize)>)
    ensures
        r is Some <==> at <= bytes@.len() && read_string(bytes@.skip(at as int)) is Some,
        r matches Some((s, next)) ==> at <= next <= bytes@.len() && read_string(
            bytes@.skip(at as int),
        ) == Some((s@, bytes@.skip(next as int))),
{
    if at > bytes.len() || bytes.len() - at < 4 {
        return None;
    }
    let ghost tail = bytes@.skip(at as int);
    let n = u32_from_le_bytes(slice_subrange(bytes, at, at + 4));
    assert(bytes@.subrange(at as int, at + 4) == tail.take(4));
    if bytes.len() - at - 4 < n as usize {
        return None;
    }
    let start = at + 4;
    let end = start + n as usize;
    let text = slice_to_vec(slice_subrange(bytes, start, end));
    assert(text@ == tail.subrange(4, 4 + n));
    assert(bytes@.skip(end as int) == tail.skip(4 + n));
    match string_from_utf8(text) {
        Some(s) => Some((s, end)),
        None => None,
    }
}

} // verus!
