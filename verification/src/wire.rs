//! Big-endian integers and length-prefixed strings, the units every message
//! body is built from.
use byteorder::{BigEndian, ReadBytesExt, WriteBytesExt};
use vstd::prelude::*;
use vstd::slice::{slice_subrange, slice_to_vec};
use vstd::utf8::{decode_utf8, encode_utf8, valid_utf8};

use crate::WireError;

verus! {

/// `std::io::Error`, the error type of the byte-order calls below. It is
/// carried through unread: nothing is claimed of what a value holds.
#[verifier::external_type_specification]
#[verifier::external_body]
pub struct ExIoError(std::io::Error);

/// The two bytes of an unsigned 16-bit integer, most significant first.
pub open spec fn u16_be(v: u16) -> Seq<u8> {
    seq![(v / 256) as u8, (v % 256) as u8]
}

/// The two bytes of a signed 16-bit integer in two's complement, most
/// significant first.
pub open spec fn i16_be(v: i16) -> Seq<u8> {
    u16_be(if v < 0 { (v + 0x1_0000) as u16 } else { v as u16 })
}

/// The four bytes of a signed 32-bit integer in two's complement, most
/// significant first.
pub open spec fn i32_be(v: i32) -> Seq<u8> {
    let u: int = if v < 0 { v + 0x1_0000_0000 } else { v as int };
    seq![
        (u / 0x100_0000) as u8,
        (u / 0x1_0000 % 256) as u8,
        (u / 256 % 256) as u8,
        (u % 256) as u8,
    ]
}

/// The unsigned 16-bit integer that the first two bytes of `b` spell.
pub open spec fn be_u16(b: Seq<u8>) -> u16 {
    (b[0] as int * 256 + b[1] as int) as u16
}

/// The signed 16-bit integer that the first two bytes of `b` spell.
pub open spec fn be_i16(b: Seq<u8>) -> i16 {
    let u: int = b[0] as int * 256 + b[1] as int;
    if u >= 0x8000 { (u - 0x1_0000) as i16 } else { u as i16 }
}

/// The signed 32-bit integer that the first four bytes of `b` spell.
pub open spec fn be_i32(b: Seq<u8>) -> i32 {
    let u: int = b[0] as int * 0x100_0000 + b[1] as int * 0x1_0000 + b[2] as int * 256
        + b[3] as int;
    if u >= 0x8000_0000 { (u - 0x1_0000_0000) as i32 } else { u as i32 }
}

/// Calls `byteorder::WriteBytesExt::write_u16::<BigEndian>` on the vector.
/// Trusted: the call lays out the two bytes of `v`, high byte first, and
/// hands them to the vector's `write_all`, which appends them; a vector
/// grows as needed, so the write does not fail.
#[verifier::external_body]
fn put_u16(buf: &mut Vec<u8>, v: u16) -> (r: Result<(), std::io::Error>)
    ensures
        r is Ok,
        final(buf)@ == old(buf)@ + u16_be(v),
{
    buf.write_u16::<BigEndian>(v)
}

/// Calls `byteorder::WriteBytesExt::write_i16::<BigEndian>` on the vector.
/// Trusted: the call lays out the two bytes of `v` in two's complement,
/// high byte first, and hands them to the vector's `write_all`, which
/// appends them; a vector grows as needed, so the write does not fail.
#[verifier::external_body]
fn put_i16(buf: &mut Vec<u8>, v: i16) -> (r: Result<(), std::io::Error>)
    ensures
        r is Ok,
        final(buf)@ == old(buf)@ + i16_be(v),
{
    buf.write_i16::<BigEndian>(v)
}

/// Calls `byteorder::WriteBytesExt::write_i32::<BigEndian>` on the vector.
/// Trusted: the call lays out the four bytes of `v` in two's complement,
/// high byte first, and hands them to the vector's `write_all`, which
/// appends them; a vector grows as needed, so the write does not fail.
#[verifier::external_body]
fn put_i32(buf: &mut Vec<u8>, v: i32) -> (r: Result<(), std::io::Error>)
    ensures
        r is Ok,
        final(buf)@ == old(buf)@ + i32_be(v),
{
    buf.write_i32::<BigEndian>(v)
}

/// Calls `byteorder::ReadBytesExt::read_u16::<BigEndian>` on the slice.
/// Trusted: with two bytes or more the call gives the integer that the first
/// two spell; with fewer it gives an error.
#[verifier::external_body]
fn get_u16(bytes: &[u8]) -> (r: Result<u16, std::io::Error>)
    ensures
        r is Ok <==> bytes@.len() >= 2,
        r matches Ok(v) ==> v == be_u16(bytes@),
{
    let mut rest = bytes;
    rest.read_u16::<BigEndian>()
}

/// Calls `byteorder::ReadBytesExt::read_i16::<BigEndian>` on the slice.
/// Trusted: with two bytes or more the call gives the signed integer that the
/// first two spell; with fewer it gives an error.
#[verifier::external_body]
fn get_i16(bytes: &[u8]) -> (r: Result<i16, std::io::Error>)
    ensures
        r is Ok <==> bytes@.len() >= 2,
        r matches Ok(v) ==> v == be_i16(bytes@),
{
    let mut rest = bytes;
    rest.read_i16::<BigEndian>()
}

/// Calls `byteorder::ReadBytesExt::read_i32::<BigEndian>` on the slice.
/// Trusted: with four bytes or more the call gives the signed integer that
/// the first four spell; with fewer it gives an error.
#[verifier::external_body]
fn get_i32(bytes: &[u8]) -> (r: Result<i32, std::io::Error>)
    ensures
        r is Ok <==> bytes@.len() >= 4,
        r matches Ok(v) ==> v == be_i32(bytes@),
{
    let mut rest = bytes;
    rest.read_i32::<BigEndian>()
}

/// Calls `std::str::from_utf8`. Trusted: the call succeeds exactly on valid
/// UTF-8, and the string it gives has the bytes it was given.
#[verifier::external_body]
fn utf8_str(bytes: &[u8]) -> (r: Option<&str>)
    ensures
        r is Some <==> valid_utf8(bytes@),
        r matches Some(s) ==> encode_utf8(s@) == bytes@,
{
    std::str::from_utf8(bytes).ok()
}

/// Appends `v` as two big-endian bytes.
pub fn write_u16(buf: &mut Vec<u8>, v: u16)
    ensures
        final(buf)@ == old(buf)@ + u16_be(v),
{
    let _ = put_u16(buf, v);
}

/// Appends `v` as two big-endian bytes.
pub fn write_i16(buf: &mut Vec<u8>, v: i16)
    ensures
        final(buf)@ == old(buf)@ + i16_be(v),
{
    let _ = put_i16(buf, v);
}

/// Appends `v` as four big-endian bytes.
pub fn write_i32(buf: &mut Vec<u8>, v: i32)
    ensures
        final(buf)@ == old(buf)@ + i32_be(v),
{
    let _ = put_i32(buf, v);
}

/// Appends `bytes` as they are.
pub fn write_bytes(buf: &mut Vec<u8>, bytes: &[u8])
    ensures
        final(buf)@ == old(buf)@ + bytes@,
{
    buf.extend_from_slice(bytes);
    assert(buf@ =~= old(buf)@ + bytes@);
}

/// Reads an unsigned 16-bit integer from the front of `bytes`.
pub fn read_u16(bytes: &[u8]) -> (r: Result<u16, WireError>)
    ensures
        r == (if bytes@.len() >= 2 {
            Ok::<u16, WireError>(be_u16(bytes@))
        } else {
            Err::<u16, WireError>(WireError::Truncated)
        }),
{
    match get_u16(bytes) {
        Ok(v) => Ok(v),
        Err(_) => Err(WireError::Truncated),
    }
}

/// Reads a signed 16-bit integer from the front of `bytes`.
pub fn read_i16(bytes: &[u8]) -> (r: Result<i16, WireError>)
    ensures
        r == (if bytes@.len() >= 2 {
            Ok::<i16, WireError>(be_i16(bytes@))
        } else {
            Err::<i16, WireError>(WireError::Truncated)
        }),
{
    match get_i16(bytes) {
        Ok(v) => Ok(v),
        Err(_) => Err(WireError::Truncated),
    }
}

/// Reads a signed 32-bit integer from the front of `bytes`.
pub fn read_i32(bytes: &[u8]) -> (r: Result<i32, WireError>)
    ensures
        r == (if bytes@.len() >= 4 {
            Ok::<i32, WireError>(be_i32(bytes@))
        } else {
            Err::<i32, WireError>(WireError::Truncated)
        }),
{
    match get_i32(bytes) {
        Ok(v) => Ok(v),
        Err(_) => Err(WireError::Truncated),
    }
}

/// Reading back what was written gives the same unsigned integer.
pub proof fn u16_round_trip(v: u16, rest: Seq<u8>)
    ensures
        be_u16(u16_be(v) + rest) == v,
{
}

/// Reading back what was written gives the same signed integer.
pub proof fn i16_round_trip(v: i16, rest: Seq<u8>)
    ensures
        be_i16(i16_be(v) + rest) == v,
{
}

/// Reading back what was written gives the same signed integer.
pub proof fn i32_round_trip(v: i32, rest: Seq<u8>)
    ensures
        be_i32(i32_be(v) + rest) == v,
{
}

/// A short string on the wire: the byte length as an unsigned 16-bit prefix,
/// then the UTF-8 bytes, with no terminator.
pub open spec fn short_string(s: Seq<char>) -> Seq<u8> {
    u16_be(encode_utf8(s).len() as u16) + encode_utf8(s)
}

/// What decoding a short string from the front of `bytes` gives: the text
/// and the number of bytes it took, or the reason why there is none.
pub open spec fn short_string_decoding(bytes: Seq<u8>) -> Result<(Seq<char>, int), WireError> {
    if bytes.len() < 2 {
        Err(WireError::Truncated)
    } else if bytes.len() < 2 + be_u16(bytes) {
        Err(WireError::Truncated)
    } else if !valid_utf8(bytes.subrange(2, 2 + be_u16(bytes))) {
        Err(WireError::Malformed)
    } else {
        Ok((decode_utf8(bytes.subrange(2, 2 + be_u16(bytes))), 2 + be_u16(bytes)))
    }
}

/// Decodes a short string from the front of `bytes`; gives the string and
/// the number of bytes consumed.
pub fn decode_short_string(bytes: &[u8]) -> (r: Result<(String, usize), WireError>)
    ensures
        match short_string_decoding(bytes@) {
            Ok((text, used)) => r matches Ok((s, n)) && s@ == text && n == used,
            Err(e) => r matches Err(f) && f == e,
        },
{
    let n: usize = match read_u16(bytes) {
        Ok(v) => v as usize,
        Err(e) => { return Err(e); },
    };
    if bytes.len() - 2 < n {
        return Err(WireError::Truncated);
    }
    let body = slice_subrange(bytes, 2, 2 + n);
    match utf8_str(body) {
        Some(s) => {
            proof {
                vstd::utf8::encode_utf8_decode_utf8(s@);
            }
            Ok((s.to_owned(), 2 + n))
        },
        None => Err(WireError::Malformed),
    }
}

/// Decoding an encoded short string gives the string back and consumes
/// exactly its encoding, whatever follows it.
pub proof fn short_string_round_trip(s: Seq<char>, rest: Seq<u8>)
    requires
        encode_utf8(s).len() <= 0xFFFF,
    ensures
        short_string(s).len() == 2 + encode_utf8(s).len(),
        short_string_decoding(short_string(s) + rest) == Ok::<(Seq<char>, int), WireError>(
            (s, 2 + encode_utf8(s).len() as int),
        ),
{
    let body = encode_utf8(s);
    let all = short_string(s) + rest;
    u16_round_trip(body.len() as u16, body + rest);
    assert(all =~= u16_be(body.len() as u16) + (body + rest));
    assert(all.subrange(2, 2 + body.len() as int) =~= body);
    vstd::utf8::encode_utf8_valid_utf8(s);
    vstd::utf8::encode_utf8_decode_utf8(s);
}

/// The texts of a list of string pairs.
pub open spec fn pairs_view(v: Seq<(String, String)>) -> Seq<(Seq<char>, Seq<char>)> {
    v.map_values(|p: (String, String)| (p.0@, p.1@))
}

/// What decoding `count` more pairs of short strings gives, from offset
/// `pos` of `bytes` and after the pairs in `done`: all the pairs in wire
/// order and the offset behind the last, or the first error met.
pub open spec fn string_pairs_from(
    bytes: Seq<u8>,
    pos: int,
    count: nat,
    done: Seq<(Seq<char>, Seq<char>)>,
) -> Result<(Seq<(Seq<char>, Seq<char>)>, int), WireError>
    decreases count,
{
    if count == 0 {
        Ok((done, pos))
    } else {
        match short_string_decoding(bytes.skip(pos)) {
            Err(e) => Err(e),
            Ok((key, n1)) => match short_string_decoding(bytes.skip(pos + n1)) {
                Err(e) => Err(e),
                Ok((value, n2)) => string_pairs_from(
                    bytes,
                    pos + n1 + n2,
                    (count - 1) as nat,
                    done.push((key, value)),
                ),
            },
        }
    }
}

/// What decoding a string map from the front of `bytes` gives: an unsigned
/// 16-bit count, then that many pairs of key and value.
pub open spec fn string_map_decoding(bytes: Seq<u8>) -> Result<
    (Seq<(Seq<char>, Seq<char>)>, int),
    WireError,
> {
    if bytes.len() < 2 {
        Err(WireError::Truncated)
    } else {
        string_pairs_from(bytes, 2, be_u16(bytes) as nat, Seq::empty())
    }
}

/// Decodes a string map from the front of `bytes`; gives the entries in
/// wire order and the number of bytes consumed.
pub fn decode_string_map(bytes: &[u8]) -> (r: Result<(Vec<(String, String)>, usize), WireError>)
    ensures
        match string_map_decoding(bytes@) {
            Ok((entries, used)) => r matches Ok((v, n)) && pairs_view(v@) == entries && n == used,
            Err(e) => r matches Err(f) && f == e,
        },
{
    let count: u16 = match read_u16(bytes) {
        Ok(v) => v,
        Err(e) => { return Err(e); },
    };
    let mut out: Vec<(String, String)> = Vec::new();
    let mut pos: usize = 2;
    let mut i: u16 = 0;
    assert(pairs_view(out@) =~= Seq::empty());
    while i < count
        invariant
            2 <= pos <= bytes@.len(),
            i <= count,
            bytes@.len() >= 2,
            count == be_u16(bytes@),
            string_pairs_from(bytes@, pos as int, (count - i) as nat, pairs_view(out@))
                == string_map_decoding(bytes@),
        decreases count - i,
    {
        let (key, n1) = match decode_short_string(slice_subrange(bytes, pos, bytes.len())) {
            Ok(v) => v,
            Err(e) => { return Err(e); },
        };
        let (value, n2) = match decode_short_string(slice_subrange(bytes, pos + n1, bytes.len())) {
            Ok(v) => v,
            Err(e) => { return Err(e); },
        };
        let ghost before = pairs_view(out@);
        out.push((key, value));
        assert(pairs_view(out@) =~= before.push((key@, value@)));
        pos = pos + n1 + n2;
        i = i + 1;
    }
    Ok((out, pos))
}

/// The bytes of an optional byte string.
pub open spec fn opt_bytes_view(v: Option<Vec<u8>>) -> Option<Seq<u8>> {
    match v {
        Some(b) => Some(b@),
        None => None,
    }
}

/// What decoding a byte string from the front of `bytes` gives: a signed
/// 32-bit length, then that many bytes. A negative length stands for no
/// value at all and is followed by nothing.
pub open spec fn bytes_decoding(bytes: Seq<u8>) -> Result<(Option<Seq<u8>>, int), WireError> {
    if bytes.len() < 4 {
        Err(WireError::Truncated)
    } else if be_i32(bytes) < 0 {
        Ok((None, 4))
    } else if bytes.len() < 4 + be_i32(bytes) {
        Err(WireError::Truncated)
    } else {
        Ok((Some(bytes.subrange(4, 4 + be_i32(bytes))), 4 + be_i32(bytes)))
    }
}

/// Decodes a byte string from the front of `bytes`; gives the value, if
/// there is one, and the number of bytes consumed.
pub fn decode_bytes(bytes: &[u8]) -> (r: Result<(Option<Vec<u8>>, usize), WireError>)
    ensures
        match bytes_decoding(bytes@) {
            Ok((value, used)) => r matches Ok((v, n)) && opt_bytes_view(v) == value && n == used,
            Err(e) => r matches Err(f) && f == e,
        },
{
    let n: i32 = match read_i32(bytes) {
        Ok(v) => v,
        Err(e) => { return Err(e); },
    };
    if n < 0 {
        return Ok((None, 4));
    }
    let len: usize = n as usize;
    if bytes.len() - 4 < len {
        return Err(WireError::Truncated);
    }
    let value = slice_to_vec(slice_subrange(bytes, 4, 4 + len));
    Ok((Some(value), 4 + len))
}

/// Whether two strings hold the same text.
pub fn same_text(a: &str, b: &str) -> (r: bool)
    ensures
        r == (a@ == b@),
{
    let x = a.as_bytes();
    let y = b.as_bytes();
    proof {
        vstd::utf8::encode_utf8_decode_utf8(a@);
        vstd::utf8::encode_utf8_decode_utf8(b@);
    }
    if x.len() != y.len() {
        return false;
    }
    let mut i: usize = 0;
    while i < x.len()
        invariant
            i <= x@.len(),
            x@.len() == y@.len(),
            x@ == encode_utf8(a@),
            y@ == encode_utf8(b@),
            forall|k: int| 0 <= k < i ==> x@[k] == y@[k],
        decreases x@.len() - i,
    {
        if x[i] != y[i] {
            return false;
        }
        i = i + 1;
    }
    assert(x@ =~= y@);
    true
}

/// The texts of a list of strings.
pub open spec fn strings_view(v: Seq<String>) -> Seq<Seq<char>> {
    v.map_values(|s: String| s@)
}

/// What decoding `count` more short strings gives, from offset `pos` of
/// `bytes` and after the strings in `done`: all the strings in wire order
/// and the offset behind the last, or the first error met.
pub open spec fn strings_from(bytes: Seq<u8>, pos: int, count: nat, done: Seq<Seq<char>>) -> Result<
    (Seq<Seq<char>>, int),
    WireError,
>
    decreases count,
{
    if count == 0 {
        Ok((done, pos))
    } else {
        match short_string_decoding(bytes.skip(pos)) {
            Err(e) => Err(e),
            Ok((text, n)) => strings_from(bytes, pos + n, (count - 1) as nat, done.push(text)),
        }
    }
}

/// What decoding a string list from the front of `bytes` gives: an
/// unsigned 16-bit count, then that many short strings.
pub open spec fn string_list_decoding(bytes: Seq<u8>) -> Result<(Seq<Seq<char>>, int), WireError> {
    if bytes.len() < 2 {
        Err(WireError::Truncated)
    } else {
        strings_from(bytes, 2, be_u16(bytes) as nat, Seq::empty())
    }
}

/// Decodes a string list from the front of `bytes`; gives the strings in
/// wire order and the number of bytes consumed.
pub fn decode_string_list(bytes: &[u8]) -> (r: Result<(Vec<String>, usize), WireError>)
    ensures
        match string_list_decoding(bytes@) {
            Ok((texts, used)) => r matches Ok((v, n)) && strings_view(v@) == texts && n == used
                && n <= bytes@.len(),
            Err(e) => r matches Err(f) && f == e,
        },
{
    let count: u16 = match read_u16(bytes) {
        Ok(v) => v,
        Err(e) => { return Err(e); },
    };
    let mut out: Vec<String> = Vec::new();
    let mut pos: usize = 2;
    let mut i: u16 = 0;
    assert(strings_view(out@) =~= Seq::empty());
    while i < count
        invariant
            2 <= pos <= bytes@.len(),
            i <= count,
            count == be_u16(bytes@),
            strings_from(bytes@, pos as int, (count - i) as nat, strings_view(out@))
                == string_list_decoding(bytes@),
        decreases count - i,
    {
        let (text, n) = match decode_short_string(slice_subrange(bytes, pos, bytes.len())) {
            Ok(v) => v,
            Err(e) => { return Err(e); },
        };
        let ghost before = strings_view(out@);
        out.push(text);
        assert(strings_view(out@) =~= before.push(text@));
        pos = pos + n;
        i = i + 1;
    }
    Ok((out, pos))
}

/// The texts of a list of keys with their lists of values.
pub open spec fn multimap_view(v: Seq<(String, Vec<String>)>) -> Seq<(Seq<char>, Seq<Seq<char>>)> {
    v.map_values(|p: (String, Vec<String>)| (p.0@, strings_view(p.1@)))
}

/// What decoding `count` more entries of a string multimap gives, from
/// offset `pos` of `bytes` and after the entries in `done`. An entry is a
/// key as a short string, then its values as a string list.
pub open spec fn multimap_from(
    bytes: Seq<u8>,
    pos: int,
    count: nat,
    done: Seq<(Seq<char>, Seq<Seq<char>>)>,
) -> Result<(Seq<(Seq<char>, Seq<Seq<char>>)>, int), WireError>
    decreases count,
{
    if count == 0 {
        Ok((done, pos))
    } else {
        match short_string_decoding(bytes.skip(pos)) {
            Err(e) => Err(e),
            Ok((key, n1)) => match string_list_decoding(bytes.skip(pos + n1)) {
                Err(e) => Err(e),
                Ok((values, n2)) => multimap_from(
                    bytes,
                    pos + n1 + n2,
                    (count - 1) as nat,
                    done.push((key, values)),
                ),
            },
        }
    }
}

/// What decoding a string multimap from the front of `bytes` gives: an
/// unsigned 16-bit count, then that many entries.
pub open spec fn string_multimap_decoding(bytes: Seq<u8>) -> Result<
    (Seq<(Seq<char>, Seq<Seq<char>>)>, int),
    WireError,
> {
    if bytes.len() < 2 {
        Err(WireError::Truncated)
    } else {
        multimap_from(bytes, 2, be_u16(bytes) as nat, Seq::empty())
    }
}

/// Decodes a string multimap from the front of `bytes`; gives the entries
/// in wire order and the number of bytes consumed.
pub fn decode_string_multimap(bytes: &[u8]) -> (r: Result<
    (Vec<(String, Vec<String>)>, usize),
    WireError,
>)
    ensures
        match string_multimap_decoding(bytes@) {
            Ok((entries, used)) => r matches Ok((v, n)) && multimap_view(v@) == entries && n
                == used,
            Err(e) => r matches Err(f) && f == e,
        },
{
    let count: u16 = match read_u16(bytes) {
        Ok(v) => v,
        Err(e) => { return Err(e); },
    };
    let mut out: Vec<(String, Vec<String>)> = Vec::new();
    let mut pos: usize = 2;
    let mut i: u16 = 0;
    assert(multimap_view(out@) =~= Seq::empty());
    while i < count
        invariant
            2 <= pos <= bytes@.len(),
            i <= count,
            count == be_u16(bytes@),
            multimap_from(bytes@, pos as int, (count - i) as nat, multimap_view(out@))
                == string_multimap_decoding(bytes@),
        decreases count - i,
    {
        let (key, n1) = match decode_short_string(slice_subrange(bytes, pos, bytes.len())) {
            Ok(v) => v,
            Err(e) => { return Err(e); },
        };
        let (values, n2) = match decode_string_list(slice_subrange(bytes, pos + n1, bytes.len())) {
            Ok(v) => v,
            Err(e) => { return Err(e); },
        };
        let ghost before = multimap_view(out@);
        let ghost entry = (key@, strings_view(values@));
        out.push((key, values));
        assert(multimap_view(out@) =~= before.push(entry));
        pos = pos + n1 + n2;
        i = i + 1;
    }
    Ok((out, pos))
}

} // verus!
