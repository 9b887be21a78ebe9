//! Big-endian integer and length-prefixed string encodings, as sequences of bytes.
use vstd::prelude::*;
use vstd::utf8::*;

verus! {

/// The two bytes of `n`, most significant first.
pub open spec fn be_u16_bytes(n: u16) -> Seq<u8> {
    seq![(n >> 8u16) as u8, n as u8]
}

/// The `u16` that the first two bytes of `s` hold, most significant first.
pub open spec fn be_u16_value(s: Seq<u8>) -> u16
    recommends
        s.len() >= 2,
{
    (((s[0] as u16) << 8u16) | (s[1] as u16)) as u16
}

/// The four bytes of the two's complement form of `n`, most significant first.
pub open spec fn be_i32_bytes(n: i32) -> Seq<u8> {
    seq![
        ((n as u32) >> 24u32) as u8,
        ((n as u32) >> 16u32) as u8,
        ((n as u32) >> 8u32) as u8,
        (n as u32) as u8,
    ]
}

/// The `i32` whose two's complement form the first four bytes of `s` hold, most
/// significant first.
pub open spec fn be_i32_value(s: Seq<u8>) -> i32
    recommends
        s.len() >= 4,
{
    be_u32_of(s[0], s[1], s[2], s[3]) as i32
}

/// The `u32` of four bytes, most significant first.
pub open spec fn be_u32_of(b0: u8, b1: u8, b2: u8, b3: u8) -> u32 {
    (((b0 as u32) << 24u32) | ((b1 as u32) << 16u32) | ((b2 as u32) << 8u32) | (b3 as u32)) as u32
}

/// The bytes of a string as the packet format writes it: its UTF-8 length as a
/// big-endian `u16` (cut to 16 bits), then its UTF-8 bytes.
pub open spec fn str_bytes(s: Seq<char>) -> Seq<u8> {
    be_u16_bytes(encode_utf8(s).len() as u16) + encode_utf8(s)
}

/// Reading a string from `rem`: `None` where `rem` is too short for the length
/// prefix or the body, or where the body is not UTF-8; else the string and the
/// bytes after it.
pub open spec fn read_str_spec(rem: Seq<u8>) -> Option<(Seq<char>, Seq<u8>)> {
    if rem.len() < 2 {
        None
    } else {
        let n = be_u16_value(rem) as int;
        if rem.len() < 2 + n {
            None
        } else {
            let body = rem.subrange(2, 2 + n);
            if valid_utf8(body) {
                Some((decode_utf8(body), rem.skip(2 + n)))
            } else {
                None
            }
        }
    }
}

/// A `u16` written big-endian is read back, and the bytes after it are what
/// follows.
pub proof fn lemma_be_u16_roundtrip(n: u16, rest: Seq<u8>)
    ensures
        be_u16_value(be_u16_bytes(n) + rest) == n,
        (be_u16_bytes(n) + rest).len() == 2 + rest.len(),
        (be_u16_bytes(n) + rest).skip(2) == rest,
{
    let s = be_u16_bytes(n) + rest;
    assert(s.skip(2) =~= rest);
    assert(s[0] == (n >> 8u16) as u8);
    assert(s[1] == n as u8);
    assert(((((n >> 8u16) as u8) as u16) << 8u16 | ((n as u8) as u16)) as u16 == n) by (bit_vector);
}

/// An `i32` written big-endian is read back, and the bytes after it are what
/// follows.
pub proof fn lemma_be_i32_roundtrip(n: i32, rest: Seq<u8>)
    ensures
        be_i32_value(be_i32_bytes(n) + rest) == n,
        (be_i32_bytes(n) + rest).len() == 4 + rest.len(),
        (be_i32_bytes(n) + rest).skip(4) == rest,
{
    let s = be_i32_bytes(n) + rest;
    assert(s.skip(4) =~= rest);
    let u = n as u32;
    assert(s[0] == (u >> 24u32) as u8);
    assert(s[1] == (u >> 16u32) as u8);
    assert(s[2] == (u >> 8u32) as u8);
    assert(s[3] == u as u8);
    assert(be_u32_of((u >> 24u32) as u8, (u >> 16u32) as u8, (u >> 8u32) as u8, u as u8) == u)
        by (bit_vector);
    assert((u as i32) == n) by (bit_vector)
        requires
            u == n as u32,
    ;
}

/// The bytes of a string written by the packet format are read back as that
/// string, where its UTF-8 form is shorter than 65536 bytes.
pub proof fn lemma_str_roundtrip(s: Seq<char>, rest: Seq<u8>)
    requires
        encode_utf8(s).len() < 65536,
    ensures
        read_str_spec(str_bytes(s) + rest) == Some((s, rest)),
{
    let e = encode_utf8(s);
    let all = str_bytes(s) + rest;
    assert(all == be_u16_bytes(e.len() as u16) + (e + rest));
    lemma_be_u16_roundtrip(e.len() as u16, e + rest);
    assert(all.subrange(2, 2 + e.len() as int) =~= e);
    assert(all.skip(2 + e.len() as int) =~= rest);
    encode_utf8_valid_utf8(s);
    encode_utf8_decode_utf8(s);
}

} // verus!
