//! Little-endian byte views of small unsigned values.
//!
//! Every multi-byte field this library emits (quantized PCM samples and WAV
//! header fields) is at most four bytes wide, so the specifications here are
//! written directly over byte positions 0 through 3 instead of a general
//! positional-numeral theory.

use vstd::prelude::*;

verus! {

/// Byte `j` (little-endian, counted from the least significant end) of the
/// nonnegative value `v`.
pub open spec fn le_byte(v: int, j: int) -> u8
    recommends
        0 <= v < 0x1_0000_0000,
        0 <= j < 4,
{
    if j == 0 {
        (v % 256) as u8
    } else if j == 1 {
        ((v / 256) % 256) as u8
    } else if j == 2 {
        ((v / 65536) % 256) as u8
    } else {
        ((v / 16777216) % 256) as u8
    }
}

/// The `n` low bytes of the nonnegative value `v`, least significant first.
pub open spec fn le_bytes_of(v: int, n: int) -> Seq<u8>
    recommends
        0 <= v < 0x1_0000_0000,
        0 <= n <= 4,
{
    Seq::new(n as nat, |j: int| le_byte(v, j))
}

/// The unsigned value that a little-endian byte sequence of length at most
/// four denotes.
pub open spec fn le_value(s: Seq<u8>) -> int
    recommends
        s.len() <= 4,
{
    if s.len() == 0 {
        0
    } else if s.len() == 1 {
        s[0] as int
    } else if s.len() == 2 {
        s[0] + 256 * s[1]
    } else if s.len() == 3 {
        s[0] + 256 * s[1] + 65536 * s[2]
    } else {
        s[0] + 256 * s[1] + 65536 * s[2] + 16777216 * (s[3] as int)
    }
}

/// Half the count of values a byte sequence of length `n` can denote: the
/// threshold at or above which the two's complement reading is negative.
pub open spec fn sign_threshold(n: int) -> int
    recommends
        2 <= n <= 4,
{
    if n == 2 {
        32768
    } else if n == 3 {
        8388608
    } else {
        2147483648
    }
}

/// The signed (two's complement) value that a little-endian byte sequence
/// of length two to four denotes.
pub open spec fn le_signed_value(s: Seq<u8>) -> int
    recommends
        2 <= s.len() <= 4,
{
    if le_value(s) >= sign_threshold(s.len() as int) {
        le_value(s) - 2 * sign_threshold(s.len() as int)
    } else {
        le_value(s)
    }
}

/// The count of values a little-endian byte sequence of length `n` can
/// denote: `256^n`.
pub open spec fn le_modulus(n: int) -> int
    recommends
        2 <= n <= 4,
{
    if n == 2 {
        65536
    } else if n == 3 {
        16777216
    } else {
        4294967296
    }
}

/// Reading back the `n` low bytes of a value below `2^32` yields that value
/// reduced modulo `256^n`.
pub proof fn lemma_le_value_of_bytes(v: int, n: int)
    requires
        0 <= v < 0x1_0000_0000,
        2 <= n <= 4,
    ensures
        le_value(le_bytes_of(v, n)) == v % le_modulus(n),
{
    vstd::arithmetic::div_mod::lemma_breakdown(v, 256, 256);
    assert(v % 65536 == 256 * ((v / 256) % 256) + v % 256);
    if n >= 3 {
        vstd::arithmetic::div_mod::lemma_breakdown(v, 65536, 256);
        assert(v % 16777216 == 65536 * ((v / 65536) % 256) + v % 65536);
    }
    if n == 4 {
        vstd::arithmetic::div_mod::lemma_breakdown(v, 16777216, 256);
        assert(v % 4294967296 == 16777216 * ((v / 16777216) % 256) + v % 16777216);
    }
}

/// A value that fits in `n` bytes survives the encode/decode round trip
/// unchanged.
pub proof fn lemma_le_value_roundtrip(v: int, n: int)
    requires
        0 <= v < le_modulus(n),
        2 <= n <= 4,
    ensures
        le_value(le_bytes_of(v, n)) == v,
{
    lemma_le_value_of_bytes(v, n);
    vstd::arithmetic::div_mod::lemma_small_mod(v as nat, le_modulus(n) as nat);
}

/// Append the `n` low bytes of `v` to `buf`, least significant first.
pub fn push_le_bytes(buf: &mut Vec<u8>, v: u32, n: usize)
    requires
        2 <= n <= 4,
    ensures
        final(buf)@ == old(buf)@ + le_bytes_of(v as int, n as int),
{
    buf.push((v % 256) as u8);
    buf.push(((v / 256) % 256) as u8);
    if n >= 3 {
        buf.push(((v / 65536) % 256) as u8);
    }
    if n >= 4 {
        buf.push(((v / 16777216) % 256) as u8);
    }
    proof {
        assert(buf@ =~= old(buf)@ + le_bytes_of(v as int, n as int));
    }
}

/// Append the four little-endian bytes of `v` to `buf`.
pub fn push_le_u32(buf: &mut Vec<u8>, v: u32)
    ensures
        final(buf)@ == old(buf)@ + le_bytes_of(v as int, 4),
{
    push_le_bytes(buf, v, 4);
}

/// Append the two little-endian bytes of `v` to `buf`.
pub fn push_le_u16(buf: &mut Vec<u8>, v: u16)
    ensures
        final(buf)@ == old(buf)@ + le_bytes_of(v as int, 2),
{
    push_le_bytes(buf, v as u32, 2);
    proof {
        assert(le_bytes_of(v as int, 2) =~= le_bytes_of(v as u32 as int, 2));
    }
}

} // verus!
