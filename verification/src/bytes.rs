//! Little-endian views of the scratch buffers.
//!
//! Every buffer that crosses the kernel boundary is a sequence of bytes; the
//! functions here relate those bytes to the integer values the encodings
//! speak of. `le4`/`le8` read a little-endian value out of a byte sequence,
//! `le4_bytes`/`le8_bytes` are the inverse images, and `wrap32`/`sx32` (and
//! their 64-bit twins) translate between a signed value and the unsigned
//! value that shares its two's-complement bit pattern.

use vstd::prelude::*;
use vstd::arithmetic::div_mod::{lemma_fundamental_div_mod, lemma_div_denominator};

verus! {

/// The unsigned value stored little-endian in the first four bytes.
pub open spec fn le4(b: Seq<u8>) -> nat {
    ((b[0] as int) + 256 * (b[1] as int) + 65536 * (b[2] as int)
        + 16777216 * (b[3] as int)) as nat
}

/// The four little-endian bytes of a value below 2^32.
pub open spec fn le4_bytes(x: nat) -> Seq<u8> {
    seq![
        (x % 256) as u8,
        ((x / 256) % 256) as u8,
        ((x / 65536) % 256) as u8,
        ((x / 16777216) % 256) as u8,
    ]
}

/// The unsigned value stored little-endian in the first eight bytes.
pub open spec fn le8(b: Seq<u8>) -> nat {
    le4(b.subrange(0, 4)) + 0x1_0000_0000 * le4(b.subrange(4, 8))
}

/// The eight little-endian bytes of a value below 2^64.
pub open spec fn le8_bytes(x: nat) -> Seq<u8> {
    le4_bytes(x % 0x1_0000_0000) + le4_bytes(x / 0x1_0000_0000)
}

/// The unsigned value stored little-endian in the first two bytes.
pub open spec fn le2(b: Seq<u8>) -> nat {
    ((b[0] as int) + 256 * (b[1] as int)) as nat
}

/// The unsigned 32-bit value whose bit pattern is the signed value `x`.
pub open spec fn wrap32(x: int) -> nat {
    if x >= 0 {
        x as nat
    } else {
        (x + 0x1_0000_0000) as nat
    }
}

/// The signed value whose 32-bit two's-complement bit pattern is `w`.
pub open spec fn sx32(w: nat) -> int {
    if w < 0x8000_0000 {
        w as int
    } else {
        w - 0x1_0000_0000
    }
}

/// The unsigned 64-bit value whose bit pattern is the signed value `x`.
pub open spec fn wrap64(x: int) -> nat {
    if x >= 0 {
        x as nat
    } else {
        (x + 0x1_0000_0000_0000_0000) as nat
    }
}

/// The signed value whose 64-bit two's-complement bit pattern is `w`.
pub open spec fn sx64(w: nat) -> int {
    if w < 0x8000_0000_0000_0000 {
        w as int
    } else {
        w - 0x1_0000_0000_0000_0000
    }
}

/// A four-byte little-endian image decodes back to the value it encodes.
pub proof fn lemma_le4_round(x: nat)
    requires
        x < 0x1_0000_0000,
    ensures
        le4(le4_bytes(x)) == x,
{
    let q1 = x / 256;
    let q2 = x / 65536;
    let q3 = x / 16777216;
    lemma_fundamental_div_mod(x as int, 256);
    lemma_div_denominator(x as int, 256, 256);
    lemma_fundamental_div_mod(q1 as int, 256);
    lemma_div_denominator(q1 as int, 256, 256);
    lemma_fundamental_div_mod(q2 as int, 256);
    assert(q1 / 256 == q2);
    assert(q2 / 256 == q3);
    assert(q3 < 256) by (nonlinear_arith)
        requires x < 0x1_0000_0000 && q3 == x / 16777216;
    assert(le4(le4_bytes(x)) == x);
}

/// An eight-byte little-endian image decodes back to the value it encodes.
pub proof fn lemma_le8_round(x: nat)
    requires
        x < 0x1_0000_0000_0000_0000,
    ensures
        le8(le8_bytes(x)) == x,
{
    let lo = x % 0x1_0000_0000;
    let hi = x / 0x1_0000_0000;
    lemma_fundamental_div_mod(x as int, 0x1_0000_0000);
    assert(hi < 0x1_0000_0000) by (nonlinear_arith)
        requires x < 0x1_0000_0000_0000_0000 && hi == x / 0x1_0000_0000;
    lemma_le4_round(lo);
    lemma_le4_round(hi);
    assert(le8_bytes(x).subrange(0, 4) =~= le4_bytes(lo));
    assert(le8_bytes(x).subrange(4, 8) =~= le4_bytes(hi));
}

/// Wrapping a signed 32-bit value and sign-extending it back is the identity.
pub proof fn lemma_sx32_wrap32(x: int)
    requires
        -0x8000_0000 <= x < 0x8000_0000,
    ensures
        sx32(wrap32(x)) == x,
{
}

/// Wrapping a signed 64-bit value and sign-extending it back is the identity.
pub proof fn lemma_sx64_wrap64(x: int)
    requires
        -0x8000_0000_0000_0000 <= x < 0x8000_0000_0000_0000,
    ensures
        sx64(wrap64(x)) == x,
{
}

/// Reads the little-endian 32-bit value at `off`.
pub fn dec_u32_at(b: &Vec<u8>, off: usize) -> (r: u32)
    requires
        off + 4 <= b@.len(),
    ensures
        r as nat == le4(b@.subrange(off as int, off as int + 4)),
{
    proof {
        assert(off + 4 <= b.len());
    }
    let r: u32 = (b[off] as u32) + 256 * (b[off + 1] as u32) + 65536 * (b[off + 2] as u32)
        + 16777216 * (b[off + 3] as u32);
    proof {
        let s = b@.subrange(off as int, off as int + 4);
        assert(s[0] == b@[off as int]);
        assert(s[1] == b@[off as int + 1]);
        assert(s[2] == b@[off as int + 2]);
        assert(s[3] == b@[off as int + 3]);
    }
    r
}

/// Appends the four little-endian bytes of `x` to `buf`.
pub fn enc_u32_into(buf: &mut Vec<u8>, x: u32)
    ensures
        final(buf)@ == old(buf)@ + le4_bytes(x as nat),
{
    buf.push((x % 256) as u8);
    buf.push(((x / 256) % 256) as u8);
    buf.push(((x / 65536) % 256) as u8);
    buf.push(((x / 16777216) % 256) as u8);
    proof {
        assert(buf@ =~= old(buf)@ + le4_bytes(x as nat));
    }
}

/// The four little-endian bytes of `x`, as a fresh buffer.
pub fn enc_u32(x: u32) -> (r: Vec<u8>)
    ensures
        r@ == le4_bytes(x as nat),
{
    let mut buf: Vec<u8> = Vec::new();
    enc_u32_into(&mut buf, x);
    proof {
        assert(buf@ =~= le4_bytes(x as nat));
    }
    buf
}

/// Reads the little-endian 64-bit value at `off`.
pub fn dec_u64_at(b: &Vec<u8>, off: usize) -> (r: u64)
    requires
        off + 8 <= b@.len(),
    ensures
        r as nat == le8(b@.subrange(off as int, off as int + 8)),
{
    proof {
        assert(off + 8 <= b.len());
    }
    let lo = dec_u32_at(b, off);
    let hi = dec_u32_at(b, off + 4);
    let r: u64 = (lo as u64) + 0x1_0000_0000u64 * (hi as u64);
    proof {
        let s = b@.subrange(off as int, off as int + 8);
        assert(s.subrange(0, 4) =~= b@.subrange(off as int, off as int + 4));
        assert(s.subrange(4, 8) =~= b@.subrange(off as int + 4, off as int + 8));
    }
    r
}

/// Appends the eight little-endian bytes of `x` to `buf`.
pub fn enc_u64_into(buf: &mut Vec<u8>, x: u64)
    ensures
        final(buf)@ == old(buf)@ + le8_bytes(x as nat),
{
    let lo: u32 = (x % 0x1_0000_0000u64) as u32;
    let hi: u32 = (x / 0x1_0000_0000u64) as u32;
    enc_u32_into(buf, lo);
    enc_u32_into(buf, hi);
    proof {
        assert(buf@ =~= old(buf)@ + le8_bytes(x as nat));
    }
}

/// Reads the little-endian 16-bit value at `off`.
pub fn dec_u16_at(b: &Vec<u8>, off: usize) -> (r: u16)
    requires
        off + 2 <= b@.len(),
    ensures
        r as nat == le2(b@.subrange(off as int, off as int + 2)),
{
    proof {
        assert(off + 2 <= b.len());
    }
    let r: u16 = (b[off] as u16) + 256 * (b[off + 1] as u16);
    proof {
        let s = b@.subrange(off as int, off as int + 2);
        assert(s[0] == b@[off as int]);
        assert(s[1] == b@[off as int + 1]);
    }
    r
}

/// The unsigned 32-bit value with the same bit pattern as `x`.
pub fn u32_of_i32(x: i32) -> (r: u32)
    ensures
        r as nat == wrap32(x as int),
{
    if x >= 0 {
        x as u32
    } else {
        let t: u32 = (-(x + 1)) as u32;
        0xFFFF_FFFFu32 - t
    }
}

/// The signed 32-bit value with the same bit pattern as `w`.
pub fn i32_of_u32(w: u32) -> (r: i32)
    ensures
        r as int == sx32(w as nat),
{
    if w < 0x8000_0000u32 {
        w as i32
    } else {
        let t: u32 = 0xFFFF_FFFFu32 - w;
        -(t as i32) - 1
    }
}

/// The unsigned 64-bit value with the same bit pattern as `x`.
pub fn u64_of_i64(x: i64) -> (r: u64)
    ensures
        r as nat == wrap64(x as int),
{
    if x >= 0 {
        x as u64
    } else {
        let t: u64 = (-(x + 1)) as u64;
        0xFFFF_FFFF_FFFF_FFFFu64 - t
    }
}

/// The signed 64-bit value with the same bit pattern as `w`.
pub fn i64_of_u64(w: u64) -> (r: i64)
    ensures
        r as int == sx64(w as nat),
{
    if w < 0x8000_0000_0000_0000u64 {
        w as i64
    } else {
        let t: u64 = 0xFFFF_FFFF_FFFF_FFFFu64 - w;
        -(t as i64) - 1
    }
}

} // verus!
