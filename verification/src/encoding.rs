//! The read and write encoding strategies.
//!
//! A read hands the kernel a zero-initialized scratch buffer together with a
//! length slot preset to the expected byte size; the kernel fills the buffer
//! and may rewrite the slot. A write hands the kernel a payload buffer and a
//! reported length. The builders here produce those pairs, and the decoders
//! turn a filled scratch buffer back into a typed value; their contracts pin
//! the exact bytes and lengths for each of the four wire shapes: a boolean as
//! a native int, a byte, a size as a native int, and an opaque struct.

use vstd::prelude::*;
use crate::bytes::{le4, le4_bytes, sx32, dec_u32_at};

verus! {

/// The byte size of the platform's native C `int`.
pub const NATIVE_INT_LEN: u32 = 4;

/// The byte size of a single-byte option value.
pub const BYTE_LEN: u32 = 1;

/// The byte size of the linger record.
pub const LINGER_LEN: u32 = 8;

/// The byte size of the time-value record.
pub const TIMEVAL_LEN: u32 = 16;

/// The byte size of the peer-credentials record.
pub const UCRED_LEN: u32 = 12;

/// The byte size of an IPv4 membership request.
pub const IP_MREQ_LEN: u32 = 8;

/// The byte size of an IPv6 membership request.
pub const IPV6_MREQ_LEN: u32 = 20;

/// The byte size of the kernel's IPv4 socket-address record.
pub const SOCKADDR_IN_LEN: u32 = 16;

/// The scratch state a read hands to the kernel: the length slot and the
/// buffer the kernel fills. The kernel writes the buffer's bytes in place and
/// may rewrite the length slot; it never changes the buffer's size.
pub struct GetScratch {
    pub len: u32,
    pub buf: Vec<u8>,
}

/// The payload a write hands to the kernel: the bytes and the length the
/// kernel is told. For every shape but the single-byte one the reported
/// length equals the payload's size.
pub struct SetPayload {
    pub len: u32,
    pub buf: Vec<u8>,
}

/// `n` zero bytes.
pub open spec fn zeros(n: nat) -> Seq<u8> {
    Seq::new(n, |i: int| 0u8)
}

/// A scratch buffer of `n` zero bytes with its length slot preset to `n`.
pub fn blank_scratch(n: u32) -> (r: GetScratch)
    ensures
        r.len == n,
        r.buf@ == zeros(n as nat),
{
    let mut buf: Vec<u8> = Vec::new();
    let mut i: u32 = 0;
    while i < n
        invariant
            i <= n,
            buf@ == zeros(i as nat),
        decreases n - i,
    {
        buf.push(0u8);
        proof {
            assert(buf@ =~= zeros(i as nat + 1));
        }
        i = i + 1;
    }
    GetScratch { len: n, buf }
}

/// The boolean a native-int buffer holds: any nonzero value reads as true.
pub open spec fn bool_decoded(b: Seq<u8>) -> bool {
    le4(b) != 0
}

/// Decodes a boolean out of a filled native-int scratch buffer.
pub fn bool_from_bytes(b: &Vec<u8>) -> (r: bool)
    requires
        b@.len() == 4,
    ensures
        r == bool_decoded(b@),
{
    proof {
        assert(b@.subrange(0, 4) =~= b@);
    }
    dec_u32_at(b, 0) != 0
}

/// The byte a single-byte buffer holds.
pub open spec fn byte_decoded(b: Seq<u8>) -> u8 {
    b[0]
}

/// Decodes a byte out of a filled single-byte scratch buffer.
pub fn byte_from_bytes(b: &Vec<u8>) -> (r: u8)
    requires
        b@.len() == 1,
    ensures
        r == byte_decoded(b@),
{
    b[0]
}

/// The size a native-int buffer holds, as the platform's unsigned size type
/// reads it: the signed native int's value reinterpreted, so a negative int
/// becomes a value near the size type's maximum.
pub open spec fn size_decoded(b: Seq<u8>) -> nat {
    if le4(b) < 0x8000_0000 {
        le4(b)
    } else {
        ((le4(b) as int) + (usize::MAX as int) - 0xFFFF_FFFF) as nat
    }
}

/// Decodes a size out of a filled native-int scratch buffer.
pub fn size_from_bytes(b: &Vec<u8>) -> (r: usize)
    requires
        b@.len() == 4,
    ensures
        r as nat == size_decoded(b@),
{
    proof {
        assert(b@.subrange(0, 4) =~= b@);
    }
    let w = dec_u32_at(b, 0);
    if w < 0x8000_0000u32 {
        w as usize
    } else {
        let t: u32 = 0xFFFF_FFFFu32 - w;
        usize::MAX - (t as usize)
    }
}

/// The signed native int a native-int buffer holds.
pub open spec fn i32_decoded(b: Seq<u8>) -> int {
    sx32(le4(b))
}

/// Decodes a signed native int out of a filled native-int scratch buffer.
pub fn i32_from_bytes(b: &Vec<u8>) -> (r: i32)
    requires
        b@.len() == 4,
    ensures
        r as int == i32_decoded(b@),
{
    proof {
        assert(b@.subrange(0, 4) =~= b@);
    }
    crate::bytes::i32_of_u32(dec_u32_at(b, 0))
}

/// The native-int image of a boolean: one for true, zero for false.
pub open spec fn bool_payload_bytes(v: bool) -> Seq<u8> {
    le4_bytes(if v { 1nat } else { 0nat })
}

/// Builds the write payload of a boolean: a native-int buffer holding one or
/// zero, with the native int's size reported.
pub fn bool_payload(v: &bool) -> (r: SetPayload)
    ensures
        r.buf@ == bool_payload_bytes(*v),
        r.len == NATIVE_INT_LEN,
{
    SetPayload { len: NATIVE_INT_LEN, buf: crate::bytes::enc_u32(if *v { 1 } else { 0 }) }
}

/// The single-byte image of a byte value.
pub open spec fn byte_payload_bytes(v: u8) -> Seq<u8> {
    seq![v]
}

/// Builds the write payload of a byte: a one-byte buffer, yet with the native
/// int's size reported. The asymmetry with the read side's one-byte length is
/// deliberate: some kernels read a full native int for these options whatever
/// length is requested, and a one-byte report would break them.
pub fn byte_payload(v: &u8) -> (r: SetPayload)
    ensures
        r.buf@ == byte_payload_bytes(*v),
        r.len == NATIVE_INT_LEN,
{
    let mut buf: Vec<u8> = Vec::new();
    buf.push(*v);
    proof {
        assert(buf@ =~= byte_payload_bytes(*v));
    }
    SetPayload { len: NATIVE_INT_LEN, buf }
}

/// The native-int image of a size value, narrowed to the native int's width:
/// the low thirty-two bits of the value.
pub open spec fn size_payload_bytes(v: usize) -> Seq<u8> {
    le4_bytes((v as nat) % 0x1_0000_0000)
}

/// Builds the write payload of a size: a native-int buffer holding the value
/// narrowed to the native int.
pub fn size_payload(v: &usize) -> (r: SetPayload)
    ensures
        r.buf@ == size_payload_bytes(*v),
        r.len == NATIVE_INT_LEN,
{
    let w64: u64 = (*v) as u64;
    let w: u32 = (w64 % 0x1_0000_0000u64) as u32;
    SetPayload { len: NATIVE_INT_LEN, buf: crate::bytes::enc_u32(w) }
}

/// The native-int image of an unsigned 32-bit value.
pub open spec fn u32_payload_bytes(v: u32) -> Seq<u8> {
    le4_bytes(v as nat)
}

/// Builds the write payload of an unsigned 32-bit value.
pub fn u32_payload(v: &u32) -> (r: SetPayload)
    ensures
        r.buf@ == u32_payload_bytes(*v),
        r.len == NATIVE_INT_LEN,
{
    SetPayload { len: NATIVE_INT_LEN, buf: crate::bytes::enc_u32(*v) }
}

} // verus!
