//! Laws the registry's encodings obey.
//!
//! A set followed by a get of the same option meets the kernel in between:
//! the write carries a payload down, the kernel stores it, and the read gets
//! the stored bytes back. What this crate can promise — and proves here — is
//! the crate's own half of that round trip: for each read-write option,
//! decoding the very bytes the write encoding produced yields the value that
//! was set. Whether the kernel stores the bytes unchanged (it rounds buffer
//! sizes, for one) is the kernel's side and out of reach.

use vstd::prelude::*;
use vstd::arithmetic::div_mod::lemma_small_mod;
use crate::bytes::{
    le4, le4_bytes, wrap32, wrap64, lemma_le4_round, lemma_le8_round, lemma_sx32_wrap32,
    lemma_sx64_wrap64,
};
use crate::encoding::{
    bool_payload_bytes, byte_payload_bytes, size_payload_bytes, u32_payload_bytes,
    NATIVE_INT_LEN, BYTE_LEN, LINGER_LEN, TIMEVAL_LEN, IP_MREQ_LEN, IPV6_MREQ_LEN,
};
use crate::values::{linger_bytes, linger_decoded, timeval_bytes, timeval_decoded};
use crate::access::{GetOpt, SetOpt};
use crate::registry::{
    ReuseAddr, ReusePort, TcpNoDelay, Linger, IpMulticastTtl, IpMulticastLoop, ReceiveTimeout,
    SendTimeout, Broadcast, OobInline, KeepAlive, TcpKeepIdle, RcvBuf, SndBuf, ReceiveTimestamp,
};

verus! {

/// A boolean's native-int image decodes back to the boolean.
pub proof fn lemma_bool_wire_round_trip(v: bool)
    ensures
        crate::encoding::bool_decoded(bool_payload_bytes(v)) == v,
{
    lemma_le4_round(if v { 1nat } else { 0nat });
}

/// A byte's single-byte image decodes back to the byte.
pub proof fn lemma_byte_wire_round_trip(v: u8)
    ensures
        crate::encoding::byte_decoded(byte_payload_bytes(v)) == v,
{
}

/// A size's native-int image decodes back to the size, for every size the
/// signed native int can carry.
pub proof fn lemma_size_wire_round_trip(v: usize)
    requires
        v < 0x8000_0000,
    ensures
        crate::encoding::size_decoded(size_payload_bytes(v)) == v as nat,
{
    lemma_small_mod(v as nat, 0x1_0000_0000nat);
    lemma_le4_round(v as nat);
}

/// An unsigned 32-bit value's native-int image decodes back to the value.
pub proof fn lemma_u32_wire_round_trip(v: u32)
    ensures
        le4(u32_payload_bytes(v)) == v as nat,
{
    lemma_le4_round(v as nat);
}

/// A linger record's byte image decodes back to the record, field for field.
pub proof fn lemma_linger_wire_round_trip(l: crate::values::Linger)
    ensures
        linger_decoded(linger_bytes(l)) == l,
{
    let b = linger_bytes(l);
    lemma_le4_round(wrap32(l.l_onoff as int));
    lemma_le4_round(wrap32(l.l_linger as int));
    lemma_sx32_wrap32(l.l_onoff as int);
    lemma_sx32_wrap32(l.l_linger as int);
    assert(b.subrange(0, 4) =~= le4_bytes(wrap32(l.l_onoff as int)));
    assert(b.subrange(4, 8) =~= le4_bytes(wrap32(l.l_linger as int)));
}

/// A time value's byte image decodes back to the value, field for field.
#[verifier::rlimit(50)]
pub proof fn lemma_timeval_wire_round_trip(t: crate::values::TimeVal)
    ensures
        timeval_decoded(timeval_bytes(t)) == t,
{
    let ws = wrap64(t.tv_sec as int);
    let wu = wrap64(t.tv_usec as int);
    let bs = crate::bytes::le8_bytes(ws);
    let bu = crate::bytes::le8_bytes(wu);
    let b = timeval_bytes(t);
    assert(bs.len() == 8);
    assert(bu.len() == 8);
    lemma_le8_round(ws);
    lemma_le8_round(wu);
    assert(b.subrange(0, 8) =~= bs);
    assert(b.subrange(8, 16) =~= bu);
    lemma_sx64_wrap64(t.tv_sec as int);
    lemma_sx64_wrap64(t.tv_usec as int);
    assert(timeval_decoded(b).tv_sec == t.tv_sec);
    assert(timeval_decoded(b).tv_usec == t.tv_usec);
}

/// Set-then-get round trip of the reuse-address flag.
pub proof fn lemma_set_get_reuse_addr(v: bool)
    ensures
        (ReuseAddr).decode_spec((ReuseAddr).payload_spec(v)) == v,
{
    lemma_bool_wire_round_trip(v);
}

/// Set-then-get round trip of the reuse-port flag.
pub proof fn lemma_set_get_reuse_port(v: bool)
    ensures
        (ReusePort).decode_spec((ReusePort).payload_spec(v)) == v,
{
    lemma_bool_wire_round_trip(v);
}

/// Set-then-get round trip of the TCP no-delay flag.
pub proof fn lemma_set_get_tcp_no_delay(v: bool)
    ensures
        (TcpNoDelay).decode_spec((TcpNoDelay).payload_spec(v)) == v,
{
    lemma_bool_wire_round_trip(v);
}

/// Set-then-get round trip of the multicast loopback flag.
pub proof fn lemma_set_get_ip_multicast_loop(v: bool)
    ensures
        (IpMulticastLoop).decode_spec((IpMulticastLoop).payload_spec(v)) == v,
{
    lemma_bool_wire_round_trip(v);
}

/// Set-then-get round trip of the broadcast flag.
pub proof fn lemma_set_get_broadcast(v: bool)
    ensures
        (Broadcast).decode_spec((Broadcast).payload_spec(v)) == v,
{
    lemma_bool_wire_round_trip(v);
}

/// Set-then-get round trip of the out-of-band-inline flag.
pub proof fn lemma_set_get_oob_inline(v: bool)
    ensures
        (OobInline).decode_spec((OobInline).payload_spec(v)) == v,
{
    lemma_bool_wire_round_trip(v);
}

/// Set-then-get round trip of the keep-alive flag.
pub proof fn lemma_set_get_keep_alive(v: bool)
    ensures
        (KeepAlive).decode_spec((KeepAlive).payload_spec(v)) == v,
{
    lemma_bool_wire_round_trip(v);
}

/// Set-then-get round trip of the receive-timestamp flag.
pub proof fn lemma_set_get_receive_timestamp(v: bool)
    ensures
        (ReceiveTimestamp).decode_spec((ReceiveTimestamp).payload_spec(v)) == v,
{
    lemma_bool_wire_round_trip(v);
}

/// Set-then-get round trip of the multicast time-to-live byte.
pub proof fn lemma_set_get_ip_multicast_ttl(v: u8)
    ensures
        (IpMulticastTtl).decode_spec((IpMulticastTtl).payload_spec(v)) == v,
{
    lemma_byte_wire_round_trip(v);
}

/// Set-then-get round trip of the TCP keep-alive idle time.
pub proof fn lemma_set_get_tcp_keep_idle(v: u32)
    ensures
        (TcpKeepIdle).decode_spec((TcpKeepIdle).payload_spec(v)) == v,
{
    lemma_u32_wire_round_trip(v);
}

/// Set-then-get round trip of the receive-buffer size, for every size the
/// signed native int can carry; a larger size is narrowed by the write
/// encoding and cannot come back unchanged.
pub proof fn lemma_set_get_rcv_buf(v: usize)
    requires
        v < 0x8000_0000,
    ensures
        (RcvBuf).decode_spec((RcvBuf).payload_spec(v)) == v,
{
    lemma_size_wire_round_trip(v);
}

/// Set-then-get round trip of the send-buffer size, with the same bound as
/// the receive side.
pub proof fn lemma_set_get_snd_buf(v: usize)
    requires
        v < 0x8000_0000,
    ensures
        (SndBuf).decode_spec((SndBuf).payload_spec(v)) == v,
{
    lemma_size_wire_round_trip(v);
}

/// Set-then-get round trip of the linger record: an exact struct round trip,
/// since the encoding is an identity byte copy.
pub proof fn lemma_set_get_linger(l: crate::values::Linger)
    ensures
        (Linger).decode_spec((Linger).payload_spec(l)) == l,
{
    lemma_linger_wire_round_trip(l);
}

/// Set-then-get round trip of the receive timeout.
pub proof fn lemma_set_get_receive_timeout(t: crate::values::TimeVal)
    ensures
        (ReceiveTimeout).decode_spec((ReceiveTimeout).payload_spec(t)) == t,
{
    lemma_timeval_wire_round_trip(t);
}

/// Set-then-get round trip of the send timeout.
pub proof fn lemma_set_get_send_timeout(t: crate::values::TimeVal)
    ensures
        (SendTimeout).decode_spec((SendTimeout).payload_spec(t)) == t,
{
    lemma_timeval_wire_round_trip(t);
}

/// Length accounting of the write payloads: every shape's payload is exactly
/// as long as the length reported to the kernel — except the single-byte
/// shape, whose payload is one byte while the native int's size is reported,
/// a deliberate asymmetry kept for kernels that read a full int there.
pub proof fn lemma_payload_length_accounting(
    v: bool,
    n: usize,
    w: u32,
    l: crate::values::Linger,
    t: crate::values::TimeVal,
    m: crate::values::IpMreq,
    m6: crate::values::Ipv6Mreq,
    y: u8,
)
    ensures
        bool_payload_bytes(v).len() == NATIVE_INT_LEN as nat,
        size_payload_bytes(n).len() == NATIVE_INT_LEN as nat,
        u32_payload_bytes(w).len() == NATIVE_INT_LEN as nat,
        linger_bytes(l).len() == LINGER_LEN as nat,
        timeval_bytes(t).len() == TIMEVAL_LEN as nat,
        crate::values::ip_mreq_bytes(m).len() == IP_MREQ_LEN as nat,
        crate::values::ipv6_mreq_bytes(m6).len() == IPV6_MREQ_LEN as nat,
        byte_payload_bytes(y).len() == BYTE_LEN as nat,
        (IpMulticastTtl).reported_len_spec() == NATIVE_INT_LEN as nat,
{
}

} // verus!
