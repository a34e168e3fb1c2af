//! The option registry.
//!
//! One zero-size marker type per distinct option, bound by `SockOptId` to its
//! option-level and option-number, and by `GetOpt` and/or `SetOpt` to the
//! encoding its value type rides on. The numbers are those of the Linux
//! family this crate targets; an option another platform family would gate
//! out (or that resolves to other numbers there) has no identifier here, so
//! asking for it cannot compile. A read-only option implements no `SetOpt`
//! and a write-only option no `GetOpt`, so a call the capability does not
//! allow cannot compile either.

use vstd::prelude::*;
use crate::access::{SockOptId, GetOpt, SetOpt};
use crate::encoding::{
    GetScratch, SetPayload, blank_scratch, bool_decoded, bool_from_bytes, bool_payload,
    bool_payload_bytes, byte_decoded, byte_from_bytes, byte_payload, byte_payload_bytes,
    size_decoded, size_from_bytes, size_payload, size_payload_bytes, u32_payload,
    u32_payload_bytes, i32_decoded, i32_from_bytes, NATIVE_INT_LEN, BYTE_LEN, LINGER_LEN,
    TIMEVAL_LEN, UCRED_LEN, IP_MREQ_LEN, IPV6_MREQ_LEN, SOCKADDR_IN_LEN,
};
use crate::bytes::le4;

verus! {

/// The generic socket option-level.
pub const SOL_SOCKET: i32 = 1;

/// The IP option-level under its socket-level alias.
pub const SOL_IP: i32 = 0;

/// The IP protocol option-level.
pub const IPPROTO_IP: i32 = 0;

/// The TCP protocol option-level.
pub const IPPROTO_TCP: i32 = 6;

/// The IPv6 protocol option-level.
pub const IPPROTO_IPV6: i32 = 41;

/// Option-number of the reuse-address flag.
pub const SO_REUSEADDR: i32 = 2;

/// Option-number of the socket-type report.
pub const SO_TYPE: i32 = 3;

/// Option-number of the last-error report.
pub const SO_ERROR: i32 = 4;

/// Option-number of the broadcast flag.
pub const SO_BROADCAST: i32 = 6;

/// Option-number of the send-buffer size.
pub const SO_SNDBUF: i32 = 7;

/// Option-number of the receive-buffer size.
pub const SO_RCVBUF: i32 = 8;

/// Option-number of the keep-alive flag.
pub const SO_KEEPALIVE: i32 = 9;

/// Option-number of the out-of-band-inline flag.
pub const SO_OOBINLINE: i32 = 10;

/// Option-number of the linger record.
pub const SO_LINGER: i32 = 13;

/// Option-number of the reuse-port flag.
pub const SO_REUSEPORT: i32 = 15;

/// Option-number of the peer-credentials report.
pub const SO_PEERCRED: i32 = 17;

/// Option-number of the receive timeout.
pub const SO_RCVTIMEO: i32 = 20;

/// Option-number of the send timeout.
pub const SO_SNDTIMEO: i32 = 21;

/// Option-number of the receive-timestamp flag.
pub const SO_TIMESTAMP: i32 = 29;

/// Option-number of the is-listening report.
pub const SO_ACCEPTCONN: i32 = 30;

/// Option-number of the forced send-buffer size.
pub const SO_SNDBUFFORCE: i32 = 32;

/// Option-number of the forced receive-buffer size.
pub const SO_RCVBUFFORCE: i32 = 33;

/// Option-number of the original-destination report.
pub const SO_ORIGINAL_DST: i32 = 80;

/// Option-number of the TCP no-delay flag.
pub const TCP_NODELAY: i32 = 1;

/// Option-number of the TCP keep-alive idle time.
pub const TCP_KEEPIDLE: i32 = 4;

/// Option-number of the multicast time-to-live byte.
pub const IP_MULTICAST_TTL: i32 = 33;

/// Option-number of the multicast loopback flag.
pub const IP_MULTICAST_LOOP: i32 = 34;

/// Option-number of the IPv4 multicast join.
pub const IP_ADD_MEMBERSHIP: i32 = 35;

/// Option-number of the IPv4 multicast leave.
pub const IP_DROP_MEMBERSHIP: i32 = 36;

/// Option-number of the IPv6 multicast join.
pub const IPV6_ADD_MEMBERSHIP: i32 = 20;

/// Option-number of the IPv6 multicast leave.
pub const IPV6_DROP_MEMBERSHIP: i32 = 21;

/// Reuse-address flag; boolean, read-write.
#[derive(Clone, Copy, Debug)]
pub struct ReuseAddr;

/// Reuse-port flag; boolean, read-write.
#[derive(Clone, Copy, Debug)]
pub struct ReusePort;

/// TCP no-delay flag; boolean, read-write.
#[derive(Clone, Copy, Debug)]
pub struct TcpNoDelay;

/// Linger record; struct, read-write.
#[derive(Clone, Copy, Debug)]
pub struct Linger;

/// IPv4 multicast join; struct, write-only.
#[derive(Clone, Copy, Debug)]
pub struct IpAddMembership;

/// IPv4 multicast leave; struct, write-only.
#[derive(Clone, Copy, Debug)]
pub struct IpDropMembership;

/// IPv6 multicast join; struct, write-only.
#[derive(Clone, Copy, Debug)]
pub struct Ipv6AddMembership;

/// IPv6 multicast leave; struct, write-only.
#[derive(Clone, Copy, Debug)]
pub struct Ipv6DropMembership;

/// Multicast time-to-live; byte, read-write.
#[derive(Clone, Copy, Debug)]
pub struct IpMulticastTtl;

/// Multicast loopback flag; boolean, read-write.
#[derive(Clone, Copy, Debug)]
pub struct IpMulticastLoop;

/// Receive timeout; time-value struct, read-write.
#[derive(Clone, Copy, Debug)]
pub struct ReceiveTimeout;

/// Send timeout; time-value struct, read-write.
#[derive(Clone, Copy, Debug)]
pub struct SendTimeout;

/// Broadcast flag; boolean, read-write.
#[derive(Clone, Copy, Debug)]
pub struct Broadcast;

/// Out-of-band-inline flag; boolean, read-write.
#[derive(Clone, Copy, Debug)]
pub struct OobInline;

/// Last socket error; signed native int, read-only.
#[derive(Clone, Copy, Debug)]
pub struct SocketError;

/// Keep-alive flag; boolean, read-write.
#[derive(Clone, Copy, Debug)]
pub struct KeepAlive;

/// Peer credentials; struct, read-only.
#[derive(Clone, Copy, Debug)]
pub struct PeerCredentials;

/// TCP keep-alive idle time; unsigned 32-bit, read-write.
#[derive(Clone, Copy, Debug)]
pub struct TcpKeepIdle;

/// Receive-buffer size; size, read-write.
#[derive(Clone, Copy, Debug)]
pub struct RcvBuf;

/// Send-buffer size; size, read-write.
#[derive(Clone, Copy, Debug)]
pub struct SndBuf;

/// Forced receive-buffer size; size, write-only.
#[derive(Clone, Copy, Debug)]
pub struct RcvBufForce;

/// Forced send-buffer size; size, write-only.
#[derive(Clone, Copy, Debug)]
pub struct SndBufForce;

/// Socket type; enumerated, read-only.
#[derive(Clone, Copy, Debug)]
pub struct SockType;

/// Is-listening report; boolean, read-only.
#[derive(Clone, Copy, Debug)]
pub struct AcceptConn;

/// Original destination before redirection; address struct, read-only.
#[derive(Clone, Copy, Debug)]
pub struct OriginalDst;

/// Receive-timestamp flag; boolean, read-write.
#[derive(Clone, Copy, Debug)]
pub struct ReceiveTimestamp;

impl SockOptId for ReuseAddr {
    open spec fn level_spec(&self) -> int {
        SOL_SOCKET as int
    }

    open spec fn number_spec(&self) -> int {
        SO_REUSEADDR as int
    }

    fn level(&self) -> i32 {
        SOL_SOCKET
    }

    fn number(&self) -> i32 {
        SO_REUSEADDR
    }
}

impl GetOpt for ReuseAddr {
    type Val = bool;

    open spec fn scratch_len(&self) -> nat {
        NATIVE_INT_LEN as nat
    }

    open spec fn decode_spec(&self, b: Seq<u8>) -> bool {
        bool_decoded(b)
    }

    fn expected_len(&self) -> u32 {
        NATIVE_INT_LEN
    }

    fn scratch(&self) -> GetScratch {
        blank_scratch(NATIVE_INT_LEN)
    }

    fn decode(&self, s: GetScratch) -> bool {
        bool_from_bytes(&s.buf)
    }
}

impl SetOpt for ReuseAddr {
    type Val = bool;

    open spec fn payload_spec(&self, v: bool) -> Seq<u8> {
        bool_payload_bytes(v)
    }

    open spec fn reported_len_spec(&self) -> nat {
        NATIVE_INT_LEN as nat
    }

    fn payload(&self, v: &bool) -> SetPayload {
        bool_payload(v)
    }
}

impl SockOptId for ReusePort {
    open spec fn level_spec(&self) -> int {
        SOL_SOCKET as int
    }

    open spec fn number_spec(&self) -> int {
        SO_REUSEPORT as int
    }

    fn level(&self) -> i32 {
        SOL_SOCKET
    }

    fn number(&self) -> i32 {
        SO_REUSEPORT
    }
}

impl GetOpt for ReusePort {
    type Val = bool;

    open spec fn scratch_len(&self) -> nat {
        NATIVE_INT_LEN as nat
    }

    open spec fn decode_spec(&self, b: Seq<u8>) -> bool {
        bool_decoded(b)
    }

    fn expected_len(&self) -> u32 {
        NATIVE_INT_LEN
    }

    fn scratch(&self) -> GetScratch {
        blank_scratch(NATIVE_INT_LEN)
    }

    fn decode(&self, s: GetScratch) -> bool {
        bool_from_bytes(&s.buf)
    }
}

impl SetOpt for ReusePort {
    type Val = bool;

    open spec fn payload_spec(&self, v: bool) -> Seq<u8> {
        bool_payload_bytes(v)
    }

    open spec fn reported_len_spec(&self) -> nat {
        NATIVE_INT_LEN as nat
    }

    fn payload(&self, v: &bool) -> SetPayload {
        bool_payload(v)
    }
}

impl SockOptId for TcpNoDelay {
    open spec fn level_spec(&self) -> int {
        IPPROTO_TCP as int
    }

    open spec fn number_spec(&self) -> int {
        TCP_NODELAY as int
    }

    fn level(&self) -> i32 {
        IPPROTO_TCP
    }

    fn number(&self) -> i32 {
        TCP_NODELAY
    }
}

impl GetOpt for TcpNoDelay {
    type Val = bool;

    open spec fn scratch_len(&self) -> nat {
        NATIVE_INT_LEN as nat
    }

    open spec fn decode_spec(&self, b: Seq<u8>) -> bool {
        bool_decoded(b)
    }

    fn expected_len(&self) -> u32 {
        NATIVE_INT_LEN
    }

    fn scratch(&self) -> GetScratch {
        blank_scratch(NATIVE_INT_LEN)
    }

    fn decode(&self, s: GetScratch) -> bool {
        bool_from_bytes(&s.buf)
    }
}

impl SetOpt for TcpNoDelay {
    type Val = bool;

    open spec fn payload_spec(&self, v: bool) -> Seq<u8> {
        bool_payload_bytes(v)
    }

    open spec fn reported_len_spec(&self) -> nat {
        NATIVE_INT_LEN as nat
    }

    fn payload(&self, v: &bool) -> SetPayload {
        bool_payload(v)
    }
}

impl SockOptId for Linger {
    open spec fn level_spec(&self) -> int {
        SOL_SOCKET as int
    }

    open spec fn number_spec(&self) -> int {
        SO_LINGER as int
    }

    fn level(&self) -> i32 {
        SOL_SOCKET
    }

    fn number(&self) -> i32 {
        SO_LINGER
    }
}

impl GetOpt for Linger {
    type Val = crate::values::Linger;

    open spec fn scratch_len(&self) -> nat {
        LINGER_LEN as nat
    }

    open spec fn decode_spec(&self, b: Seq<u8>) -> crate::values::Linger {
        crate::values::linger_decoded(b)
    }

    fn expected_len(&self) -> u32 {
        LINGER_LEN
    }

    fn scratch(&self) -> GetScratch {
        blank_scratch(LINGER_LEN)
    }

    fn decode(&self, s: GetScratch) -> crate::values::Linger {
        crate::values::dec_linger(&s.buf)
    }
}

impl SetOpt for Linger {
    type Val = crate::values::Linger;

    open spec fn payload_spec(&self, v: crate::values::Linger) -> Seq<u8> {
        crate::values::linger_bytes(v)
    }

    open spec fn reported_len_spec(&self) -> nat {
        LINGER_LEN as nat
    }

    fn payload(&self, v: &crate::values::Linger) -> SetPayload {
        SetPayload { len: LINGER_LEN, buf: crate::values::enc_linger(v) }
    }
}

impl SockOptId for IpAddMembership {
    open spec fn level_spec(&self) -> int {
        IPPROTO_IP as int
    }

    open spec fn number_spec(&self) -> int {
        IP_ADD_MEMBERSHIP as int
    }

    fn level(&self) -> i32 {
        IPPROTO_IP
    }

    fn number(&self) -> i32 {
        IP_ADD_MEMBERSHIP
    }
}

impl SetOpt for IpAddMembership {
    type Val = crate::values::IpMreq;

    open spec fn payload_spec(&self, v: crate::values::IpMreq) -> Seq<u8> {
        crate::values::ip_mreq_bytes(v)
    }

    open spec fn reported_len_spec(&self) -> nat {
        IP_MREQ_LEN as nat
    }

    fn payload(&self, v: &crate::values::IpMreq) -> SetPayload {
        SetPayload { len: IP_MREQ_LEN, buf: crate::values::enc_ip_mreq(v) }
    }
}

impl SockOptId for IpDropMembership {
    open spec fn level_spec(&self) -> int {
        IPPROTO_IP as int
    }

    open spec fn number_spec(&self) -> int {
        IP_DROP_MEMBERSHIP as int
    }

    fn level(&self) -> i32 {
        IPPROTO_IP
    }

    fn number(&self) -> i32 {
        IP_DROP_MEMBERSHIP
    }
}

impl SetOpt for IpDropMembership {
    type Val = crate::values::IpMreq;

    open spec fn payload_spec(&self, v: crate::values::IpMreq) -> Seq<u8> {
        crate::values::ip_mreq_bytes(v)
    }

    open spec fn reported_len_spec(&self) -> nat {
        IP_MREQ_LEN as nat
    }

    fn payload(&self, v: &crate::values::IpMreq) -> SetPayload {
        SetPayload { len: IP_MREQ_LEN, buf: crate::values::enc_ip_mreq(v) }
    }
}

impl SockOptId for Ipv6AddMembership {
    open spec fn level_spec(&self) -> int {
        IPPROTO_IPV6 as int
    }

    open spec fn number_spec(&self) -> int {
        IPV6_ADD_MEMBERSHIP as int
    }

    fn level(&self) -> i32 {
        IPPROTO_IPV6
    }

    fn number(&self) -> i32 {
        IPV6_ADD_MEMBERSHIP
    }
}

impl SetOpt for Ipv6AddMembership {
    type Val = crate::values::Ipv6Mreq;

    open spec fn payload_spec(&self, v: crate::values::Ipv6Mreq) -> Seq<u8> {
        crate::values::ipv6_mreq_bytes(v)
    }

    open spec fn reported_len_spec(&self) -> nat {
        IPV6_MREQ_LEN as nat
    }

    fn payload(&self, v: &crate::values::Ipv6Mreq) -> SetPayload {
        SetPayload { len: IPV6_MREQ_LEN, buf: crate::values::enc_ipv6_mreq(v) }
    }
}

impl SockOptId for Ipv6DropMembership {
    open spec fn level_spec(&self) -> int {
        IPPROTO_IPV6 as int
    }

    open spec fn number_spec(&self) -> int {
        IPV6_DROP_MEMBERSHIP as int
    }

    fn level(&self) -> i32 {
        IPPROTO_IPV6
    }

    fn number(&self) -> i32 {
        IPV6_DROP_MEMBERSHIP
    }
}

impl SetOpt for Ipv6DropMembership {
    type Val = crate::values::Ipv6Mreq;

    open spec fn payload_spec(&self, v: crate::values::Ipv6Mreq) -> Seq<u8> {
        crate::values::ipv6_mreq_bytes(v)
    }

    open spec fn reported_len_spec(&self) -> nat {
        IPV6_MREQ_LEN as nat
    }

    fn payload(&self, v: &crate::values::Ipv6Mreq) -> SetPayload {
        SetPayload { len: IPV6_MREQ_LEN, buf: crate::values::enc_ipv6_mreq(v) }
    }
}

impl SockOptId for IpMulticastTtl {
    open spec fn level_spec(&self) -> int {
        IPPROTO_IP as int
    }

    open spec fn number_spec(&self) -> int {
        IP_MULTICAST_TTL as int
    }

    fn level(&self) -> i32 {
        IPPROTO_IP
    }

    fn number(&self) -> i32 {
        IP_MULTICAST_TTL
    }
}

impl GetOpt for IpMulticastTtl {
    type Val = u8;

    open spec fn scratch_len(&self) -> nat {
        BYTE_LEN as nat
    }

    open spec fn decode_spec(&self, b: Seq<u8>) -> u8 {
        byte_decoded(b)
    }

    fn expected_len(&self) -> u32 {
        BYTE_LEN
    }

    fn scratch(&self) -> GetScratch {
        blank_scratch(BYTE_LEN)
    }

    fn decode(&self, s: GetScratch) -> u8 {
        byte_from_bytes(&s.buf)
    }
}

impl SetOpt for IpMulticastTtl {
    type Val = u8;

    open spec fn payload_spec(&self, v: u8) -> Seq<u8> {
        byte_payload_bytes(v)
    }

    open spec fn reported_len_spec(&self) -> nat {
        NATIVE_INT_LEN as nat
    }

    fn payload(&self, v: &u8) -> SetPayload {
        byte_payload(v)
    }
}

impl SockOptId for IpMulticastLoop {
    open spec fn level_spec(&self) -> int {
        IPPROTO_IP as int
    }

    open spec fn number_spec(&self) -> int {
        IP_MULTICAST_LOOP as int
    }

    fn level(&self) -> i32 {
        IPPROTO_IP
    }

    fn number(&self) -> i32 {
        IP_MULTICAST_LOOP
    }
}

impl GetOpt for IpMulticastLoop {
    type Val = bool;

    open spec fn scratch_len(&self) -> nat {
        NATIVE_INT_LEN as nat
    }

    open spec fn decode_spec(&self, b: Seq<u8>) -> bool {
        bool_decoded(b)
    }

    fn expected_len(&self) -> u32 {
        NATIVE_INT_LEN
    }

    fn scratch(&self) -> GetScratch {
        blank_scratch(NATIVE_INT_LEN)
    }

    fn decode(&self, s: GetScratch) -> bool {
        bool_from_bytes(&s.buf)
    }
}

impl SetOpt for IpMulticastLoop {
    type Val = bool;

    open spec fn payload_spec(&self, v: bool) -> Seq<u8> {
        bool_payload_bytes(v)
    }

    open spec fn reported_len_spec(&self) -> nat {
        NATIVE_INT_LEN as nat
    }

    fn payload(&self, v: &bool) -> SetPayload {
        bool_payload(v)
    }
}

impl SockOptId for ReceiveTimeout {
    open spec fn level_spec(&self) -> int {
        SOL_SOCKET as int
    }

    open spec fn number_spec(&self) -> int {
        SO_RCVTIMEO as int
    }

    fn level(&self) -> i32 {
        SOL_SOCKET
    }

    fn number(&self) -> i32 {
        SO_RCVTIMEO
    }
}

impl GetOpt for ReceiveTimeout {
    type Val = crate::values::TimeVal;

    open spec fn scratch_len(&self) -> nat {
        TIMEVAL_LEN as nat
    }

    open spec fn decode_spec(&self, b: Seq<u8>) -> crate::values::TimeVal {
        crate::values::timeval_decoded(b)
    }

    fn expected_len(&self) -> u32 {
        TIMEVAL_LEN
    }

    fn scratch(&self) -> GetScratch {
        blank_scratch(TIMEVAL_LEN)
    }

    fn decode(&self, s: GetScratch) -> crate::values::TimeVal {
        crate::values::dec_timeval(&s.buf)
    }
}

impl SetOpt for ReceiveTimeout {
    type Val = crate::values::TimeVal;

    open spec fn payload_spec(&self, v: crate::values::TimeVal) -> Seq<u8> {
        crate::values::timeval_bytes(v)
    }

    open spec fn reported_len_spec(&self) -> nat {
        TIMEVAL_LEN as nat
    }

    fn payload(&self, v: &crate::values::TimeVal) -> SetPayload {
        SetPayload { len: TIMEVAL_LEN, buf: crate::values::enc_timeval(v) }
    }
}

impl SockOptId for SendTimeout {
    open spec fn level_spec(&self) -> int {
        SOL_SOCKET as int
    }

    open spec fn number_spec(&self) -> int {
        SO_SNDTIMEO as int
    }

    fn level(&self) -> i32 {
        SOL_SOCKET
    }

    fn number(&self) -> i32 {
        SO_SNDTIMEO
    }
}

impl GetOpt for SendTimeout {
    type Val = crate::values::TimeVal;

    open spec fn scratch_len(&self) -> nat {
        TIMEVAL_LEN as nat
    }

    open spec fn decode_spec(&self, b: Seq<u8>) -> crate::values::TimeVal {
        crate::values::timeval_decoded(b)
    }

    fn expected_len(&self) -> u32 {
        TIMEVAL_LEN
    }

    fn scratch(&self) -> GetScratch {
        blank_scratch(TIMEVAL_LEN)
    }

    fn decode(&self, s: GetScratch) -> crate::values::TimeVal {
        crate::values::dec_timeval(&s.buf)
    }
}

impl SetOpt for SendTimeout {
    type Val = crate::values::TimeVal;

    open spec fn payload_spec(&self, v: crate::values::TimeVal) -> Seq<u8> {
        crate::values::timeval_bytes(v)
    }

    open spec fn reported_len_spec(&self) -> nat {
        TIMEVAL_LEN as nat
    }

    fn payload(&self, v: &crate::values::TimeVal) -> SetPayload {
        SetPayload { len: TIMEVAL_LEN, buf: crate::values::enc_timeval(v) }
    }
}

impl SockOptId for Broadcast {
    open spec fn level_spec(&self) -> int {
        SOL_SOCKET as int
    }

    open spec fn number_spec(&self) -> int {
        SO_BROADCAST as int
    }

    fn level(&self) -> i32 {
        SOL_SOCKET
    }

    fn number(&self) -> i32 {
        SO_BROADCAST
    }
}

impl GetOpt for Broadcast {
    type Val = bool;

    open spec fn scratch_len(&self) -> nat {
        NATIVE_INT_LEN as nat
    }

    open spec fn decode_spec(&self, b: Seq<u8>) -> bool {
        bool_decoded(b)
    }

    fn expected_len(&self) -> u32 {
        NATIVE_INT_LEN
    }

    fn scratch(&self) -> GetScratch {
        blank_scratch(NATIVE_INT_LEN)
    }

    fn decode(&self, s: GetScratch) -> bool {
        bool_from_bytes(&s.buf)
    }
}

impl SetOpt for Broadcast {
    type Val = bool;

    open spec fn payload_spec(&self, v: bool) -> Seq<u8> {
        bool_payload_bytes(v)
    }

    open spec fn reported_len_spec(&self) -> nat {
        NATIVE_INT_LEN as nat
    }

    fn payload(&self, v: &bool) -> SetPayload {
        bool_payload(v)
    }
}

impl SockOptId for OobInline {
    open spec fn level_spec(&self) -> int {
        SOL_SOCKET as int
    }

    open spec fn number_spec(&self) -> int {
        SO_OOBINLINE as int
    }

    fn level(&self) -> i32 {
        SOL_SOCKET
    }

    fn number(&self) -> i32 {
        SO_OOBINLINE
    }
}

impl GetOpt for OobInline {
    type Val = bool;

    open spec fn scratch_len(&self) -> nat {
        NATIVE_INT_LEN as nat
    }

    open spec fn decode_spec(&self, b: Seq<u8>) -> bool {
        bool_decoded(b)
    }

    fn expected_len(&self) -> u32 {
        NATIVE_INT_LEN
    }

    fn scratch(&self) -> GetScratch {
        blank_scratch(NATIVE_INT_LEN)
    }

    fn decode(&self, s: GetScratch) -> bool {
        bool_from_bytes(&s.buf)
    }
}

impl SetOpt for OobInline {
    type Val = bool;

    open spec fn payload_spec(&self, v: bool) -> Seq<u8> {
        bool_payload_bytes(v)
    }

    open spec fn reported_len_spec(&self) -> nat {
        NATIVE_INT_LEN as nat
    }

    fn payload(&self, v: &bool) -> SetPayload {
        bool_payload(v)
    }
}

impl SockOptId for SocketError {
    open spec fn level_spec(&self) -> int {
        SOL_SOCKET as int
    }

    open spec fn number_spec(&self) -> int {
        SO_ERROR as int
    }

    fn level(&self) -> i32 {
        SOL_SOCKET
    }

    fn number(&self) -> i32 {
        SO_ERROR
    }
}

impl GetOpt for SocketError {
    type Val = i32;

    open spec fn scratch_len(&self) -> nat {
        NATIVE_INT_LEN as nat
    }

    open spec fn decode_spec(&self, b: Seq<u8>) -> i32 {
        i32_decoded(b) as i32
    }

    fn expected_len(&self) -> u32 {
        NATIVE_INT_LEN
    }

    fn scratch(&self) -> GetScratch {
        blank_scratch(NATIVE_INT_LEN)
    }

    fn decode(&self, s: GetScratch) -> i32 {
        i32_from_bytes(&s.buf)
    }
}

impl SockOptId for KeepAlive {
    open spec fn level_spec(&self) -> int {
        SOL_SOCKET as int
    }

    open spec fn number_spec(&self) -> int {
        SO_KEEPALIVE as int
    }

    fn level(&self) -> i32 {
        SOL_SOCKET
    }

    fn number(&self) -> i32 {
        SO_KEEPALIVE
    }
}

impl GetOpt for KeepAlive {
    type Val = bool;

    open spec fn scratch_len(&self) -> nat {
        NATIVE_INT_LEN as nat
    }

    open spec fn decode_spec(&self, b: Seq<u8>) -> bool {
        bool_decoded(b)
    }

    fn expected_len(&self) -> u32 {
        NATIVE_INT_LEN
    }

    fn scratch(&self) -> GetScratch {
        blank_scratch(NATIVE_INT_LEN)
    }

    fn decode(&self, s: GetScratch) -> bool {
        bool_from_bytes(&s.buf)
    }
}

impl SetOpt for KeepAlive {
    type Val = bool;

    open spec fn payload_spec(&self, v: bool) -> Seq<u8> {
        bool_payload_bytes(v)
    }

    open spec fn reported_len_spec(&self) -> nat {
        NATIVE_INT_LEN as nat
    }

    fn payload(&self, v: &bool) -> SetPayload {
        bool_payload(v)
    }
}

impl SockOptId for PeerCredentials {
    open spec fn level_spec(&self) -> int {
        SOL_SOCKET as int
    }

    open spec fn number_spec(&self) -> int {
        SO_PEERCRED as int
    }

    fn level(&self) -> i32 {
        SOL_SOCKET
    }

    fn number(&self) -> i32 {
        SO_PEERCRED
    }
}

impl GetOpt for PeerCredentials {
    type Val = crate::values::Ucred;

    open spec fn scratch_len(&self) -> nat {
        UCRED_LEN as nat
    }

    open spec fn decode_spec(&self, b: Seq<u8>) -> crate::values::Ucred {
        crate::values::ucred_decoded(b)
    }

    fn expected_len(&self) -> u32 {
        UCRED_LEN
    }

    fn scratch(&self) -> GetScratch {
        blank_scratch(UCRED_LEN)
    }

    fn decode(&self, s: GetScratch) -> crate::values::Ucred {
        crate::values::dec_ucred(&s.buf)
    }
}

impl SockOptId for TcpKeepIdle {
    open spec fn level_spec(&self) -> int {
        IPPROTO_TCP as int
    }

    open spec fn number_spec(&self) -> int {
        TCP_KEEPIDLE as int
    }

    fn level(&self) -> i32 {
        IPPROTO_TCP
    }

    fn number(&self) -> i32 {
        TCP_KEEPIDLE
    }
}

impl GetOpt for TcpKeepIdle {
    type Val = u32;

    open spec fn scratch_len(&self) -> nat {
        NATIVE_INT_LEN as nat
    }

    open spec fn decode_spec(&self, b: Seq<u8>) -> u32 {
        le4(b) as u32
    }

    fn expected_len(&self) -> u32 {
        NATIVE_INT_LEN
    }

    fn scratch(&self) -> GetScratch {
        blank_scratch(NATIVE_INT_LEN)
    }

    fn decode(&self, s: GetScratch) -> u32 {
        proof {
            assert(s.buf@.subrange(0, 4) =~= s.buf@);
        }
        let r = crate::bytes::dec_u32_at(&s.buf, 0);
        proof {
            assert(r == le4(s.buf@) as u32);
        }
        r
    }
}

impl SetOpt for TcpKeepIdle {
    type Val = u32;

    open spec fn payload_spec(&self, v: u32) -> Seq<u8> {
        u32_payload_bytes(v)
    }

    open spec fn reported_len_spec(&self) -> nat {
        NATIVE_INT_LEN as nat
    }

    fn payload(&self, v: &u32) -> SetPayload {
        u32_payload(v)
    }
}

impl SockOptId for RcvBuf {
    open spec fn level_spec(&self) -> int {
        SOL_SOCKET as int
    }

    open spec fn number_spec(&self) -> int {
        SO_RCVBUF as int
    }

    fn level(&self) -> i32 {
        SOL_SOCKET
    }

    fn number(&self) -> i32 {
        SO_RCVBUF
    }
}

impl GetOpt for RcvBuf {
    type Val = usize;

    open spec fn scratch_len(&self) -> nat {
        NATIVE_INT_LEN as nat
    }

    open spec fn decode_spec(&self, b: Seq<u8>) -> usize {
        size_decoded(b) as usize
    }

    fn expected_len(&self) -> u32 {
        NATIVE_INT_LEN
    }

    fn scratch(&self) -> GetScratch {
        blank_scratch(NATIVE_INT_LEN)
    }

    fn decode(&self, s: GetScratch) -> usize {
        size_from_bytes(&s.buf)
    }
}

impl SetOpt for RcvBuf {
    type Val = usize;

    open spec fn payload_spec(&self, v: usize) -> Seq<u8> {
        size_payload_bytes(v)
    }

    open spec fn reported_len_spec(&self) -> nat {
        NATIVE_INT_LEN as nat
    }

    fn payload(&self, v: &usize) -> SetPayload {
        size_payload(v)
    }
}

impl SockOptId for SndBuf {
    open spec fn level_spec(&self) -> int {
        SOL_SOCKET as int
    }

    open spec fn number_spec(&self) -> int {
        SO_SNDBUF as int
    }

    fn level(&self) -> i32 {
        SOL_SOCKET
    }

    fn number(&self) -> i32 {
        SO_SNDBUF
    }
}

impl GetOpt for SndBuf {
    type Val = usize;

    open spec fn scratch_len(&self) -> nat {
        NATIVE_INT_LEN as nat
    }

    open spec fn decode_spec(&self, b: Seq<u8>) -> usize {
        size_decoded(b) as usize
    }

    fn expected_len(&self) -> u32 {
        NATIVE_INT_LEN
    }

    fn scratch(&self) -> GetScratch {
        blank_scratch(NATIVE_INT_LEN)
    }

    fn decode(&self, s: GetScratch) -> usize {
        size_from_bytes(&s.buf)
    }
}

impl SetOpt for SndBuf {
    type Val = usize;

    open spec fn payload_spec(&self, v: usize) -> Seq<u8> {
        size_payload_bytes(v)
    }

    open spec fn reported_len_spec(&self) -> nat {
        NATIVE_INT_LEN as nat
    }

    fn payload(&self, v: &usize) -> SetPayload {
        size_payload(v)
    }
}

impl SockOptId for RcvBufForce {
    open spec fn level_spec(&self) -> int {
        SOL_SOCKET as int
    }

    open spec fn number_spec(&self) -> int {
        SO_RCVBUFFORCE as int
    }

    fn level(&self) -> i32 {
        SOL_SOCKET
    }

    fn number(&self) -> i32 {
        SO_RCVBUFFORCE
    }
}

impl SetOpt for RcvBufForce {
    type Val = usize;

    open spec fn payload_spec(&self, v: usize) -> Seq<u8> {
        size_payload_bytes(v)
    }

    open spec fn reported_len_spec(&self) -> nat {
        NATIVE_INT_LEN as nat
    }

    fn payload(&self, v: &usize) -> SetPayload {
        size_payload(v)
    }
}

impl SockOptId for SndBufForce {
    open spec fn level_spec(&self) -> int {
        SOL_SOCKET as int
    }

    open spec fn number_spec(&self) -> int {
        SO_SNDBUFFORCE as int
    }

    fn level(&self) -> i32 {
        SOL_SOCKET
    }

    fn number(&self) -> i32 {
        SO_SNDBUFFORCE
    }
}

impl SetOpt for SndBufForce {
    type Val = usize;

    open spec fn payload_spec(&self, v: usize) -> Seq<u8> {
        size_payload_bytes(v)
    }

    open spec fn reported_len_spec(&self) -> nat {
        NATIVE_INT_LEN as nat
    }

    fn payload(&self, v: &usize) -> SetPayload {
        size_payload(v)
    }
}

impl SockOptId for SockType {
    open spec fn level_spec(&self) -> int {
        SOL_SOCKET as int
    }

    open spec fn number_spec(&self) -> int {
        SO_TYPE as int
    }

    fn level(&self) -> i32 {
        SOL_SOCKET
    }

    fn number(&self) -> i32 {
        SO_TYPE
    }
}

impl GetOpt for SockType {
    type Val = crate::values::SockType;

    open spec fn scratch_len(&self) -> nat {
        NATIVE_INT_LEN as nat
    }

    open spec fn decode_spec(&self, b: Seq<u8>) -> crate::values::SockType {
        crate::values::sock_type_decoded(b)
    }

    fn expected_len(&self) -> u32 {
        NATIVE_INT_LEN
    }

    fn scratch(&self) -> GetScratch {
        blank_scratch(NATIVE_INT_LEN)
    }

    fn decode(&self, s: GetScratch) -> crate::values::SockType {
        crate::values::dec_sock_type(&s.buf)
    }
}

impl SockOptId for AcceptConn {
    open spec fn level_spec(&self) -> int {
        SOL_SOCKET as int
    }

    open spec fn number_spec(&self) -> int {
        SO_ACCEPTCONN as int
    }

    fn level(&self) -> i32 {
        SOL_SOCKET
    }

    fn number(&self) -> i32 {
        SO_ACCEPTCONN
    }
}

impl GetOpt for AcceptConn {
    type Val = bool;

    open spec fn scratch_len(&self) -> nat {
        NATIVE_INT_LEN as nat
    }

    open spec fn decode_spec(&self, b: Seq<u8>) -> bool {
        bool_decoded(b)
    }

    fn expected_len(&self) -> u32 {
        NATIVE_INT_LEN
    }

    fn scratch(&self) -> GetScratch {
        blank_scratch(NATIVE_INT_LEN)
    }

    fn decode(&self, s: GetScratch) -> bool {
        bool_from_bytes(&s.buf)
    }
}

impl SockOptId for OriginalDst {
    open spec fn level_spec(&self) -> int {
        SOL_IP as int
    }

    open spec fn number_spec(&self) -> int {
        SO_ORIGINAL_DST as int
    }

    fn level(&self) -> i32 {
        SOL_IP
    }

    fn number(&self) -> i32 {
        SO_ORIGINAL_DST
    }
}

impl GetOpt for OriginalDst {
    type Val = crate::values::SockaddrIn;

    open spec fn scratch_len(&self) -> nat {
        SOCKADDR_IN_LEN as nat
    }

    open spec fn decode_spec(&self, b: Seq<u8>) -> crate::values::SockaddrIn {
        crate::values::sockaddr_in_decoded(b)
    }

    fn expected_len(&self) -> u32 {
        SOCKADDR_IN_LEN
    }

    fn scratch(&self) -> GetScratch {
        blank_scratch(SOCKADDR_IN_LEN)
    }

    fn decode(&self, s: GetScratch) -> crate::values::SockaddrIn {
        crate::values::dec_sockaddr_in(&s.buf)
    }
}

impl SockOptId for ReceiveTimestamp {
    open spec fn level_spec(&self) -> int {
        SOL_SOCKET as int
    }

    open spec fn number_spec(&self) -> int {
        SO_TIMESTAMP as int
    }

    fn level(&self) -> i32 {
        SOL_SOCKET
    }

    fn number(&self) -> i32 {
        SO_TIMESTAMP
    }
}

impl GetOpt for ReceiveTimestamp {
    type Val = bool;

    open spec fn scratch_len(&self) -> nat {
        NATIVE_INT_LEN as nat
    }

    open spec fn decode_spec(&self, b: Seq<u8>) -> bool {
        bool_decoded(b)
    }

    fn expected_len(&self) -> u32 {
        NATIVE_INT_LEN
    }

    fn scratch(&self) -> GetScratch {
        blank_scratch(NATIVE_INT_LEN)
    }

    fn decode(&self, s: GetScratch) -> bool {
        bool_from_bytes(&s.buf)
    }
}

impl SetOpt for ReceiveTimestamp {
    type Val = bool;

    open spec fn payload_spec(&self, v: bool) -> Seq<u8> {
        bool_payload_bytes(v)
    }

    open spec fn reported_len_spec(&self) -> nat {
        NATIVE_INT_LEN as nat
    }

    fn payload(&self, v: &bool) -> SetPayload {
        bool_payload(v)
    }
}

} // verus!
