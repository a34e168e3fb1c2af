//! The composite value types options carry, and their byte images.
//!
//! The kernel fixes each struct's layout; these types hold the same fields as
//! plain values, and the codecs here relate each value to the exact byte
//! image the kernel reads or writes for it on the 64-bit little-endian Linux
//! targets this crate addresses. A type that is only ever read from the
//! kernel has only a decoder; one that is only ever handed to the kernel has
//! only an encoder.

use vstd::prelude::*;
use crate::bytes::{
    le2, le4, le8, le4_bytes, le8_bytes, wrap32, wrap64, sx32, sx64, dec_u16_at, dec_u32_at,
    dec_u64_at, enc_u32_into, enc_u64_into, u32_of_i32, i32_of_u32, i64_of_u64, u64_of_i64,
};

verus! {

/// Code for a stream socket.
pub const SOCK_STREAM_CODE: i32 = 1;

/// Code for a datagram socket.
pub const SOCK_DGRAM_CODE: i32 = 2;

/// Code for a raw socket.
pub const SOCK_RAW_CODE: i32 = 3;

/// Code for a reliably-delivered-message socket.
pub const SOCK_RDM_CODE: i32 = 4;

/// Code for a sequenced-packet socket.
pub const SOCK_SEQPACKET_CODE: i32 = 5;

/// The linger record: whether closing lingers, and for how many seconds.
#[derive(Clone, Copy, Debug, PartialEq, Eq, Structural)]
pub struct Linger {
    pub l_onoff: i32,
    pub l_linger: i32,
}

/// The time-value record: seconds and microseconds.
#[derive(Clone, Copy, Debug, PartialEq, Eq, Structural)]
pub struct TimeVal {
    pub tv_sec: i64,
    pub tv_usec: i64,
}

/// The peer-credentials record: process, user and group of the peer.
#[derive(Clone, Copy, Debug, PartialEq, Eq, Structural)]
pub struct Ucred {
    pub pid: i32,
    pub uid: u32,
    pub gid: u32,
}

/// An IPv4 multicast-membership request: group address and local interface,
/// each an address value in the byte order the kernel stores it in.
#[derive(Clone, Copy, Debug, PartialEq, Eq, Structural)]
pub struct IpMreq {
    pub imr_multiaddr: u32,
    pub imr_interface: u32,
}

/// An IPv6 multicast-membership request: the group's sixteen address bytes
/// and the local interface index.
#[derive(Clone, Copy, Debug, PartialEq, Eq)]
pub struct Ipv6Mreq {
    pub ipv6mr_multiaddr: [u8; 16],
    pub ipv6mr_interface: u32,
}

/// An IPv4 socket address as the kernel lays it out: family, then the port
/// and address values in the byte order the kernel stores them in. The eight
/// trailing padding bytes of the kernel's record are not represented.
#[derive(Clone, Copy, Debug, PartialEq, Eq, Structural)]
pub struct SockaddrIn {
    pub sin_family: u16,
    pub sin_port: u16,
    pub sin_addr: u32,
}

/// The kind of a socket, as the socket-type option reports it.
/// `Other` stands for a code outside the kernel's published table.
#[derive(Clone, Copy, Debug, PartialEq, Eq, Structural)]
pub enum SockType {
    Stream,
    Datagram,
    Raw,
    Rdm,
    SeqPacket,
    Other,
}

/// The eight-byte image of a linger record.
pub open spec fn linger_bytes(l: Linger) -> Seq<u8> {
    le4_bytes(wrap32(l.l_onoff as int)) + le4_bytes(wrap32(l.l_linger as int))
}

/// The linger record an eight-byte buffer holds.
pub open spec fn linger_decoded(b: Seq<u8>) -> Linger {
    Linger {
        l_onoff: sx32(le4(b.subrange(0, 4))) as i32,
        l_linger: sx32(le4(b.subrange(4, 8))) as i32,
    }
}

/// Encodes a linger record into its byte image.
pub fn enc_linger(l: &Linger) -> (r: Vec<u8>)
    ensures
        r@ == linger_bytes(*l),
{
    let mut buf: Vec<u8> = Vec::new();
    enc_u32_into(&mut buf, u32_of_i32(l.l_onoff));
    enc_u32_into(&mut buf, u32_of_i32(l.l_linger));
    proof {
        assert(buf@ =~= linger_bytes(*l));
    }
    buf
}

/// Decodes a linger record out of its byte image.
pub fn dec_linger(b: &Vec<u8>) -> (r: Linger)
    requires
        b@.len() == 8,
    ensures
        r == linger_decoded(b@),
{
    let onoff = i32_of_u32(dec_u32_at(b, 0));
    let lin = i32_of_u32(dec_u32_at(b, 4));
    Linger { l_onoff: onoff, l_linger: lin }
}

/// The sixteen-byte image of a time value.
pub open spec fn timeval_bytes(t: TimeVal) -> Seq<u8> {
    le8_bytes(wrap64(t.tv_sec as int)) + le8_bytes(wrap64(t.tv_usec as int))
}

/// The time value a sixteen-byte buffer holds.
pub open spec fn timeval_decoded(b: Seq<u8>) -> TimeVal {
    TimeVal {
        tv_sec: sx64(le8(b.subrange(0, 8))) as i64,
        tv_usec: sx64(le8(b.subrange(8, 16))) as i64,
    }
}

/// Encodes a time value into its byte image.
pub fn enc_timeval(t: &TimeVal) -> (r: Vec<u8>)
    ensures
        r@ == timeval_bytes(*t),
{
    let mut buf: Vec<u8> = Vec::new();
    enc_u64_into(&mut buf, u64_of_i64(t.tv_sec));
    enc_u64_into(&mut buf, u64_of_i64(t.tv_usec));
    proof {
        assert(buf@ =~= timeval_bytes(*t));
    }
    buf
}

/// Decodes a time value out of its byte image.
pub fn dec_timeval(b: &Vec<u8>) -> (r: TimeVal)
    requires
        b@.len() == 16,
    ensures
        r == timeval_decoded(b@),
{
    let sec = i64_of_u64(dec_u64_at(b, 0));
    let usec = i64_of_u64(dec_u64_at(b, 8));
    TimeVal { tv_sec: sec, tv_usec: usec }
}

/// The peer-credentials record a twelve-byte buffer holds.
pub open spec fn ucred_decoded(b: Seq<u8>) -> Ucred {
    Ucred {
        pid: sx32(le4(b.subrange(0, 4))) as i32,
        uid: le4(b.subrange(4, 8)) as u32,
        gid: le4(b.subrange(8, 12)) as u32,
    }
}

/// Decodes a peer-credentials record out of its byte image.
pub fn dec_ucred(b: &Vec<u8>) -> (r: Ucred)
    requires
        b@.len() == 12,
    ensures
        r == ucred_decoded(b@),
{
    let pid = i32_of_u32(dec_u32_at(b, 0));
    let uid = dec_u32_at(b, 4);
    let gid = dec_u32_at(b, 8);
    Ucred { pid, uid, gid }
}

/// The eight-byte image of an IPv4 membership request.
pub open spec fn ip_mreq_bytes(m: IpMreq) -> Seq<u8> {
    le4_bytes(m.imr_multiaddr as nat) + le4_bytes(m.imr_interface as nat)
}

/// Encodes an IPv4 membership request into its byte image.
pub fn enc_ip_mreq(m: &IpMreq) -> (r: Vec<u8>)
    ensures
        r@ == ip_mreq_bytes(*m),
{
    let mut buf: Vec<u8> = Vec::new();
    enc_u32_into(&mut buf, m.imr_multiaddr);
    enc_u32_into(&mut buf, m.imr_interface);
    proof {
        assert(buf@ =~= ip_mreq_bytes(*m));
    }
    buf
}

/// The twenty-byte image of an IPv6 membership request.
pub open spec fn ipv6_mreq_bytes(m: Ipv6Mreq) -> Seq<u8> {
    m.ipv6mr_multiaddr@ + le4_bytes(m.ipv6mr_interface as nat)
}

/// Encodes an IPv6 membership request into its byte image.
pub fn enc_ipv6_mreq(m: &Ipv6Mreq) -> (r: Vec<u8>)
    ensures
        r@ == ipv6_mreq_bytes(*m),
{
    let mut buf: Vec<u8> = Vec::new();
    let mut i: usize = 0;
    while i < 16
        invariant
            i <= 16,
            buf@ == m.ipv6mr_multiaddr@.subrange(0, i as int),
        decreases 16 - i,
    {
        buf.push(m.ipv6mr_multiaddr[i]);
        proof {
            assert(buf@ =~= m.ipv6mr_multiaddr@.subrange(0, i as int + 1));
        }
        i = i + 1;
    }
    proof {
        assert(buf@ =~= m.ipv6mr_multiaddr@);
    }
    enc_u32_into(&mut buf, m.ipv6mr_interface);
    buf
}

/// The socket address an IPv4 address record's byte image holds.
pub open spec fn sockaddr_in_decoded(b: Seq<u8>) -> SockaddrIn {
    SockaddrIn {
        sin_family: le2(b.subrange(0, 2)) as u16,
        sin_port: le2(b.subrange(2, 4)) as u16,
        sin_addr: le4(b.subrange(4, 8)) as u32,
    }
}

/// Decodes an IPv4 address record out of its byte image.
pub fn dec_sockaddr_in(b: &Vec<u8>) -> (r: SockaddrIn)
    requires
        b@.len() == 16,
    ensures
        r == sockaddr_in_decoded(b@),
{
    let family = dec_u16_at(b, 0);
    let port = dec_u16_at(b, 2);
    let addr = dec_u32_at(b, 4);
    SockaddrIn { sin_family: family, sin_port: port, sin_addr: addr }
}

/// The socket type a native-int code stands for.
pub open spec fn sock_type_of_code(c: int) -> SockType {
    if c == SOCK_STREAM_CODE as int {
        SockType::Stream
    } else if c == SOCK_DGRAM_CODE as int {
        SockType::Datagram
    } else if c == SOCK_RAW_CODE as int {
        SockType::Raw
    } else if c == SOCK_RDM_CODE as int {
        SockType::Rdm
    } else if c == SOCK_SEQPACKET_CODE as int {
        SockType::SeqPacket
    } else {
        SockType::Other
    }
}

/// The socket type a four-byte buffer reports.
pub open spec fn sock_type_decoded(b: Seq<u8>) -> SockType {
    sock_type_of_code(sx32(le4(b)))
}

/// Decodes a socket type out of its byte image.
pub fn dec_sock_type(b: &Vec<u8>) -> (r: SockType)
    requires
        b@.len() == 4,
    ensures
        r == sock_type_decoded(b@),
{
    let c = i32_of_u32(dec_u32_at(b, 0));
    proof {
        assert(b@.subrange(0, 4) =~= b@);
    }
    if c == SOCK_STREAM_CODE {
        SockType::Stream
    } else if c == SOCK_DGRAM_CODE {
        SockType::Datagram
    } else if c == SOCK_RAW_CODE {
        SockType::Raw
    } else if c == SOCK_RDM_CODE {
        SockType::Rdm
    } else if c == SOCK_SEQPACKET_CODE {
        SockType::SeqPacket
    } else {
        SockType::Other
    }
}

} // verus!
