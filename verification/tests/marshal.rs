//! The encodings, the generic entry points, and the scenarios a kernel
//! round trip would exercise: the syscall itself is played by handing the
//! write payload back as the read scratch, which is exactly what a kernel
//! that stores the bytes unchanged does.

use sockopt::access::{
    get_outcome, get_request, scratch_intact, set_outcome, set_request, GetOpt,
};
use sockopt::encoding::GetScratch;
use sockopt::error::OsError;
use sockopt::registry::{
    IpAddMembership, IpMulticastTtl, Ipv6AddMembership, Linger, PeerCredentials, RcvBuf,
    ReceiveTimeout, ReuseAddr, SockType, SocketError,
};
use sockopt::values;

fn echo_scratch(opt: &impl GetOpt, bytes: Vec<u8>) -> GetScratch {
    GetScratch { len: opt.expected_len(), buf: bytes }
}

#[test]
fn bool_set_get_round_trip() {
    for v in [true, false] {
        let rq = set_request(&ReuseAddr, &v);
        assert_eq!(rq.level, libc::SOL_SOCKET);
        assert_eq!(rq.number, libc::SO_REUSEADDR);
        assert_eq!(rq.payload.len, 4);
        let back = get_outcome(&ReuseAddr, 0, 0, echo_scratch(&ReuseAddr, rq.payload.buf));
        assert_eq!(back, Ok(v));
    }
}

#[test]
fn bool_payload_bytes_are_native_int() {
    let rq = set_request(&ReuseAddr, &true);
    assert_eq!(rq.payload.buf, vec![1u8, 0, 0, 0]);
    let rq = set_request(&ReuseAddr, &false);
    assert_eq!(rq.payload.buf, vec![0u8, 0, 0, 0]);
}

#[test]
fn bool_decode_any_nonzero_is_true() {
    let s = echo_scratch(&ReuseAddr, vec![0, 0, 1, 0]);
    assert_eq!(get_outcome(&ReuseAddr, 0, 0, s), Ok(true));
    let s = echo_scratch(&ReuseAddr, vec![0, 0, 0, 0]);
    assert_eq!(get_outcome(&ReuseAddr, 0, 0, s), Ok(false));
}

#[test]
fn sized_set_get_round_trip() {
    let n: usize = 8192;
    let rq = set_request(&RcvBuf, &n);
    assert_eq!(rq.payload.buf, vec![0u8, 0x20, 0, 0]);
    assert_eq!(rq.payload.len, 4);
    let back = get_outcome(&RcvBuf, 0, 0, echo_scratch(&RcvBuf, rq.payload.buf));
    assert_eq!(back, Ok(n));
}

#[test]
fn sized_get_sign_extends_negative_native_int() {
    let s = echo_scratch(&RcvBuf, vec![0xFF, 0xFF, 0xFF, 0xFF]);
    assert_eq!(get_outcome(&RcvBuf, 0, 0, s), Ok(usize::MAX));
}

#[test]
fn byte_write_reports_native_int_length() {
    let rq = set_request(&IpMulticastTtl, &20u8);
    assert_eq!(rq.payload.buf, vec![20u8]);
    assert_eq!(rq.payload.len as usize, std::mem::size_of::<libc::c_int>());
}

#[test]
fn byte_set_get_round_trip() {
    let rq = set_request(&IpMulticastTtl, &7u8);
    let back = get_outcome(&IpMulticastTtl, 0, 0, echo_scratch(&IpMulticastTtl, rq.payload.buf));
    assert_eq!(back, Ok(7u8));
}

#[test]
fn linger_struct_round_trip() {
    let l = values::Linger { l_onoff: 1, l_linger: 5 };
    let rq = set_request(&Linger, &l);
    assert_eq!(rq.payload.buf, vec![1u8, 0, 0, 0, 5, 0, 0, 0]);
    assert_eq!(rq.payload.len, 8);
    let back = get_outcome(&Linger, 0, 0, echo_scratch(&Linger, rq.payload.buf));
    let got = back.unwrap();
    assert!(got.l_onoff != 0);
    assert_eq!(got.l_linger, 5);
    assert_eq!(got, l);
}

#[test]
fn linger_negative_fields_round_trip() {
    let l = values::Linger { l_onoff: -1, l_linger: -2 };
    let rq = set_request(&Linger, &l);
    assert_eq!(rq.payload.buf, vec![0xFF, 0xFF, 0xFF, 0xFF, 0xFE, 0xFF, 0xFF, 0xFF]);
    let back = get_outcome(&Linger, 0, 0, echo_scratch(&Linger, rq.payload.buf));
    assert_eq!(back, Ok(l));
}

#[test]
fn timeval_round_trip() {
    let t = values::TimeVal { tv_sec: 3, tv_usec: 250_000 };
    let rq = set_request(&ReceiveTimeout, &t);
    assert_eq!(rq.payload.len, 16);
    assert_eq!(
        rq.payload.buf,
        vec![3u8, 0, 0, 0, 0, 0, 0, 0, 0x90, 0xD0, 0x03, 0, 0, 0, 0, 0]
    );
    let back = get_outcome(&ReceiveTimeout, 0, 0, echo_scratch(&ReceiveTimeout, rq.payload.buf));
    assert_eq!(back, Ok(t));
}

#[test]
fn timeval_negative_seconds_round_trip() {
    let t = values::TimeVal { tv_sec: -1, tv_usec: 0 };
    let rq = set_request(&ReceiveTimeout, &t);
    let back = get_outcome(&ReceiveTimeout, 0, 0, echo_scratch(&ReceiveTimeout, rq.payload.buf));
    assert_eq!(back, Ok(t));
}

#[test]
fn sock_type_datagram_decodes() {
    let s = echo_scratch(&SockType, vec![2, 0, 0, 0]);
    assert_eq!(get_outcome(&SockType, 0, 0, s), Ok(values::SockType::Datagram));
}

#[test]
fn sock_type_stream_decodes() {
    let s = echo_scratch(&SockType, vec![1, 0, 0, 0]);
    assert_eq!(get_outcome(&SockType, 0, 0, s), Ok(values::SockType::Stream));
}

#[test]
fn sock_type_unknown_code_decodes_to_other() {
    let s = echo_scratch(&SockType, vec![99, 0, 0, 0]);
    assert_eq!(get_outcome(&SockType, 0, 0, s), Ok(values::SockType::Other));
}

#[test]
fn peer_credentials_of_both_ends_agree() {
    // The kernel reports the same owning process for both ends of a pair.
    let image = vec![0x92u8, 0x10, 0, 0, 0xE8, 0x03, 0, 0, 0xE8, 0x03, 0, 0];
    let a = get_outcome(&PeerCredentials, 0, 0, echo_scratch(&PeerCredentials, image.clone()))
        .unwrap();
    let b = get_outcome(&PeerCredentials, 0, 0, echo_scratch(&PeerCredentials, image)).unwrap();
    assert_eq!(a, b);
    assert!(a.pid != 0);
    assert_eq!(a.pid, 0x1092);
    assert_eq!(a.uid, 1000);
    assert_eq!(a.gid, 1000);
}

#[test]
fn socket_error_decodes_signed() {
    let s = echo_scratch(&SocketError, vec![111, 0, 0, 0]);
    assert_eq!(get_outcome(&SocketError, 0, 0, s), Ok(111));
    let s = echo_scratch(&SocketError, vec![0xFF, 0xFF, 0xFF, 0xFF]);
    assert_eq!(get_outcome(&SocketError, 0, 0, s), Ok(-1));
}

#[test]
fn get_request_builds_blank_scratch() {
    let rq = get_request(&Linger);
    assert_eq!(rq.level, libc::SOL_SOCKET);
    assert_eq!(rq.number, libc::SO_LINGER);
    assert_eq!(rq.scratch.len, 8);
    assert_eq!(rq.scratch.buf, vec![0u8; 8]);
}

#[test]
fn os_rejection_carries_the_error_code() {
    let s = echo_scratch(&ReuseAddr, vec![0, 0, 0, 0]);
    let r = get_outcome(&ReuseAddr, -1, libc::EINVAL, s);
    assert_eq!(r, Err(OsError { code: libc::EINVAL }));
    let r = set_outcome(-1, libc::ENOPROTOOPT);
    assert_eq!(r, Err(OsError { code: libc::ENOPROTOOPT }));
    assert_eq!(set_outcome(0, 0), Ok(()));
}

#[test]
fn length_rewrite_is_detected() {
    let mut s = echo_scratch(&ReuseAddr, vec![0, 0, 0, 0]);
    assert!(scratch_intact(&ReuseAddr, &s));
    s.len = 8;
    assert!(!scratch_intact(&ReuseAddr, &s));
}

#[test]
fn ip_membership_payload_is_the_struct_image() {
    let m = values::IpMreq { imr_multiaddr: 0x040000E0, imr_interface: 0 };
    let rq = set_request(&IpAddMembership, &m);
    assert_eq!(rq.payload.buf, vec![0xE0u8, 0, 0, 0x04, 0, 0, 0, 0]);
    assert_eq!(rq.payload.len, 8);
}

#[test]
fn ipv6_membership_payload_is_the_struct_image() {
    let mut addr = [0u8; 16];
    addr[0] = 0xFF;
    addr[1] = 0x02;
    addr[15] = 0x01;
    let m = values::Ipv6Mreq { ipv6mr_multiaddr: addr, ipv6mr_interface: 3 };
    let rq = set_request(&Ipv6AddMembership, &m);
    assert_eq!(rq.payload.len, 20);
    assert_eq!(&rq.payload.buf[0..16], &addr);
    assert_eq!(&rq.payload.buf[16..20], &[3u8, 0, 0, 0]);
}

#[test]
fn original_dst_decodes_the_address_record() {
    let mut image = vec![0u8; 16];
    image[0] = 2;
    image[2] = 0x1F;
    image[3] = 0x90;
    image[4] = 127;
    image[7] = 1;
    let r = get_outcome(
        &sockopt::registry::OriginalDst,
        0,
        0,
        echo_scratch(&sockopt::registry::OriginalDst, image),
    )
    .unwrap();
    assert_eq!(r.sin_family as i32, libc::AF_INET);
    // Field values are the kernel's stored representation: the port bytes
    // 0x1F 0x90 read as the in-memory value of a little-endian u16.
    assert_eq!(r.sin_port, 0x901F);
    assert_eq!(r.sin_addr, 0x0100_007F);
}
