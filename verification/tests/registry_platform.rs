//! The registry's levels, numbers and buffer sizes against the platform's
//! own definitions.

use sockopt::access::{GetOpt, SockOptId};
use sockopt::encoding::{BYTE_LEN, NATIVE_INT_LEN};
use sockopt::registry::{
    AcceptConn, Broadcast, IpAddMembership, IpDropMembership, IpMulticastLoop, IpMulticastTtl,
    Ipv6AddMembership, Ipv6DropMembership, KeepAlive, Linger, OobInline, OriginalDst,
    PeerCredentials, RcvBuf, RcvBufForce, ReceiveTimeout, ReceiveTimestamp, ReuseAddr, ReusePort,
    SendTimeout, SndBuf, SndBufForce, SockType, SocketError, TcpKeepIdle, TcpNoDelay,
};

#[test]
fn socket_level_options_match_libc() {
    assert_eq!(ReuseAddr.level(), libc::SOL_SOCKET);
    assert_eq!(ReuseAddr.number(), libc::SO_REUSEADDR);
    assert_eq!(ReusePort.level(), libc::SOL_SOCKET);
    assert_eq!(ReusePort.number(), libc::SO_REUSEPORT);
    assert_eq!(Linger.level(), libc::SOL_SOCKET);
    assert_eq!(Linger.number(), libc::SO_LINGER);
    assert_eq!(Broadcast.level(), libc::SOL_SOCKET);
    assert_eq!(Broadcast.number(), libc::SO_BROADCAST);
    assert_eq!(OobInline.level(), libc::SOL_SOCKET);
    assert_eq!(OobInline.number(), libc::SO_OOBINLINE);
    assert_eq!(SocketError.level(), libc::SOL_SOCKET);
    assert_eq!(SocketError.number(), libc::SO_ERROR);
    assert_eq!(KeepAlive.level(), libc::SOL_SOCKET);
    assert_eq!(KeepAlive.number(), libc::SO_KEEPALIVE);
    assert_eq!(PeerCredentials.level(), libc::SOL_SOCKET);
    assert_eq!(PeerCredentials.number(), libc::SO_PEERCRED);
    assert_eq!(RcvBuf.level(), libc::SOL_SOCKET);
    assert_eq!(RcvBuf.number(), libc::SO_RCVBUF);
    assert_eq!(SndBuf.level(), libc::SOL_SOCKET);
    assert_eq!(SndBuf.number(), libc::SO_SNDBUF);
    assert_eq!(RcvBufForce.level(), libc::SOL_SOCKET);
    assert_eq!(RcvBufForce.number(), libc::SO_RCVBUFFORCE);
    assert_eq!(SndBufForce.level(), libc::SOL_SOCKET);
    assert_eq!(SndBufForce.number(), libc::SO_SNDBUFFORCE);
    assert_eq!(SockType.level(), libc::SOL_SOCKET);
    assert_eq!(SockType.number(), libc::SO_TYPE);
    assert_eq!(AcceptConn.level(), libc::SOL_SOCKET);
    assert_eq!(AcceptConn.number(), libc::SO_ACCEPTCONN);
    assert_eq!(ReceiveTimestamp.level(), libc::SOL_SOCKET);
    assert_eq!(ReceiveTimestamp.number(), libc::SO_TIMESTAMP);
    assert_eq!(ReceiveTimeout.level(), libc::SOL_SOCKET);
    assert_eq!(ReceiveTimeout.number(), libc::SO_RCVTIMEO);
    assert_eq!(SendTimeout.level(), libc::SOL_SOCKET);
    assert_eq!(SendTimeout.number(), libc::SO_SNDTIMEO);
}

#[test]
fn ip_and_tcp_level_options_match_libc() {
    assert_eq!(TcpNoDelay.level(), libc::IPPROTO_TCP);
    assert_eq!(TcpNoDelay.number(), libc::TCP_NODELAY);
    assert_eq!(TcpKeepIdle.level(), libc::IPPROTO_TCP);
    assert_eq!(TcpKeepIdle.number(), libc::TCP_KEEPIDLE);
    assert_eq!(IpAddMembership.level(), libc::IPPROTO_IP);
    assert_eq!(IpAddMembership.number(), libc::IP_ADD_MEMBERSHIP);
    assert_eq!(IpDropMembership.level(), libc::IPPROTO_IP);
    assert_eq!(IpDropMembership.number(), libc::IP_DROP_MEMBERSHIP);
    assert_eq!(IpMulticastTtl.level(), libc::IPPROTO_IP);
    assert_eq!(IpMulticastTtl.number(), libc::IP_MULTICAST_TTL);
    assert_eq!(IpMulticastLoop.level(), libc::IPPROTO_IP);
    assert_eq!(IpMulticastLoop.number(), libc::IP_MULTICAST_LOOP);
    assert_eq!(Ipv6AddMembership.level(), libc::IPPROTO_IPV6);
    assert_eq!(Ipv6AddMembership.number(), libc::IPV6_ADD_MEMBERSHIP);
    assert_eq!(Ipv6DropMembership.level(), libc::IPPROTO_IPV6);
    assert_eq!(Ipv6DropMembership.number(), libc::IPV6_DROP_MEMBERSHIP);
    assert_eq!(OriginalDst.level(), libc::SOL_IP);
    assert_eq!(OriginalDst.number(), libc::SO_ORIGINAL_DST);
}

#[test]
fn scratch_sizes_match_platform_layouts() {
    assert_eq!(NATIVE_INT_LEN as usize, std::mem::size_of::<libc::c_int>());
    assert_eq!(BYTE_LEN as usize, 1);
    assert_eq!(ReuseAddr.expected_len() as usize, std::mem::size_of::<libc::c_int>());
    assert_eq!(Linger.expected_len() as usize, std::mem::size_of::<libc::linger>());
    assert_eq!(ReceiveTimeout.expected_len() as usize, std::mem::size_of::<libc::timeval>());
    assert_eq!(SendTimeout.expected_len() as usize, std::mem::size_of::<libc::timeval>());
    assert_eq!(PeerCredentials.expected_len() as usize, std::mem::size_of::<libc::ucred>());
    assert_eq!(OriginalDst.expected_len() as usize, std::mem::size_of::<libc::sockaddr_in>());
    assert_eq!(SockType.expected_len() as usize, std::mem::size_of::<libc::c_int>());
    assert_eq!(IpMulticastTtl.expected_len() as usize, 1);
    assert_eq!(RcvBuf.expected_len() as usize, std::mem::size_of::<libc::c_int>());
    assert_eq!(TcpKeepIdle.expected_len() as usize, std::mem::size_of::<libc::c_int>());
}

#[test]
fn membership_payload_sizes_match_platform_layouts() {
    assert_eq!(
        sockopt::encoding::IP_MREQ_LEN as usize,
        std::mem::size_of::<libc::ip_mreq>()
    );
    assert_eq!(
        sockopt::encoding::IPV6_MREQ_LEN as usize,
        std::mem::size_of::<libc::ipv6_mreq>()
    );
}

#[test]
fn sock_type_codes_match_libc() {
    assert_eq!(sockopt::values::SOCK_STREAM_CODE, libc::SOCK_STREAM);
    assert_eq!(sockopt::values::SOCK_DGRAM_CODE, libc::SOCK_DGRAM);
    assert_eq!(sockopt::values::SOCK_RAW_CODE, libc::SOCK_RAW);
    assert_eq!(sockopt::values::SOCK_RDM_CODE, libc::SOCK_RDM);
    assert_eq!(sockopt::values::SOCK_SEQPACKET_CODE, libc::SOCK_SEQPACKET);
}
