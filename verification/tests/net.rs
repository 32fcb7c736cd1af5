use rusty_win32::error::Win32Error;
use rusty_win32::net::{from_sockaddr, to_sockaddr, AddressFamily, Protocol, SocketAddr, SocketKind};

#[test]
fn to_sockaddr_then_from_sockaddr_round_trips_an_ipv4_address() {
    let addr = SocketAddr::V4 { ip: [127, 0, 0, 1], port: 8080 };
    let raw = to_sockaddr(&addr);
    assert_eq!(raw.len(), 16, "an encoded IPv4 sockaddr should be 16 bytes");
    let decoded = from_sockaddr(raw.bytes()).expect("decoding a just-encoded sockaddr should succeed");
    assert_eq!(decoded, addr);
}

#[test]
fn to_sockaddr_then_from_sockaddr_round_trips_an_ipv6_address() {
    let addr = SocketAddr::V6 {
        ip: [0, 0, 0, 0, 0, 0, 0, 0, 0, 0, 0, 0, 0, 0, 0, 1],
        port: 9090,
        flow_info: 0,
        scope_id: 0,
    };
    let raw = to_sockaddr(&addr);
    assert_eq!(raw.len(), 28, "an encoded IPv6 sockaddr should be 28 bytes");
    let decoded = from_sockaddr(raw.bytes()).expect("decoding a just-encoded sockaddr should succeed");
    assert_eq!(decoded, addr);
}

#[test]
fn to_sockaddr_stores_the_port_in_network_byte_order() {
    let addr = SocketAddr::V4 { ip: [10, 0, 0, 1], port: 0x1234 };
    let raw = to_sockaddr(&addr);
    let port_bytes = &raw.bytes()[2..4];
    assert_eq!(port_bytes, &[0x12, 0x34], "sin_port should be big-endian (network byte order)");
}

#[test]
fn from_sockaddr_fails_for_an_unrecognized_address_family() {
    let bytes = [0u8; 16];
    let err = from_sockaddr(&bytes).expect_err("from_sockaddr should fail for an unrecognized address family");
    assert_eq!(err, Win32Error::ERROR_INVALID_PARAMETER());
}

#[test]
fn socket_enums_carry_the_winsock_values() {
    assert_eq!(AddressFamily::Inet.raw(), 2);
    assert_eq!(AddressFamily::Inet6.raw(), 23);
    assert_eq!(SocketKind::Stream.raw(), 1);
    assert_eq!(SocketKind::Dgram.raw(), 2);
    assert_eq!(Protocol::Tcp.raw(), 6);
    assert_eq!(Protocol::Udp.raw(), 17);
}

#[test]
fn ipv6_fields_are_laid_out_as_sockaddr_in6() {
    let addr = SocketAddr::V6 {
        ip: [0xfe, 0x80, 0, 0, 0, 0, 0, 0, 0, 0, 0, 0, 0, 0, 0, 7],
        port: 443,
        flow_info: 0x0102_0304,
        scope_id: 0x0A0B_0C0D,
    };
    let raw = to_sockaddr(&addr);
    let b = raw.bytes();
    assert_eq!(&b[0..2], &[23, 0]);
    assert_eq!(&b[2..4], &[0x01, 0xBB]);
    assert_eq!(&b[4..8], &[0x04, 0x03, 0x02, 0x01]);
    assert_eq!(&b[8..10], &[0xfe, 0x80]);
    assert_eq!(&b[24..28], &[0x0D, 0x0C, 0x0B, 0x0A]);
    assert_eq!(from_sockaddr(b), Ok(addr));
}

#[test]
fn ipv4_encoding_is_zero_padded_in_its_storage() {
    let raw = to_sockaddr(&SocketAddr::V4 { ip: [192, 168, 1, 2], port: 80 });
    assert_eq!(raw.bytes(), &[2, 0, 0, 80, 192, 168, 1, 2, 0, 0, 0, 0, 0, 0, 0, 0]);
    assert!(raw.storage()[16..].iter().all(|&b| b == 0));
}

#[test]
fn short_buffers_hold_no_address() {
    assert_eq!(from_sockaddr(&[2]), Err(Win32Error::ERROR_INVALID_PARAMETER()));
    assert_eq!(from_sockaddr(&[2, 0, 0, 80, 1, 2, 3, 4]), Err(Win32Error::ERROR_INVALID_PARAMETER()));
    let v6_short = [23u8; 27];
    assert_eq!(from_sockaddr(&v6_short), Err(Win32Error::ERROR_INVALID_PARAMETER()));
    let mut longer = vec![2u8, 0, 0x1F, 0x90, 8, 8, 4, 4];
    longer.resize(20, 0xAA);
    assert_eq!(from_sockaddr(&longer), Ok(SocketAddr::V4 { ip: [8, 8, 4, 4], port: 8080 }));
}
