//! Winsock values: address families, socket kinds, protocols, and the
//! `sockaddr_in`/`sockaddr_in6` wire encoding of a [`SocketAddr`].

use vstd::prelude::*;

use crate::error::Win32Error;

verus! {

/// `AF_INET`/`AF_INET6`.
#[derive(Debug, Clone, Copy, PartialEq, Eq, Structural)]
pub enum AddressFamily {
    Inet,
    Inet6,
}

impl AddressFamily {
    /// The `AF_*` value `socket` takes.
    pub fn raw(self) -> (v: i32)
        ensures
            v == (match self {
                AddressFamily::Inet => 2i32,
                AddressFamily::Inet6 => 23i32,
            }),
    {
        match self {
            AddressFamily::Inet => 2,
            AddressFamily::Inet6 => 23,
        }
    }
}

/// `SOCK_STREAM`/`SOCK_DGRAM`.
#[derive(Debug, Clone, Copy, PartialEq, Eq, Structural)]
pub enum SocketKind {
    Stream,
    Dgram,
}

impl SocketKind {
    /// The `SOCK_*` value `socket` takes.
    pub fn raw(self) -> (v: i32)
        ensures
            v == (match self {
                SocketKind::Stream => 1i32,
                SocketKind::Dgram => 2i32,
            }),
    {
        match self {
            SocketKind::Stream => 1,
            SocketKind::Dgram => 2,
        }
    }
}

/// `IPPROTO_TCP`/`IPPROTO_UDP`.
#[derive(Debug, Clone, Copy, PartialEq, Eq, Structural)]
pub enum Protocol {
    Tcp,
    Udp,
}

impl Protocol {
    /// The `IPPROTO_*` value `socket` takes.
    pub fn raw(self) -> (v: i32)
        ensures
            v == (match self {
                Protocol::Tcp => 6i32,
                Protocol::Udp => 17i32,
            }),
    {
        match self {
            Protocol::Tcp => 6,
            Protocol::Udp => 17,
        }
    }
}

/// A local or peer socket address. `ip` octets are in address order;
/// `flow_info`/`scope_id` are carried as they are, never interpreted.
#[allow(inconsistent_fields)]
#[derive(Debug, Clone, Copy, PartialEq, Eq)]
pub enum SocketAddr {
    V4 { ip: [u8; 4], port: u16 },
    V6 { ip: [u8; 16], port: u16, flow_info: u32, scope_id: u32 },
}

/// `v` as two bytes, most significant first (network byte order).
pub open spec fn u16_be_bytes(v: u16) -> Seq<u8> {
    seq![(v / 256) as u8, (v % 256) as u8]
}

/// `v` as two bytes, least significant first.
pub open spec fn u16_le_bytes(v: u16) -> Seq<u8> {
    seq![(v % 256) as u8, (v / 256) as u8]
}

/// `v` as four bytes, least significant first.
pub open spec fn u32_le_bytes(v: u32) -> Seq<u8> {
    seq![
        (v % 256) as u8,
        ((v / 0x100) % 256) as u8,
        ((v / 0x1_0000) % 256) as u8,
        (v / 0x100_0000) as u8,
    ]
}

/// The `sockaddr_in` (16 bytes) or `sockaddr_in6` (28 bytes) encoding of
/// `a`: family (native order), port (network order), then the address
/// fields.
pub open spec fn sockaddr_encoding(a: SocketAddr) -> Seq<u8> {
    match a {
        SocketAddr::V4 { ip, port } => u16_le_bytes(2) + u16_be_bytes(port) + ip@ + Seq::new(
            8,
            |i: int| 0u8,
        ),
        SocketAddr::V6 { ip, port, flow_info, scope_id } => u16_le_bytes(23) + u16_be_bytes(port)
            + u32_le_bytes(flow_info) + ip@ + u32_le_bytes(scope_id),
    }
}

/// The big-endian `u16` at byte offset `i`.
pub open spec fn be_u16_at(b: Seq<u8>, i: int) -> u16 {
    (256 * b[i] + b[i + 1]) as u16
}

/// The address a `sockaddr` buffer holds: `AF_INET` with at least 16 bytes,
/// or `AF_INET6` with at least 28; anything else holds none.
pub open spec fn decode_sockaddr(b: Seq<u8>) -> Option<SocketAddr> {
    if b.len() < 2 {
        None
    } else {
        let family = crate::wide::le_u16_at(b, 0);
        if family == 2 && b.len() >= 16 {
            Some(SocketAddr::V4 { ip: [b[4], b[5], b[6], b[7]], port: be_u16_at(b, 2) })
        } else if family == 23 && b.len() >= 28 {
            Some(
                SocketAddr::V6 {
                    ip: [
                        b[8],
                        b[9],
                        b[10],
                        b[11],
                        b[12],
                        b[13],
                        b[14],
                        b[15],
                        b[16],
                        b[17],
                        b[18],
                        b[19],
                        b[20],
                        b[21],
                        b[22],
                        b[23],
                    ],
                    port: be_u16_at(b, 2),
                    flow_info: crate::bytes::le_u32_at(b, 4),
                    scope_id: crate::bytes::le_u32_at(b, 24),
                },
            )
        } else {
            None
        }
    }
}

/// A `sockaddr`-shaped buffer big enough for either encoding, with the
/// length of the encoding it holds (the `namelen` a Winsock call takes).
pub struct RawSockAddr {
    bytes: [u8; 28],
    len: i32,
}

impl View for RawSockAddr {
    type V = Seq<u8>;

    /// The encoded bytes (the first `len` of the buffer).
    closed spec fn view(&self) -> Seq<u8> {
        self.bytes@.take(self.len as int)
    }
}

impl RawSockAddr {
    /// The encoding is one of the two lengths and the rest of the buffer
    /// is zero.
    #[verifier::type_invariant]
    closed spec fn well_formed(self) -> bool {
        &&& self.len == 16 || self.len == 28
        &&& forall|i: int| self.len <= i < 28 ==> self.bytes@[i] == 0
    }

    /// The encoded bytes.
    pub fn bytes(&self) -> (b: &[u8])
        ensures
            b@ == self@,
    {
        proof {
            use_type_invariant(self);
        }
        crate::wide::slice_prefix(self.bytes.as_slice(), self.len as usize)
    }

    /// The encoding's length in bytes.
    pub fn len(&self) -> (n: i32)
        ensures
            n == self@.len(),
            n == 16 || n == 28,
    {
        proof {
            use_type_invariant(self);
        }
        self.len
    }

    /// The whole 28-byte buffer (the encoding, zero-padded), for a call
    /// that wants a pointer to `sockaddr` storage.
    pub fn storage(&self) -> (b: &[u8; 28])
        ensures
            b@.take(self@.len() as int) == self@,
            forall|i: int| self@.len() <= i < 28 ==> b@[i] == 0,
    {
        proof {
            use_type_invariant(self);
        }
        &self.bytes
    }
}

/// Encodes `addr` as its `sockaddr_in`/`sockaddr_in6` wire form.
pub fn to_sockaddr(addr: &SocketAddr) -> (raw: RawSockAddr)
    ensures
        raw@ == sockaddr_encoding(*addr),
{
    match *addr {
        SocketAddr::V4 { ip, port } => {
            let hi = (port / 256) as u8;
            let lo = (port % 256) as u8;
            let bytes: [u8; 28] = [
                2,
                0,
                hi,
                lo,
                ip[0],
                ip[1],
                ip[2],
                ip[3],
                0,
                0,
                0,
                0,
                0,
                0,
                0,
                0,
                0,
                0,
                0,
                0,
                0,
                0,
                0,
                0,
                0,
                0,
                0,
                0,
            ];
            let raw = RawSockAddr { bytes, len: 16 };
            assert(raw@ =~= sockaddr_encoding(*addr));
            raw
        },
        SocketAddr::V6 { ip, port, flow_info, scope_id } => {
            let hi = (port / 256) as u8;
            let lo = (port % 256) as u8;
            let f = flow_info;
            let s = scope_id;
            let bytes: [u8; 28] = [
                23,
                0,
                hi,
                lo,
                (f % 256) as u8,
                ((f / 0x100) % 256) as u8,
                ((f / 0x1_0000) % 256) as u8,
                (f / 0x100_0000) as u8,
                ip[0],
                ip[1],
                ip[2],
                ip[3],
                ip[4],
                ip[5],
                ip[6],
                ip[7],
                ip[8],
                ip[9],
                ip[10],
                ip[11],
                ip[12],
                ip[13],
                ip[14],
                ip[15],
                (s % 256) as u8,
                ((s / 0x100) % 256) as u8,
                ((s / 0x1_0000) % 256) as u8,
                (s / 0x100_0000) as u8,
            ];
            let raw = RawSockAddr { bytes, len: 28 };
            assert(raw@ =~= sockaddr_encoding(*addr));
            raw
        },
    }
}

/// Decodes a `sockaddr_in`/`sockaddr_in6` buffer back into a
/// [`SocketAddr`] — the reverse of [`to_sockaddr`]. An unrecognized family,
/// or a buffer too short for its family, is `ERROR_INVALID_PARAMETER`.
pub fn from_sockaddr(b: &[u8]) -> (r: Result<SocketAddr, Win32Error>)
    ensures
        match r {
            Ok(a) => decode_sockaddr(b@) == Some(a),
            Err(e) => decode_sockaddr(b@) is None && e@ == 87,
        },
{
    let len = b.len();
    if len >= 2 {
        let family = crate::bytes::read_le_u16(b, 0);
        if family == 2 && len >= 16 {
            let port = 256 * (b[2] as u16) + b[3] as u16;
            let a = SocketAddr::V4 { ip: [b[4], b[5], b[6], b[7]], port };
            proof {
                let d = decode_sockaddr(b@);
                assert(d matches Some(SocketAddr::V4 { ip, port: p }) && ip@ =~= [
                    b@[4],
                    b@[5],
                    b@[6],
                    b@[7],
                ]@ && p == port);
            }
            return Ok(a);
        }
        if family == 23 && len >= 28 {
            let port = 256 * (b[2] as u16) + b[3] as u16;
            let ip: [u8; 16] = [
                b[8],
                b[9],
                b[10],
                b[11],
                b[12],
                b[13],
                b[14],
                b[15],
                b[16],
                b[17],
                b[18],
                b[19],
                b[20],
                b[21],
                b[22],
                b[23],
            ];
            let flow_info = crate::bytes::read_le_u32(b, 4);
            let scope_id = crate::bytes::read_le_u32(b, 24);
            return Ok(SocketAddr::V6 { ip, port, flow_info, scope_id });
        }
    }
    Err(Win32Error::from_raw(87))
}

/// Decoding an encoded address gives the same address back.
pub proof fn lemma_sockaddr_round_trip(a: SocketAddr)
    ensures
        decode_sockaddr(sockaddr_encoding(a)) == Some(a),
{
    broadcast use vstd::array::group_array_axioms;

    let b = sockaddr_encoding(a);
    match a {
        SocketAddr::V4 { ip, port } => {
            assert(b.len() == 16);
            assert(crate::wide::le_u16_at(b, 0) == 2);
            assert(be_u16_at(b, 2) == port);
            let d = decode_sockaddr(b);
            assert(d matches Some(SocketAddr::V4 { ip: ip2, port: p2 }) && ip2 =~= ip && p2
                == port);
        },
        SocketAddr::V6 { ip, port, flow_info, scope_id } => {
            assert(b.len() == 28);
            assert(crate::wide::le_u16_at(b, 0) == 23);
            assert(be_u16_at(b, 2) == port);
            assert(crate::bytes::le_u32_at(b, 4) == flow_info);
            assert(crate::bytes::le_u32_at(b, 24) == scope_id);
            let d = decode_sockaddr(b);
            assert(d matches Some(SocketAddr::V6 { ip: ip2, .. }) && ip2 =~= ip);
        },
    }
}

/// The encoded port is in network byte order: its most significant byte
/// comes first, at byte offset 2.
pub proof fn lemma_port_network_order(a: SocketAddr)
    ensures
        sockaddr_encoding(a)[2] == (match a {
            SocketAddr::V4 { port, .. } => port,
            SocketAddr::V6 { port, .. } => port,
        }) / 256,
        sockaddr_encoding(a)[3] == (match a {
            SocketAddr::V4 { port, .. } => port,
            SocketAddr::V6 { port, .. } => port,
        }) % 256,
{
}

} // verus!
