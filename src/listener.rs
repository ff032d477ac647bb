//! Decisions of the connection listener: whether a connection is encrypted.
//!
//! Local and development traffic goes in plain text; other peers get TLS
//! when a TLS identity was configured at startup.
use vstd::prelude::*;

verus! {

/// The port the server listens on.
pub struct Port(pub u16);

impl From<u16> for Port {
    fn from(value: u16) -> (r: Port)
        ensures
            r.0 == value,
    {
        Port(value)
    }
}

impl vstd::std_specs::convert::FromSpecImpl<u16> for Port {
    open spec fn obeys_from_spec() -> bool {
        true
    }

    open spec fn from_spec(value: u16) -> Port {
        Port(value)
    }
}

/// Where the TLS identity is read from: a PKCS #12 file and its password.
pub struct TLSCertificate {
    pub path: String,
    pub password: String,
}

/// The address of a remote peer: four octets, or eight 16-bit segments.
#[derive(Debug, Clone, Copy, PartialEq, Eq)]
pub enum PeerAddress {
    V4([u8; 4]),
    V6([u16; 8]),
}

/// 10.0.0.0/8, 172.16.0.0/12 or 192.168.0.0/16.
pub open spec fn v4_private(o: Seq<u8>) -> bool {
    o[0] == 10 || (o[0] == 172 && 16 <= o[1] <= 31) || (o[0] == 192 && o[1] == 168)
}

/// 192.0.2.0/24, 198.51.100.0/24 or 203.0.113.0/24.
pub open spec fn v4_documentation(o: Seq<u8>) -> bool {
    (o[0] == 192 && o[1] == 0 && o[2] == 2) || (o[0] == 198 && o[1] == 51 && o[2] == 100) || (o[0]
        == 203 && o[1] == 0 && o[2] == 113)
}

/// Private, loopback (127.0.0.0/8), link-local (169.254.0.0/16), broadcast
/// (255.255.255.255), documentation or unspecified (0.0.0.0).
pub open spec fn v4_local(o: Seq<u8>) -> bool {
    ||| v4_private(o)
    ||| o[0] == 127
    ||| (o[0] == 169 && o[1] == 254)
    ||| (o[0] == 255 && o[1] == 255 && o[2] == 255 && o[3] == 255)
    ||| v4_documentation(o)
    ||| (o[0] == 0 && o[1] == 0 && o[2] == 0 && o[3] == 0)
}

/// Loopback (::1), multicast (ff00::/8) or unspecified (::).
pub open spec fn v6_local(s: Seq<u16>) -> bool {
    let zero_head = s[0] == 0 && s[1] == 0 && s[2] == 0 && s[3] == 0 && s[4] == 0 && s[5] == 0
        && s[6] == 0;
    ||| (zero_head && s[7] == 1)
    ||| s[0] >= 0xff00
    ||| (zero_head && s[7] == 0)
}

pub open spec fn is_local(addr: PeerAddress) -> bool {
    match addr {
        PeerAddress::V4(o) => v4_local(o@),
        PeerAddress::V6(s) => v6_local(s@),
    }
}

/// Whether `addr` is a private, local or otherwise non-public address, to
/// which no TLS is offered.
pub fn is_private_address(addr: &PeerAddress) -> (r: bool)
    ensures
        r == is_local(*addr),
{
    match addr {
        PeerAddress::V4(o) => {
            let (a, b, c, d) = (o[0], o[1], o[2], o[3]);
            let private = a == 10 || (a == 172 && 16 <= b && b <= 31) || (a == 192 && b == 168);
            let documentation = (a == 192 && b == 0 && c == 2) || (a == 198 && b == 51 && c == 100)
                || (a == 203 && b == 0 && c == 113);
            private || a == 127 || (a == 169 && b == 254) || (a == 255 && b == 255 && c == 255 && d
                == 255) || documentation || (a == 0 && b == 0 && c == 0 && d == 0)
        },
        PeerAddress::V6(s) => {
            let zero_head = s[0] == 0 && s[1] == 0 && s[2] == 0 && s[3] == 0 && s[4] == 0 && s[5]
                == 0 && s[6] == 0;
            (zero_head && s[7] == 1) || s[0] >= 0xff00 || (zero_head && s[7] == 0)
        },
    }
}

/// Whether a connection from `addr` is wrapped in TLS: only when an
/// identity is configured and the peer is not local.
pub fn use_tls(addr: &PeerAddress, tls_configured: bool) -> (r: bool)
    ensures
        r == (tls_configured && !is_local(*addr)),
{
    tls_configured && !is_private_address(addr)
}

} // verus!
