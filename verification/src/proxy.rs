//! PROXY protocol headers for connections relayed to the server.
use proxy_protocol::version2::{ProxyAddresses, ProxyCommand, ProxyTransportProtocol};
use proxy_protocol::EncodeError;
use vstd::prelude::*;

use crate::net::{IpAddress, SocketAddress};

verus! {

#[verifier::external_type_specification]
#[verifier::external_body]
pub struct ExEncodeError(EncodeError);

/// Proxy header.
#[derive(Debug, Copy, Clone, PartialEq, Eq, Structural)]
pub enum ProxyHeader {
    /// Do not add proxy header.
    Disabled,
    /// Header for locally initiated connection.
    Local,
    /// Header for proxied connection.
    Proxy,
}

impl ProxyHeader {
    /// Changes to `Disabled` if `false` if given.
    ///
    /// `Disabled` stays `Disabled`.
    pub fn not_none(self, not_none: bool) -> (res: Self)
        ensures
            res == if not_none {
                self
            } else {
                ProxyHeader::Disabled
            },
    {
        if not_none {
            self
        } else {
            Self::Disabled
        }
    }
}

/// The PROXY protocol version 2 signature.
pub open spec fn v2_signature() -> Seq<u8> {
    seq![0x0Du8, 0x0Au8, 0x0Du8, 0x0Au8, 0x00u8, 0x0Du8, 0x0Au8, 0x51u8, 0x55u8, 0x49u8, 0x54u8, 0x0Au8]
}

/// A 16-bit number, most significant byte first.
pub open spec fn be_u16(x: u16) -> Seq<u8> {
    seq![(x >> 8u16) as u8, x as u8]
}

/// A 32-bit number, most significant byte first.
pub open spec fn be_u32(x: u32) -> Seq<u8> {
    seq![(x >> 24u32) as u8, (x >> 16u32) as u8, (x >> 8u32) as u8, x as u8]
}

/// A 128-bit number, most significant byte first.
pub open spec fn be_u128(x: u128) -> Seq<u8> {
    Seq::new(16, |i: int| (x >> ((8 * (15 - i)) as u128)) as u8)
}

/// Version 2 header of a local connection: LOCAL command, stream transport, no addresses.
pub open spec fn spec_local_proxy_header() -> Seq<u8> {
    v2_signature() + seq![0x20u8, 0x01u8, 0x00u8, 0x00u8]
}

/// Version 2 header of a proxied stream connection from `source` to `destination`, both
/// of one address family.
pub open spec fn spec_stream_proxy_header(source: SocketAddress, destination: SocketAddress) -> Seq<u8> {
    match (source.ip, destination.ip) {
        (IpAddress::V6(src), IpAddress::V6(dst)) => v2_signature() + seq![0x21u8, 0x21u8, 0x00u8, 36u8]
            + be_u128(src) + be_u128(dst) + be_u16(source.port) + be_u16(destination.port),
        (IpAddress::V4(src), IpAddress::V4(dst)) => v2_signature() + seq![0x21u8, 0x11u8, 0x00u8, 12u8]
            + be_u32(src) + be_u32(dst) + be_u16(source.port) + be_u16(destination.port),
        _ => Seq::empty(),
    }
}

/// Both addresses are of one family.
pub open spec fn same_family(a: SocketAddress, b: SocketAddress) -> bool {
    (a.ip is V4 && b.ip is V4) || (a.ip is V6 && b.ip is V6)
}

/// Encode the version 2 header of a local connection.
///
/// Calls `proxy_protocol::encode` on a version 2 header with LOCAL command, stream transport
/// and unspecified addresses. Claimed, as its source shows: version 2 encoding never fails,
/// and gives the signature, `0x20`, `0x01` and a zero length.
#[verifier::external_body]
fn encode_local_v2_header() -> (res: Result<Vec<u8>, EncodeError>)
    ensures
        res is Ok,
        res is Ok ==> res->Ok_0@ == spec_local_proxy_header(),
{
    let header = proxy_protocol::ProxyHeader::Version2 {
        command: ProxyCommand::Local,
        transport_protocol: ProxyTransportProtocol::Stream,
        addresses: ProxyAddresses::Unspec,
    };
    match proxy_protocol::encode(header) {
        Ok(bytes) => Ok(bytes.to_vec()),
        Err(err) => Err(err),
    }
}

/// Get the proxy header for a locally initiated connection.
///
/// This header may be sent over the outbound stream to signal client information.
pub fn local_proxy_header() -> (res: Result<Vec<u8>, EncodeError>)
    ensures
        res matches Ok(h) && h@ == spec_local_proxy_header(),
{
    encode_local_v2_header()
}

fn push_be_u16(out: &mut Vec<u8>, x: u16)
    ensures
        final(out)@ == old(out)@ + be_u16(x),
{
    out.push((x >> 8u16) as u8);
    out.push(x as u8);
}

fn push_be_u32(out: &mut Vec<u8>, x: u32)
    ensures
        final(out)@ == old(out)@ + be_u32(x),
{
    out.push((x >> 24u32) as u8);
    out.push((x >> 16u32) as u8);
    out.push((x >> 8u32) as u8);
    out.push(x as u8);
}

fn push_be_u128(out: &mut Vec<u8>, x: u128)
    ensures
        final(out)@ == old(out)@ + be_u128(x),
{
    let ghost start = out@;
    let mut i: u32 = 0;
    while i < 16
        invariant
            i <= 16,
            out@ =~= start + be_u128(x).subrange(0, i as int),
        decreases 16 - i,
    {
        out.push((x >> ((8 * (15 - i)) as u128)) as u8);
        i = i + 1;
    }
    proof {
        assert(be_u128(x).subrange(0, 16) =~= be_u128(x));
    }
}

/// Get the proxy header for a connection from `peer`, accepted at `local`.
///
/// This header may be sent over the outbound stream to signal client information. Both
/// addresses must be of one family, as those of one stream are.
pub fn stream_proxy_header(peer: SocketAddress, local: SocketAddress) -> (res: Vec<u8>)
    requires
        same_family(peer, local),
    ensures
        res@ == spec_stream_proxy_header(peer, local),
{
    let mut out: Vec<u8> = vec![0x0D, 0x0A, 0x0D, 0x0A, 0x00, 0x0D, 0x0A, 0x51, 0x55, 0x49, 0x54, 0x0A];
    out.push(0x21);
    match (peer.ip, local.ip) {
        (IpAddress::V4(src), IpAddress::V4(dst)) => {
            out.push(0x11);
            out.push(0x00);
            out.push(12);
            push_be_u32(&mut out, src);
            push_be_u32(&mut out, dst);
        },
        (IpAddress::V6(src), IpAddress::V6(dst)) => {
            out.push(0x21);
            out.push(0x00);
            out.push(36);
            push_be_u128(&mut out, src);
            push_be_u128(&mut out, dst);
        },
        _ => {},
    }
    push_be_u16(&mut out, peer.port);
    push_be_u16(&mut out, local.port);
    proof {
        assert(out@ =~= spec_stream_proxy_header(peer, local));
    }
    out
}

/// The bytes to send ahead of a relayed connection for the given header kind.
pub open spec fn spec_header_bytes(header: ProxyHeader, peer: SocketAddress, local: SocketAddress) -> Seq<u8> {
    match header {
        ProxyHeader::Disabled => Seq::empty(),
        ProxyHeader::Local => spec_local_proxy_header(),
        ProxyHeader::Proxy => spec_stream_proxy_header(peer, local),
    }
}

/// The proxy header to send to the server before relaying a connection from `peer`,
/// accepted at `local`: nothing, the local header or the stream header.
pub fn header_bytes(header: ProxyHeader, peer: SocketAddress, local: SocketAddress) -> (res: Result<Vec<u8>, EncodeError>)
    requires
        header == ProxyHeader::Proxy ==> same_family(peer, local),
    ensures
        res matches Ok(h) && h@ == spec_header_bytes(header, peer, local),
{
    match header {
        ProxyHeader::Disabled => Ok(Vec::new()),
        ProxyHeader::Local => local_proxy_header(),
        ProxyHeader::Proxy => Ok(stream_proxy_header(peer, local)),
    }
}

} // verus!
