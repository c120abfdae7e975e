//! The SOCKS5 front end as far as it is computation: parsing the request,
//! building the replies, and deciding what is to be done with the client.

use crate::addr::{
    address_of, port_bytes, port_from_be, port_of, port_to_be, IpAddress, SocketAddress,
};
use crate::bytes::{append_bytes, copy_range};
use crate::text::{decode_lossy, utf8_lossy};
use vstd::prelude::*;

verus! {

/// What a client may get wrong.
#[derive(Debug, Clone, Copy, PartialEq, Eq, Structural)]
pub enum ProtocolError {
    /// The request is too short to hold a command and an address type.
    MalformedRequest,
}

/// The destination of a SOCKS5 request.
#[derive(Debug, Clone, PartialEq)]
pub struct IpParser {
    /// The octets to connect to: four or sixteen, zero-filled where none are known.
    pub host_raw: Vec<u8>,
    /// The address as the client wrote it: the domain, or the octets.
    pub host_unprocessed: Vec<u8>,
    pub port: u16,
    /// 1 for IPv4, 3 for a domain, 4 for IPv6.
    pub dest_addr_type: u8,
    pub is_udp: bool,
}

/// A destination over sequences.
pub ghost struct Destination {
    pub host_raw: Seq<u8>,
    pub host_unprocessed: Seq<u8>,
    pub port: u16,
    pub dest_addr_type: u8,
    pub is_udp: bool,
}

impl View for IpParser {
    type V = Destination;

    open spec fn view(&self) -> Destination {
        Destination {
            host_raw: self.host_raw@,
            host_unprocessed: self.host_unprocessed@,
            port: self.port,
            dest_addr_type: self.dest_addr_type,
            is_udp: self.is_udp,
        }
    }
}

/// `n` zero bytes.
pub open spec fn zeros(n: nat) -> Seq<u8> {
    Seq::new(n, |i: int| 0u8)
}

/// The octets of `resolved` where they are an address, else four zero bytes.
pub open spec fn octets_or_zero(resolved: Option<Seq<u8>>) -> Seq<u8> {
    match resolved {
        Some(octets) => if octets.len() == 4 || octets.len() == 16 {
            octets
        } else {
            zeros(4)
        },
        None => zeros(4),
    }
}

/// The destination that stands for a request that is cut short or of an
/// unknown address type: `n` zero bytes and port zero.
pub open spec fn fallback(buffer: Seq<u8>, n: nat) -> Destination {
    Destination {
        host_raw: zeros(n),
        host_unprocessed: zeros(n),
        port: 0,
        dest_addr_type: buffer[3],
        is_udp: buffer[1] == 3,
    }
}

/// The request names a domain and holds all of it, and the port behind it.
pub open spec fn holds_domain(buffer: Seq<u8>) -> bool {
    &&& buffer.len() >= 5
    &&& buffer[3] == 3
    &&& 6 + buffer[4] < buffer.len()
}

/// The domain that the request names.
pub open spec fn domain_of(buffer: Seq<u8>) -> Seq<u8> {
    buffer.subrange(5, 5 + buffer[4] as int)
}

/// The destination of a request of at least four bytes, where a domain has
/// been resolved to the octets `resolved`, or to none.
pub open spec fn parsed_request(buffer: Seq<u8>, resolved: Option<Seq<u8>>) -> Destination {
    let atyp = buffer[3];
    let is_udp = buffer[1] == 3;
    if atyp == 1 {
        if buffer.len() < 10 {
            fallback(buffer, 4)
        } else {
            Destination {
                host_raw: buffer.subrange(4, 8),
                host_unprocessed: buffer.subrange(4, 8),
                port: port_of(buffer[8], buffer[9]),
                dest_addr_type: atyp,
                is_udp,
            }
        }
    } else if atyp == 3 {
        if !holds_domain(buffer) {
            fallback(buffer, 4)
        } else {
            Destination {
                host_raw: octets_or_zero(resolved),
                host_unprocessed: domain_of(buffer),
                port: port_of(buffer[5 + buffer[4]], buffer[6 + buffer[4]]),
                dest_addr_type: atyp,
                is_udp,
            }
        }
    } else if atyp == 4 {
        if buffer.len() < 22 {
            fallback(buffer, 16)
        } else {
            Destination {
                host_raw: buffer.subrange(4, 20),
                host_unprocessed: buffer.subrange(4, 20),
                port: port_of(buffer[20], buffer[21]),
                dest_addr_type: atyp,
                is_udp,
            }
        }
    } else {
        fallback(buffer, 4)
    }
}

/// `n` zero bytes.
pub fn zero_bytes(n: usize) -> (out: Vec<u8>)
    ensures
        out@ == zeros(n as nat),
{
    let mut out: Vec<u8> = Vec::new();
    let mut i: usize = 0;
    while i < n
        invariant
            i <= n,
            out@ == zeros(i as nat),
        decreases n - i,
    {
        out.push(0u8);
        i += 1;
        assert(out@ =~= zeros(i as nat));
    }
    out
}

/// The view of an optional buffer.
pub open spec fn option_view(o: Option<Vec<u8>>) -> Option<Seq<u8>> {
    match o {
        Some(v) => Some(v@),
        None => None,
    }
}

impl IpParser {
    /// The destination for a request that is cut short.
    fn fallback_for(buffer: &[u8], n: usize) -> (r: IpParser)
        requires
            buffer@.len() >= 4,
        ensures
            r@ == fallback(buffer@, n as nat),
    {
        IpParser {
            host_raw: zero_bytes(n),
            host_unprocessed: zero_bytes(n),
            port: 0,
            dest_addr_type: buffer[3],
            is_udp: buffer[1] == 0x03,
        }
    }

    /// The domain that the request names, where it names one and holds all of it.
    pub fn requested_domain(buffer: &[u8]) -> (r: Option<Vec<u8>>)
        ensures
            match r {
                Some(domain) => holds_domain(buffer@) && domain@ == domain_of(buffer@),
                None => !holds_domain(buffer@),
            },
    {
        if buffer.len() >= 5 && buffer[3] == 3 {
            let domain_length: usize = buffer[4] as usize;
            if domain_length < buffer.len() - 5 && 6 + domain_length < buffer.len() {
                return Some(copy_range(buffer, 5, 5 + domain_length));
            }
        }
        None
    }

    /// Parses the destination of a request. `resolved` holds the octets that
    /// the requested domain resolves to, where it names one and they are known.
    /// A request without an address type is an error, any other request gives
    /// a destination.
    pub fn parse(buffer: &[u8], resolved: Option<Vec<u8>>) -> (r: Result<IpParser, ProtocolError>)
        ensures
            match r {
                Ok(parsed) => buffer@.len() >= 4 && parsed@ == parsed_request(
                    buffer@,
                    option_view(resolved),
                ),
                Err(e) => buffer@.len() < 4 && e == ProtocolError::MalformedRequest,
            },
    {
        if buffer.len() < 4 {
            return Err(ProtocolError::MalformedRequest);
        }
        let dest_addr_type: u8 = buffer[3];
        let is_udp: bool = buffer[1] == 0x03;
        if dest_addr_type == 1 {
            if buffer.len() < 10 {
                return Ok(Self::fallback_for(buffer, 4));
            }
            Ok(
                IpParser {
                    host_raw: copy_range(buffer, 4, 8),
                    host_unprocessed: copy_range(buffer, 4, 8),
                    port: port_from_be(buffer[8], buffer[9]),
                    dest_addr_type,
                    is_udp,
                },
            )
        } else if dest_addr_type == 3 {
            match Self::requested_domain(buffer) {
                None => Ok(Self::fallback_for(buffer, 4)),
                Some(domain) => {
                    let domain_length: usize = buffer[4] as usize;
                    let port = port_from_be(buffer[5 + domain_length], buffer[6 + domain_length]);
                    let host_raw = match resolved {
                        Some(octets) => if octets.len() == 4 || octets.len() == 16 {
                            octets
                        } else {
                            zero_bytes(4)
                        },
                        None => zero_bytes(4),
                    };
                    Ok(
                        IpParser {
                            host_raw,
                            host_unprocessed: domain,
                            port,
                            dest_addr_type,
                            is_udp,
                        },
                    )
                },
            }
        } else if dest_addr_type == 4 {
            if buffer.len() < 22 {
                return Ok(Self::fallback_for(buffer, 16));
            }
            Ok(
                IpParser {
                    host_raw: copy_range(buffer, 4, 20),
                    host_unprocessed: copy_range(buffer, 4, 20),
                    port: port_from_be(buffer[20], buffer[21]),
                    dest_addr_type,
                    is_udp,
                },
            )
        } else {
            Ok(Self::fallback_for(buffer, 4))
        }
    }

    /// Parses the destination of a request and leaves a domain unresolved.
    pub fn parse_no_resolve(buffer: &[u8]) -> (r: Result<IpParser, ProtocolError>)
        ensures
            match r {
                Ok(parsed) => buffer@.len() >= 4 && parsed@ == parsed_request(buffer@, None),
                Err(e) => buffer@.len() < 4 && e == ProtocolError::MalformedRequest,
            },
    {
        Self::parse(buffer, None)
    }

    /// The name that the client asks for, as the router takes it for the
    /// server name when it routes the connection: the requested domain as
    /// text, and the empty text where the request names an address.
    pub fn routing_name(&self) -> (name: String)
        ensures
            name@ == routing_name_of(self@),
    {
        if self.dest_addr_type == 3 {
            decode_lossy(self.host_unprocessed.as_slice())
        } else {
            String::new()
        }
    }

    /// The address to connect to, where the destination holds one.
    pub fn target(&self) -> (r: Option<SocketAddress>)
        ensures
            r == target_of(self@),
    {
        match IpAddress::from_octets(self.host_raw.as_slice()) {
            Some(ip) => Some(SocketAddress::new(ip, self.port)),
            None => None,
        }
    }
}

/// The name that a destination gives the router for the server name.
pub open spec fn routing_name_of(destination: Destination) -> Seq<char> {
    if destination.dest_addr_type == 3 {
        utf8_lossy(destination.host_unprocessed)
    } else {
        Seq::empty()
    }
}

/// The address a destination stands for: its octets, where they are four or
/// sixteen, and its port.
pub open spec fn target_of(destination: Destination) -> Option<SocketAddress> {
    match address_of(destination.host_raw) {
        Some(ip) => Some(SocketAddress { ip, port: destination.port }),
        None => None,
    }
}

/// The address field of a reply: a domain behind its length, octets as they are.
pub open spec fn reply_address(atyp: u8, host: Seq<u8>) -> Seq<u8> {
    if atyp == 3 {
        seq![(host.len() % 256) as u8] + host
    } else {
        host
    }
}

/// A reply: version, status, a reserved zero, the address type, the address as
/// the client wrote it, and the port.
pub open spec fn reply_bytes(status: u8, destination: Destination) -> Seq<u8> {
    seq![0x05u8, status, 0x00u8, destination.dest_addr_type] + reply_address(
        destination.dest_addr_type,
        destination.host_unprocessed,
    ) + port_bytes(destination.port)
}

/// The reply to a UDP ASSOCIATE: it points the client to the relay.
pub open spec fn associate_reply_bytes(relay: SocketAddress) -> Seq<u8> {
    seq![0x05u8, 0x00u8, 0x00u8, relay.ip.atyp_spec()] + relay.ip.octets_spec() + port_bytes(
        relay.port,
    )
}

/// The CONNECT request that is sent to an upstream SOCKS5 proxy.
pub open spec fn connect_request_bytes(addr: SocketAddress) -> Seq<u8> {
    seq![0x05u8, 0x01u8, 0x00u8, addr.ip.atyp_spec()] + addr.ip.octets_spec() + port_bytes(
        addr.port,
    )
}

/// Every reply to a request starts with the version, the status, a zero and
/// the address type that the request named.
pub proof fn lemma_reply_shape(status: u8, buffer: Seq<u8>, resolved: Option<Seq<u8>>)
    requires
        buffer.len() >= 4,
    ensures
        reply_bytes(status, parsed_request(buffer, resolved)).len() >= 6,
        reply_bytes(status, parsed_request(buffer, resolved)).take(4) == seq![
            0x05u8,
            status,
            0x00u8,
            buffer[3],
        ],
{
    let r = reply_bytes(status, parsed_request(buffer, resolved));
    assert(r.take(4) =~= seq![0x05u8, status, 0x00u8, buffer[3]]);
}

/// The answer to a client's greeting: version 5, no authentication.
pub fn greeting_reply() -> (out: Vec<u8>)
    ensures
        out@ == seq![0x05u8, 0x00u8],
{
    let mut out: Vec<u8> = Vec::new();
    out.push(0x05);
    out.push(0x00);
    out
}

/// The greeting that is sent to an upstream SOCKS5 proxy: one method, no
/// authentication.
pub fn upstream_greeting() -> (out: Vec<u8>)
    ensures
        out@ == seq![0x05u8, 0x01u8, 0x00u8],
{
    let mut out: Vec<u8> = Vec::new();
    out.push(0x05);
    out.push(0x01);
    out.push(0x00);
    out
}

/// Appends the two bytes of a port.
fn push_port(out: &mut Vec<u8>, port: u16)
    ensures
        final(out)@ == old(out)@ + port_bytes(port),
{
    let (high, low) = port_to_be(port);
    out.push(high);
    out.push(low);
    assert(out@ =~= old(out)@ + port_bytes(port));
}

/// The reply for a destination, with the given status.
pub fn socks5_reply(status: u8, parsed: &IpParser) -> (out: Vec<u8>)
    ensures
        out@ == reply_bytes(status, parsed@),
{
    let mut out: Vec<u8> = Vec::new();
    out.push(0x05);
    out.push(status);
    out.push(0x00);
    out.push(parsed.dest_addr_type);
    if parsed.dest_addr_type == 3 {
        out.push((parsed.host_unprocessed.len() % 256) as u8);
    }
    append_bytes(&mut out, parsed.host_unprocessed.as_slice());
    push_port(&mut out, parsed.port);
    assert(out@ =~= reply_bytes(status, parsed@));
    out
}

/// The reply to a UDP ASSOCIATE for a relay bound at `relay`.
pub fn udp_associate_reply(relay: &SocketAddress) -> (out: Vec<u8>)
    ensures
        out@ == associate_reply_bytes(*relay),
{
    let mut out: Vec<u8> = Vec::new();
    out.push(0x05);
    out.push(0x00);
    out.push(0x00);
    out.push(relay.ip.atyp());
    let octets = relay.ip.octets();
    append_bytes(&mut out, octets.as_slice());
    push_port(&mut out, relay.port);
    assert(out@ =~= associate_reply_bytes(*relay));
    out
}

/// The CONNECT request for `addr` that is sent to an upstream SOCKS5 proxy.
pub fn upstream_connect_request(addr: &SocketAddress) -> (out: Vec<u8>)
    ensures
        out@ == connect_request_bytes(*addr),
{
    let mut out: Vec<u8> = Vec::new();
    out.push(0x05);
    out.push(0x01);
    out.push(0x00);
    out.push(addr.ip.atyp());
    let octets = addr.ip.octets();
    append_bytes(&mut out, octets.as_slice());
    push_port(&mut out, addr.port);
    assert(out@ =~= connect_request_bytes(*addr));
    out
}

/// What is to be done with a client after its request was read.
#[derive(Debug, Clone, PartialEq)]
pub enum SocksAction {
    /// Write the reply and close: the address type is not supported.
    Reject(Vec<u8>),
    /// Bind a relay socket, answer with `udp_associate_reply`, and relay datagrams.
    Associate,
    /// Connect to `target`; when that succeeded, write `reply` and relay.
    Connect { target: SocketAddress, reply: Vec<u8> },
    /// Close: the destination holds no address to connect to.
    Close,
}

/// An action over sequences.
pub ghost enum SocksActionView {
    Reject(Seq<u8>),
    Associate,
    Connect { target: SocketAddress, reply: Seq<u8> },
    Close,
}

impl View for SocksAction {
    type V = SocksActionView;

    open spec fn view(&self) -> SocksActionView {
        match *self {
            SocksAction::Reject(reply) => SocksActionView::Reject(reply@),
            SocksAction::Associate => SocksActionView::Associate,
            SocksAction::Connect { target, reply } => SocksActionView::Connect {
                target,
                reply: reply@,
            },
            SocksAction::Close => SocksActionView::Close,
        }
    }
}

/// The address type is one of IPv4, domain and IPv6.
pub open spec fn supported_atyp(atyp: u8) -> bool {
    atyp == 1 || atyp == 3 || atyp == 4
}

/// What is done with a client whose request parsed to `requested`, where the
/// router made `destination` of it: a UDP ASSOCIATE is relayed; an address
/// type that is not supported is answered with status 8; any other request is
/// connected to the address of the destination, and answered with status 0
/// and the address as the client wrote it.
pub open spec fn dispatched(requested: Destination, destination: Destination) -> SocksActionView {
    if destination.is_udp {
        SocksActionView::Associate
    } else if !supported_atyp(requested.dest_addr_type) {
        SocksActionView::Reject(reply_bytes(0x08, requested))
    } else {
        match target_of(destination) {
            Some(target) => SocksActionView::Connect { target, reply: reply_bytes(0x00, requested) },
            None => SocksActionView::Close,
        }
    }
}

/// Decides what is done with a client after its request was read.
/// `requested` is the request as it parsed, `destination` what the router
/// made of it: the same, or the destination that a rule resolved it to.
pub fn socks5_proxy(requested: &IpParser, destination: &IpParser) -> (action: SocksAction)
    ensures
        action@ == dispatched(requested@, destination@),
{
    if destination.is_udp {
        return SocksAction::Associate;
    }
    let atyp = requested.dest_addr_type;
    if !(atyp == 1 || atyp == 3 || atyp == 4) {
        return SocksAction::Reject(socks5_reply(0x08, requested));
    }
    match destination.target() {
        Some(target) => SocksAction::Connect { target, reply: socks5_reply(0x00, requested) },
        None => SocksAction::Close,
    }
}

/// The reply to a CONNECT starts with the version, the status, a zero and
/// the address type of the request, whether the router stepped in or not.
pub proof fn lemma_connect_reply_shape(
    buffer: Seq<u8>,
    resolved: Option<Seq<u8>>,
    destination: Destination,
)
    requires
        buffer.len() >= 4,
    ensures
        match dispatched(parsed_request(buffer, resolved), destination) {
            SocksActionView::Connect { target, reply } => reply.take(4) == seq![
                0x05u8,
                0x00u8,
                0x00u8,
                buffer[3],
            ],
            SocksActionView::Reject(reply) => reply.take(4) == seq![
                0x05u8,
                0x08u8,
                0x00u8,
                buffer[3],
            ],
            _ => true,
        },
{
    lemma_reply_shape(0x00, buffer, resolved);
    lemma_reply_shape(0x08, buffer, resolved);
}

} // verus!
