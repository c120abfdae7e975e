//! Addresses as plain values.

use crate::text::{find_char, index_of};
use vstd::prelude::*;

verus! {

/// An IP address by its octets, in network order.
#[derive(Debug, Clone, Copy, PartialEq, Eq, Hash, Structural)]
pub enum IpAddress {
    V4(u8, u8, u8, u8),
    V6(u8, u8, u8, u8, u8, u8, u8, u8, u8, u8, u8, u8, u8, u8, u8, u8),
}

/// An IP address and a port.
#[derive(Debug, Clone, Copy, PartialEq, Eq, Hash, Structural)]
pub struct SocketAddress {
    pub ip: IpAddress,
    pub port: u16,
}

/// The two bytes of a port, big-endian.
pub open spec fn port_bytes(port: u16) -> Seq<u8> {
    seq![(port / 256) as u8, (port % 256) as u8]
}

/// The port that two bytes stand for, big-endian.
pub open spec fn port_of(high: u8, low: u8) -> u16 {
    (high as int * 256 + low as int) as u16
}

/// The two bytes of a port, big-endian.
pub fn port_to_be(port: u16) -> (r: (u8, u8))
    ensures
        seq![r.0, r.1] == port_bytes(port),
        port_of(r.0, r.1) == port,
{
    ((port / 256) as u8, (port % 256) as u8)
}

/// The port that two bytes stand for, big-endian.
pub fn port_from_be(high: u8, low: u8) -> (r: u16)
    ensures
        r == port_of(high, low),
        port_bytes(r) == seq![high, low],
{
    let r: u16 = high as u16 * 256 + low as u16;
    assert(port_bytes(r) =~= seq![high, low]);
    r
}

/// The address with the given octets: four make an IPv4 address, sixteen an
/// IPv6 address, any other number none.
pub open spec fn address_of(bytes: Seq<u8>) -> Option<IpAddress> {
    if bytes.len() == 4 {
        Some(IpAddress::V4(bytes[0], bytes[1], bytes[2], bytes[3]))
    } else if bytes.len() == 16 {
        Some(
            IpAddress::V6(
                bytes[0],
                bytes[1],
                bytes[2],
                bytes[3],
                bytes[4],
                bytes[5],
                bytes[6],
                bytes[7],
                bytes[8],
                bytes[9],
                bytes[10],
                bytes[11],
                bytes[12],
                bytes[13],
                bytes[14],
                bytes[15],
            ),
        )
    } else {
        None
    }
}

impl IpAddress {
    /// The octets of the address: four for IPv4, sixteen for IPv6.
    pub open spec fn octets_spec(self) -> Seq<u8> {
        match self {
            IpAddress::V4(a, b, c, d) => seq![a, b, c, d],
            IpAddress::V6(a, b, c, d, e, f, g, h, i, j, k, l, m, n, o, p) => seq![
                a,
                b,
                c,
                d,
                e,
                f,
                g,
                h,
                i,
                j,
                k,
                l,
                m,
                n,
                o,
                p,
            ],
        }
    }

    /// The SOCKS5 address type of the address: 1 for IPv4, 4 for IPv6.
    pub open spec fn atyp_spec(self) -> u8 {
        match self {
            IpAddress::V4(..) => 1u8,
            IpAddress::V6(..) => 4u8,
        }
    }

    /// Whether the address is an IPv4 address.
    pub fn is_ipv4(&self) -> (r: bool)
        ensures
            r == (self is V4),
    {
        match self {
            IpAddress::V4(..) => true,
            IpAddress::V6(..) => false,
        }
    }

    /// The SOCKS5 address type of the address.
    pub fn atyp(&self) -> (r: u8)
        ensures
            r == self.atyp_spec(),
    {
        match self {
            IpAddress::V4(..) => 1,
            IpAddress::V6(..) => 4,
        }
    }

    /// The octets of the address.
    pub fn octets(&self) -> (out: Vec<u8>)
        ensures
            out@ == self.octets_spec(),
    {
        let mut out: Vec<u8> = Vec::new();
        match *self {
            IpAddress::V4(a, b, c, d) => {
                out.push(a);
                out.push(b);
                out.push(c);
                out.push(d);
            },
            IpAddress::V6(a, b, c, d, e, f, g, h, i, j, k, l, m, n, o, p) => {
                out.push(a);
                out.push(b);
                out.push(c);
                out.push(d);
                out.push(e);
                out.push(f);
                out.push(g);
                out.push(h);
                out.push(i);
                out.push(j);
                out.push(k);
                out.push(l);
                out.push(m);
                out.push(n);
                out.push(o);
                out.push(p);
            },
        }
        assert(out@ =~= self.octets_spec());
        out
    }

    /// The address with the given octets: four make an IPv4 address, sixteen an
    /// IPv6 address, any other number none.
    pub fn from_octets(bytes: &[u8]) -> (r: Option<IpAddress>)
        ensures
            r == address_of(bytes@),
            match r {
                Some(ip) => ip.octets_spec() == bytes@,
                None => bytes@.len() != 4 && bytes@.len() != 16,
            },
    {
        if bytes.len() == 4 {
            let ip = IpAddress::V4(bytes[0], bytes[1], bytes[2], bytes[3]);
            assert(ip.octets_spec() =~= bytes@);
            Some(ip)
        } else if bytes.len() == 16 {
            let ip = IpAddress::V6(
                bytes[0],
                bytes[1],
                bytes[2],
                bytes[3],
                bytes[4],
                bytes[5],
                bytes[6],
                bytes[7],
                bytes[8],
                bytes[9],
                bytes[10],
                bytes[11],
                bytes[12],
                bytes[13],
                bytes[14],
                bytes[15],
            );
            assert(ip.octets_spec() =~= bytes@);
            Some(ip)
        } else {
            None
        }
    }
}

/// An address is the address of its octets.
pub proof fn lemma_address_of_octets(ip: IpAddress)
    ensures
        address_of(ip.octets_spec()) == Some(ip),
{
}

impl SocketAddress {
    /// The address `ip` at `port`.
    pub fn new(ip: IpAddress, port: u16) -> (r: Self)
        ensures
            r.ip == ip,
            r.port == port,
    {
        SocketAddress { ip, port }
    }

    /// Whether the two are the same address and port.
    pub fn same(&self, other: &SocketAddress) -> (r: bool)
        ensures
            r == (*self == *other),
    {
        *self == *other
    }
}

/// A decimal digit.
pub open spec fn is_digit(c: char) -> bool {
    '0' <= c && c <= '9'
}

/// The number that a text of decimal digits stands for.
pub open spec fn decimal_value(s: Seq<char>) -> nat
    decreases s.len(),
{
    if s.len() == 0 {
        0
    } else {
        decimal_value(s.drop_last()) * 10 + (s.last() as nat - '0' as nat) as nat
    }
}

/// The text is one or more decimal digits.
pub open spec fn all_digits(s: Seq<char>) -> bool {
    s.len() > 0 && forall|i: int| 0 <= i < s.len() ==> is_digit(#[trigger] s[i])
}

/// The octet that a text stands for: decimal digits with a value up to 255.
pub open spec fn octet_of_text(s: Seq<char>) -> Option<u8> {
    if all_digits(s) && decimal_value(s) <= 255 {
        Some(decimal_value(s) as u8)
    } else {
        None
    }
}

/// The IPv4 address that a text stands for: four octets with a dot between
/// each two of them.
pub open spec fn ipv4_of_text(s: Seq<char>) -> Option<IpAddress> {
    let d1 = index_of(s, '.', 0);
    let d2 = index_of(s, '.', d1 + 1);
    let d3 = index_of(s, '.', d2 + 1);
    if d3 < s.len() && index_of(s, '.', d3 + 1) == s.len() {
        match (
            octet_of_text(s.subrange(0, d1)),
            octet_of_text(s.subrange(d1 + 1, d2)),
            octet_of_text(s.subrange(d2 + 1, d3)),
            octet_of_text(s.subrange(d3 + 1, s.len() as int)),
        ) {
            (Some(a), Some(b), Some(c), Some(d)) => Some(IpAddress::V4(a, b, c, d)),
            _ => None,
        }
    } else {
        None
    }
}

/// A text of digits is worth at least as much as each of its prefixes.
proof fn lemma_decimal_prefix(s: Seq<char>, k: int)
    requires
        0 <= k <= s.len(),
    ensures
        decimal_value(s.take(k)) <= decimal_value(s),
    decreases s.len(),
{
    if k == s.len() {
        assert(s.take(k) =~= s);
    } else {
        assert(s.drop_last().take(k) =~= s.take(k));
        lemma_decimal_prefix(s.drop_last(), k);
    }
}

/// The octet that the characters from `from` up to `to` stand for.
fn parse_octet(s: &str, from: usize, to: usize) -> (r: Option<u8>)
    requires
        from <= to <= s@.len(),
    ensures
        r == octet_of_text(s@.subrange(from as int, to as int)),
{
    let ghost part = s@.subrange(from as int, to as int);
    if from == to {
        return None;
    }
    let mut value: u32 = 0;
    let mut k: usize = from;
    assert(part.take(0) =~= Seq::<char>::empty());
    while k < to
        invariant
            from <= k <= to <= s@.len(),
            part == s@.subrange(from as int, to as int),
            value <= 255,
            value == decimal_value(part.take(k - from)),
            forall|j: int| 0 <= j < k - from ==> is_digit(#[trigger] part[j]),
        decreases to - k,
    {
        let c: char = s.get_char(k);
        if !('0' <= c && c <= '9') {
            assert(!is_digit(part[k - from]));
            return None;
        }
        let digit: u32 = c as u32 - '0' as u32;
        let next: u32 = value * 10 + digit;
        proof {
            assert(part.take(k - from + 1).drop_last() =~= part.take(k - from));
            assert(part.take(k - from + 1).last() == c);
            assert(next == decimal_value(part.take(k - from + 1)));
        }
        if next > 255 {
            proof {
                lemma_decimal_prefix(part, k - from + 1);
            }
            return None;
        }
        value = next;
        k += 1;
    }
    assert(part.take(to - from) =~= part);
    Some(value as u8)
}

/// The IPv4 address that the text stands for, if it stands for one.
pub fn parse_ipv4(text: &str) -> (r: Option<IpAddress>)
    ensures
        r == ipv4_of_text(text@),
{
    let n: usize = text.unicode_len();
    let d1 = find_char(text, '.', 0);
    if d1 >= n {
        return None;
    }
    let d2 = find_char(text, '.', d1 + 1);
    if d2 >= n {
        return None;
    }
    let d3 = find_char(text, '.', d2 + 1);
    if d3 >= n {
        return None;
    }
    let d4 = find_char(text, '.', d3 + 1);
    if d4 < n {
        return None;
    }
    let a = parse_octet(text, 0, d1);
    let b = parse_octet(text, d1 + 1, d2);
    let c = parse_octet(text, d2 + 1, d3);
    let d = parse_octet(text, d3 + 1, n);
    match (a, b, c, d) {
        (Some(a), Some(b), Some(c), Some(d)) => Some(IpAddress::V4(a, b, c, d)),
        _ => None,
    }
}

} // verus!
