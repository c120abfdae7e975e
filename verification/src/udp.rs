//! The UDP relay as far as it is computation: the SOCKS5 UDP header, and the
//! table of flows.

use crate::addr::{
    address_of, lemma_address_of_octets, port_bytes, port_from_be, port_of, port_to_be, IpAddress,
    SocketAddress,
};
use crate::bytes::append_bytes;
use vstd::prelude::*;
use vstd::slice::slice_subrange;

verus! {

/// The destination that a datagram of at least four bytes names, and where
/// its payload starts: for IPv4 behind ten bytes, for IPv6 behind twenty-two.
pub open spec fn ipdata_of(buffer: Seq<u8>) -> Option<(SocketAddress, int)> {
    if buffer.len() < 4 {
        None
    } else if buffer[3] == 1 && buffer.len() >= 10 {
        match address_of(buffer.subrange(4, 8)) {
            Some(ip) => Some((SocketAddress { ip, port: port_of(buffer[8], buffer[9]) }, 10int)),
            None => None,
        }
    } else if buffer[3] == 4 && buffer.len() >= 22 {
        match address_of(buffer.subrange(4, 20)) {
            Some(ip) => Some((SocketAddress { ip, port: port_of(buffer[20], buffer[21]) }, 22int)),
            None => None,
        }
    } else {
        None
    }
}

/// The destination and the payload of a datagram from the client: none where
/// it is cut short, is a fragment, or names no IP address.
pub open spec fn udp_msg_of(buffer: Seq<u8>) -> Option<(SocketAddress, Seq<u8>)> {
    if buffer.len() < 4 || buffer[0] != 0 || buffer[1] != 0 || buffer[2] != 0 {
        None
    } else {
        match ipdata_of(buffer) {
            Some((addr, start)) => Some((addr, buffer.skip(start))),
            None => None,
        }
    }
}

/// A datagram for the client: the header that names where the payload came
/// from, and the payload.
pub open spec fn udp_response_of(data: Seq<u8>, dest: SocketAddress) -> Seq<u8> {
    seq![0u8, 0u8, 0u8, dest.ip.atyp_spec()] + dest.ip.octets_spec() + port_bytes(dest.port) + data
}

/// What is wrapped for the client reads back as the same source and payload.
pub proof fn lemma_udp_header_round_trip(data: Seq<u8>, dest: SocketAddress)
    ensures
        udp_msg_of(udp_response_of(data, dest)) == Some((dest, data)),
{
    let wire = udp_response_of(data, dest);
    lemma_address_of_octets(dest.ip);
    match dest.ip {
        IpAddress::V4(..) => {
            assert(wire.subrange(4, 8) =~= dest.ip.octets_spec());
            assert(wire.skip(10) =~= data);
            assert(port_bytes(dest.port)[0] == wire[8] && port_bytes(dest.port)[1] == wire[9]);
        },
        IpAddress::V6(..) => {
            assert(wire.subrange(4, 20) =~= dest.ip.octets_spec());
            assert(wire.skip(22) =~= data);
            assert(port_bytes(dest.port)[0] == wire[20] && port_bytes(dest.port)[1] == wire[21]);
        },
    }
}

/// The destination that a datagram names, and where its payload starts.
pub fn parse_ipdata(buffer: &[u8]) -> (r: Option<(SocketAddress, usize)>)
    ensures
        match r {
            Some((addr, start)) => ipdata_of(buffer@) == Some((addr, start as int)),
            None => ipdata_of(buffer@) is None,
        },
{
    if buffer.len() < 4 {
        return None;
    }
    if buffer[3] == 1 {
        if buffer.len() < 10 {
            return None;
        }
        match IpAddress::from_octets(slice_subrange(buffer, 4, 8)) {
            Some(ip) => Some((SocketAddress::new(ip, port_from_be(buffer[8], buffer[9])), 10)),
            None => None,
        }
    } else if buffer[3] == 4 {
        if buffer.len() < 22 {
            return None;
        }
        match IpAddress::from_octets(slice_subrange(buffer, 4, 20)) {
            Some(ip) => Some((SocketAddress::new(ip, port_from_be(buffer[20], buffer[21])), 22)),
            None => None,
        }
    } else {
        None
    }
}

/// The destination and the payload of a datagram from the client.
pub fn parse_udp_msg(buffer: &[u8]) -> (r: Option<(SocketAddress, &[u8])>)
    ensures
        match r {
            Some((addr, data)) => udp_msg_of(buffer@) == Some((addr, data@)),
            None => udp_msg_of(buffer@) is None,
        },
{
    if buffer.len() < 4 {
        return None;
    }
    if buffer[0] != 0 || buffer[1] != 0 || buffer[2] != 0 {
        return None;
    }
    match parse_ipdata(buffer) {
        Some((addr, data_start)) => {
            let data = slice_subrange(buffer, data_start, buffer.len());
            assert(data@ =~= buffer@.skip(data_start as int));
            Some((addr, data))
        },
        None => None,
    }
}

/// Wraps a payload that came from `dest` for the client.
pub fn wrap_udp_response(data: &[u8], dest: SocketAddress) -> (response: Vec<u8>)
    ensures
        response@ == udp_response_of(data@, dest),
{
    let mut response: Vec<u8> = Vec::new();
    response.push(0);
    response.push(0);
    response.push(0);
    response.push(dest.ip.atyp());
    let octets = dest.ip.octets();
    append_bytes(&mut response, octets.as_slice());
    let (high, low) = port_to_be(dest.port);
    response.push(high);
    response.push(low);
    append_bytes(&mut response, data);
    assert(response@ =~= udp_response_of(data@, dest));
    response
}

/// One flow of the relay: who sends, where to, through which upstream socket,
/// and when it was last used, in milliseconds.
#[derive(Debug, Clone, Copy, PartialEq, Eq, Structural)]
pub struct Flow {
    pub client: SocketAddress,
    pub dest: SocketAddress,
    pub socket: u64,
    pub last_used: u64,
}

/// How long a flow may stay unused, in milliseconds.
pub const IDLE_LIMIT_MS: u64 = 300000;

/// How often the idle flows are reaped, in seconds.
pub const REAP_INTERVAL_SECS: u64 = 60;

/// The flows of a relay. Upstream sockets are known by numbers that the table
/// hands out; the sockets themselves are the caller's.
pub struct UdpFlows {
    flows: Vec<Flow>,
    next_socket: u64,
}

/// The flow is the one between `client` and `dest`.
pub open spec fn is_between(flow: Flow, client: SocketAddress, dest: SocketAddress) -> bool {
    flow.client == client && flow.dest == dest
}

/// No two flows are between the same two addresses, no two use the same
/// upstream socket, and every socket number is one that was handed out.
pub open spec fn flows_wf(flows: Seq<Flow>, next_socket: u64) -> bool {
    &&& forall|i: int, j: int|
        0 <= i < j < flows.len() ==> !is_between(
            #[trigger] flows[i],
            (#[trigger] flows[j]).client,
            flows[j].dest,
        )
    &&& forall|i: int, j: int|
        0 <= i < j < flows.len() ==> (#[trigger] flows[i]).socket != (#[trigger] flows[j]).socket
    &&& forall|i: int| 0 <= i < flows.len() ==> (#[trigger] flows[i]).socket < next_socket
}

/// The flow has been used within the idle limit before `now`.
pub open spec fn is_fresh(flow: Flow, now: u64) -> bool {
    now <= flow.last_used || now - flow.last_used <= IDLE_LIMIT_MS
}

/// The flow has been used within the idle limit before `now`.
pub open spec fn fresh_at(now: u64) -> spec_fn(Flow) -> bool {
    |flow: Flow| is_fresh(flow, now)
}

/// What is to be done with a datagram from the client.
#[derive(Debug, Clone, PartialEq)]
pub enum UdpAction {
    /// Send the payload to `dest` through the upstream socket of the flow.
    Forward { socket: u64, dest: SocketAddress, payload: Vec<u8> },
    /// Open an upstream socket under this number for a new flow, and send the
    /// payload to `dest` through it.
    Open { socket: u64, dest: SocketAddress, payload: Vec<u8> },
    /// Drop the datagram.
    Drop,
}

impl View for UdpFlows {
    type V = Seq<Flow>;

    closed spec fn view(&self) -> Seq<Flow> {
        self.flows@
    }
}

impl UdpFlows {
    /// The number that the next new flow gets for its upstream socket.
    pub closed spec fn next_socket(&self) -> u64 {
        self.next_socket
    }

    /// The table is well formed.
    pub open spec fn wf(&self) -> bool {
        flows_wf(self@, self.next_socket())
    }

    /// A table without flows, whose first flow gets the socket number zero.
    pub fn new() -> (r: Self)
        ensures
            r.wf(),
            r@.len() == 0,
            r.next_socket() == 0,
    {
        UdpFlows { flows: Vec::new(), next_socket: 0 }
    }

    /// The number of flows.
    pub fn len(&self) -> (r: usize)
        ensures
            r == self@.len(),
    {
        self.flows.len()
    }

    /// Where the flow between `client` and `dest` stands in the table.
    fn position(&self, client: &SocketAddress, dest: &SocketAddress) -> (r: Option<usize>)
        ensures
            match r {
                Some(i) => i < self@.len() && is_between(self@[i as int], *client, *dest),
                None => forall|i: int|
                    0 <= i < self@.len() ==> !is_between(#[trigger] self@[i], *client, *dest),
            },
    {
        let mut i: usize = 0;
        while i < self.flows.len()
            invariant
                i <= self.flows@.len(),
                forall|j: int| 0 <= j < i ==> !is_between(#[trigger] self@[j], *client, *dest),
            decreases self.flows@.len() - i,
        {
            if self.flows[i].client.same(client) && self.flows[i].dest.same(dest) {
                return Some(i);
            }
            i += 1;
        }
        None
    }

    /// The upstream socket of the flow between `client` and `dest`, if there
    /// is such a flow.
    pub fn lookup(&self, client: &SocketAddress, dest: &SocketAddress) -> (r: Option<u64>)
        ensures
            match r {
                Some(socket) => exists|i: int|
                    0 <= i < self@.len() && is_between(#[trigger] self@[i], *client, *dest)
                        && self@[i].socket == socket,
                None => forall|i: int|
                    0 <= i < self@.len() ==> !is_between(#[trigger] self@[i], *client, *dest),
            },
    {
        match self.position(client, dest) {
            Some(i) => Some(self.flows[i].socket),
            None => None,
        }
    }

    /// Forgets the flow between `client` and `dest`, if there is one.
    pub fn remove(&mut self, client: &SocketAddress, dest: &SocketAddress)
        requires
            old(self).wf(),
        ensures
            final(self).wf(),
            final(self).next_socket() == old(self).next_socket(),
            forall|i: int|
                0 <= i < final(self)@.len() ==> !is_between(
                    #[trigger] final(self)@[i],
                    *client,
                    *dest,
                ),
            forall|flow: Flow|
                !is_between(flow, *client, *dest) ==> (final(self)@.contains(flow) <==> old(
                    self,
                )@.contains(flow)),
    {
        match self.position(client, dest) {
            Some(i) => {
                self.flows.remove(i);
                assert forall|flow: Flow| !is_between(flow, *client, *dest) implies (
                self@.contains(flow) <==> old(self)@.contains(flow)) by {
                    if self@.contains(flow) {
                        let j = choose|j: int| 0 <= j < self@.len() && self@[j] == flow;
                        if j < i {
                            assert(old(self)@[j] == flow);
                        } else {
                            assert(old(self)@[j + 1] == flow);
                        }
                    }
                    if old(self)@.contains(flow) {
                        let j = choose|j: int| 0 <= j < old(self)@.len() && old(self)@[j] == flow;
                        if j < i {
                            assert(self@[j] == flow);
                        } else {
                            assert(self@[j - 1] == flow);
                        }
                    }
                }
                assert forall|k: int| 0 <= k < self@.len() implies !is_between(
                    #[trigger] self@[k],
                    *client,
                    *dest,
                ) by {
                    if k < i {
                        assert(self@[k] == old(self)@[k]);
                    } else {
                        assert(self@[k] == old(self)@[k + 1]);
                    }
                }
            },
            None => {},
        }
    }

    /// Forgets every flow that has not been used within the idle limit before
    /// `now`, and gives out the numbers of their upstream sockets, which are
    /// to be closed.
    pub fn reap(&mut self, now: u64) -> (closed: Vec<u64>)
        requires
            old(self).wf(),
        ensures
            final(self).wf(),
            final(self).next_socket() == old(self).next_socket(),
            final(self)@ == old(self)@.filter(fresh_at(now)),
            closed@ == old(self)@.filter(|flow: Flow| !is_fresh(flow, now)).map_values(
                |flow: Flow| flow.socket,
            ),
    {
        let ghost stale = |flow: Flow| !is_fresh(flow, now);
        let ghost socket_of = |flow: Flow| flow.socket;
        let mut kept: Vec<Flow> = Vec::new();
        let mut closed: Vec<u64> = Vec::new();
        let mut i: usize = 0;
        assert(self@.take(0) =~= Seq::<Flow>::empty());
        assert(closed@ =~= self@.take(0).filter(stale).map_values(socket_of));
        while i < self.flows.len()
            invariant
                i <= self.flows@.len(),
                self.flows@ == old(self)@,
                stale == |flow: Flow| !is_fresh(flow, now),
                socket_of == |flow: Flow| flow.socket,
                kept@ == self@.take(i as int).filter(fresh_at(now)),
                closed@ == self@.take(i as int).filter(stale).map_values(socket_of),
            decreases self.flows@.len() - i,
        {
            let flow = self.flows[i];
            proof {
                assert(self@.take(i + 1).drop_last() =~= self@.take(i as int));
                assert(self@.take(i + 1).last() == flow);
                reveal_with_fuel(Seq::filter, 2);
            }
            let ghost closed_before = closed@;
            if now <= flow.last_used || now - flow.last_used <= IDLE_LIMIT_MS {
                kept.push(flow);
            } else {
                closed.push(flow.socket);
                assert(closed@ =~= self@.take(i + 1).filter(stale).map_values(socket_of));
            }
            i += 1;
        }
        assert(self@.take(self@.len() as int) =~= self@);
        proof {
            lemma_filter_keeps_wf(old(self)@, old(self).next_socket(), now);
        }
        self.flows = kept;
        closed
    }

    /// Takes up a flow between `client` and `dest`, used at `now`, and hands
    /// out the number for its upstream socket. Where the flow is known, or the
    /// numbers have run out, nothing changes.
    pub fn open(&mut self, client: SocketAddress, dest: SocketAddress, now: u64) -> (r: Option<u64>)
        requires
            old(self).wf(),
        ensures
            final(self).wf(),
            match r {
                Some(socket) => socket == old(self).next_socket() && final(self)@ == old(
                    self,
                )@.push(Flow { client, dest, socket, last_used: now }),
                None => final(self)@ == old(self)@ && final(self).next_socket() == old(
                    self,
                ).next_socket() && (old(self).next_socket() == u64::MAX || exists|i: int|
                    0 <= i < old(self)@.len() && is_between(#[trigger] old(self)@[i], client, dest)),
            },
    {
        if self.next_socket == u64::MAX {
            return None;
        }
        match self.position(&client, &dest) {
            Some(_) => None,
            None => {
                let socket = self.next_socket;
                self.flows.push(Flow { client, dest, socket, last_used: now });
                self.next_socket = socket + 1;
                Some(socket)
            },
        }
    }

    /// Notes that the flow between `client` and `dest` was used at `now`.
    pub fn touch(&mut self, client: &SocketAddress, dest: &SocketAddress, now: u64) -> (r: Option<u64>)
        requires
            old(self).wf(),
        ensures
            final(self).wf(),
            final(self).next_socket() == old(self).next_socket(),
            final(self)@.len() == old(self)@.len(),
            match r {
                Some(socket) => exists|i: int|
                    0 <= i < old(self)@.len() && is_between(#[trigger] old(self)@[i], *client, *dest)
                        && old(self)@[i].socket == socket && final(self)@ == old(self)@.update(
                        i,
                        Flow { client: *client, dest: *dest, socket, last_used: now },
                    ),
                None => final(self)@ == old(self)@ && forall|i: int|
                    0 <= i < old(self)@.len() ==> !is_between(
                        #[trigger] old(self)@[i],
                        *client,
                        *dest,
                    ),
            },
    {
        match self.position(client, dest) {
            Some(i) => {
                let socket = self.flows[i].socket;
                self.flows[i] = Flow { client: *client, dest: *dest, socket, last_used: now };
                assert(self@ =~= old(self)@.update(
                    i as int,
                    Flow { client: *client, dest: *dest, socket, last_used: now },
                ));
                Some(socket)
            },
            None => None,
        }
    }

    /// Decides what is done with a datagram that `client_addr` sent to the
    /// relay at `now`: one that cannot be read is dropped, one of a known flow
    /// goes out through the socket of the flow, and any other opens a flow.
    pub fn handle_udp_packet(&mut self, client_addr: SocketAddress, datagram: &[u8], now: u64) -> (r:
        UdpAction)
        requires
            old(self).wf(),
        ensures
            final(self).wf(),
            match udp_msg_of(datagram@) {
                None => r == UdpAction::Drop && final(self)@ == old(self)@,
                Some((dest, payload)) => match r {
                    UdpAction::Forward { socket, dest: to, payload: data } => to == dest && data@
                        == payload && exists|i: int|
                        0 <= i < old(self)@.len() && is_between(
                            #[trigger] old(self)@[i],
                            client_addr,
                            dest,
                        ) && old(self)@[i].socket == socket && final(self)@ == old(self)@.update(
                            i,
                            Flow { client: client_addr, dest, socket, last_used: now },
                        ),
                    UdpAction::Open { socket, dest: to, payload: data } => to == dest && data@
                        == payload && socket == old(self).next_socket() && final(self)@ == old(
                        self,
                    )@.push(Flow { client: client_addr, dest, socket, last_used: now }) && forall|
                        i: int,
                    |
                        0 <= i < old(self)@.len() ==> !is_between(
                            #[trigger] old(self)@[i],
                            client_addr,
                            dest,
                        ),
                    UdpAction::Drop => final(self)@ == old(self)@ && old(self).next_socket()
                        == u64::MAX && forall|i: int|
                        0 <= i < old(self)@.len() ==> !is_between(
                            #[trigger] old(self)@[i],
                            client_addr,
                            dest,
                        ),
                },
            },
    {
        match parse_udp_msg(datagram) {
            None => UdpAction::Drop,
            Some((dest, data)) => {
                let payload = crate::bytes::copy_all(data);
                match self.touch(&client_addr, &dest, now) {
                    Some(socket) => UdpAction::Forward { socket, dest, payload },
                    None => match self.open(client_addr, dest, now) {
                        Some(socket) => UdpAction::Open { socket, dest, payload },
                        None => UdpAction::Drop,
                    },
                }
            },
        }
    }
}

/// What stays of a well-formed table after the stale flows are gone is well formed.
proof fn lemma_filter_keeps_wf(flows: Seq<Flow>, next_socket: u64, now: u64)
    requires
        flows_wf(flows, next_socket),
    ensures
        flows_wf(flows.filter(fresh_at(now)), next_socket),
    decreases flows.len(),
{
    reveal_with_fuel(Seq::filter, 2);
    if flows.len() > 0 {
        let rest = flows.drop_last();
        lemma_filter_keeps_wf(rest, next_socket, now);
        let kept = rest.filter(fresh_at(now));
        assert forall|k: int| 0 <= k < kept.len() implies rest.contains(#[trigger] kept[k]) by {
            rest.lemma_filter_contains_rev(fresh_at(now), kept[k]);
        }
        let all = flows.filter(fresh_at(now));
        if is_fresh(flows.last(), now) {
            assert(all =~= kept.push(flows.last()));
            assert forall|i: int, j: int| 0 <= i < j < all.len() implies !is_between(
                #[trigger] all[i],
                (#[trigger] all[j]).client,
                all[j].dest,
            ) && all[i].socket != all[j].socket by {
                if j == all.len() - 1 {
                    assert(rest.contains(kept[i]));
                    let m = choose|m: int| 0 <= m < rest.len() && rest[m] == kept[i];
                    assert(flows[m] == kept[i]);
                }
            }
        } else {
            assert(all =~= kept);
        }
    }
}

/// Two flows of a well-formed table that are not between the same two
/// addresses use different upstream sockets.
pub proof fn lemma_flows_are_isolated(flows: Seq<Flow>, next_socket: u64, i: int, j: int)
    requires
        flows_wf(flows, next_socket),
        0 <= i < flows.len(),
        0 <= j < flows.len(),
        !is_between(flows[i], flows[j].client, flows[j].dest),
    ensures
        flows[i].socket != flows[j].socket,
{
    if i < j {
    } else if j < i {
    }
}

} // verus!
