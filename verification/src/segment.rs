//! Cutting a client's packet into parts that are sent one by one, with fake
//! packets queued behind them.

use crate::bytes::{copy_all, copy_range};
use vstd::prelude::*;

verus! {

/// What the splitter is asked to do.
#[derive(Debug, Clone, PartialEq)]
pub struct Config {
    pub split_sni: bool,
    pub split_certificate: bool,
    pub split_offset: u8,
    pub raw_socket_mss: u16,
    pub out_of_band_byte: u8,
    pub out_of_band: bool,
    pub disorder_corrupt_ttl: bool,
    pub disorder_fake_packet: bool,
    pub fake_default_ttl: u8,
    pub fake_bad_sequence_num: bool,
    pub fake_bad_sequence_increment: i16,
    pub fake_bad_md5_sign: bool,
    pub fake_packet_mss: u16,
    pub fake_generate_clienthello: bool,
    pub fake_generate_serverhello: bool,
    pub fake_generate_sack: bool,
    pub fake_generate_handshake: bool,
    pub fake_generate_certificate: bool,
    pub fake_packet_certificate: Vec<u8>,
    pub fake_packet_clienthello: Vec<u8>,
    pub fake_sni_clienthello: Vec<u8>,
    pub fake_certificate_common: Vec<u8>,
    pub fake_serverhello: Vec<u8>,
    pub fake_sack: Vec<u8>,
    pub fake_quic_initial: Vec<u8>,
    pub fake_udp_datagram: Vec<u8>,
    pub http_host_random_case: bool,
    pub http_host_spelling: String,
    pub http_domain_random_case: bool,
    pub autocorrupt_url: String,
    pub server_drop_if_autocorrupt: bool,
}

/// One packet to be sent: its body, and how it is sent.
#[derive(Debug, Clone, PartialEq)]
pub struct Packet {
    pub raw_body: Vec<u8>,
    pub time_to_live: u8,
    pub is_udp: bool,
    pub is_out_of_band: bool,
    pub synchronize_mss: u16,
}

/// The parts of a packet, and the packets that are sent after them.
#[derive(Debug, Clone, PartialEq)]
pub struct PacketAbstraction {
    pub split_parts: Vec<Packet>,
    pub send_after_inbound: Vec<Packet>,
}

/// A packet over sequences.
pub ghost struct PacketView {
    pub raw_body: Seq<u8>,
    pub time_to_live: u8,
    pub is_udp: bool,
    pub is_out_of_band: bool,
    pub synchronize_mss: u16,
}

impl View for Packet {
    type V = PacketView;

    open spec fn view(&self) -> PacketView {
        PacketView {
            raw_body: self.raw_body@,
            time_to_live: self.time_to_live,
            is_udp: self.is_udp,
            is_out_of_band: self.is_out_of_band,
            synchronize_mss: self.synchronize_mss,
        }
    }
}

/// The views of a list of packets.
pub open spec fn packets_view(packets: Seq<Packet>) -> Seq<PacketView> {
    Seq::new(packets.len(), |i: int| packets[i]@)
}

/// A TCP packet with the given body.
pub open spec fn tcp_packet(body: Seq<u8>, ttl: u8, out_of_band: bool, mss: u16) -> PacketView {
    PacketView {
        raw_body: body,
        time_to_live: ttl,
        is_udp: false,
        is_out_of_band: out_of_band,
        synchronize_mss: mss,
    }
}

impl Packet {
    /// A packet without a body, with the maximum segment size 1500.
    pub fn new(default_ttl: u8, is_udp: bool, is_out_of_band: bool) -> (packet: Packet)
        ensures
            packet@ == (PacketView {
                raw_body: Seq::<u8>::empty(),
                time_to_live: default_ttl,
                is_udp,
                is_out_of_band,
                synchronize_mss: 1500,
            }),
    {
        Packet {
            raw_body: Vec::new(),
            time_to_live: default_ttl,
            is_udp,
            is_out_of_band,
            synchronize_mss: 1500,
        }
    }

    /// Appends a byte to the body, and gives it back.
    pub fn push(&mut self, hex_byte: u8) -> (r: u8)
        ensures
            r == hex_byte,
            final(self)@ == (PacketView { raw_body: old(self)@.raw_body.push(hex_byte), ..old(self)@ }),
    {
        self.raw_body.push(hex_byte);
        hex_byte
    }

    /// Sets the maximum segment size.
    pub fn set_mss(&mut self, mss: u16)
        ensures
            final(self)@ == (PacketView { synchronize_mss: mss, ..old(self)@ }),
    {
        self.synchronize_mss = mss;
    }
}

/// Where the server name is taken to end: 46 bytes in, moved by the offset.
pub open spec fn sni_cut(config: Config) -> int {
    43 + 3 + config.split_offset
}

/// Where the certificate is taken to start: 32 bytes in, moved by the offset.
pub open spec fn certificate_cut(config: Config) -> int {
    32 + config.split_offset
}

/// Where the packet is cut: behind the server name where that is asked for,
/// else before the certificate where that is asked for, else not at all.
pub open spec fn cut_of(config: Config, len: int) -> int {
    let cut = if config.split_sni {
        sni_cut(config)
    } else if config.split_certificate {
        certificate_cut(config)
    } else {
        0
    };
    if cut < len {
        cut
    } else {
        len
    }
}

/// A part counts as sent where the low eight bits of its length are not zero.
pub open spec fn counts(body: Seq<u8>) -> bool {
    body.len() % 256 != 0
}

/// The parts of the packet that are sent: what lies before the cut and what
/// lies behind it, each where it counts, with the hop limit 100 and the
/// configured segment size.
pub open spec fn parts_of(packet: Seq<u8>, config: Config) -> Seq<PacketView> {
    let cut = cut_of(config, packet.len() as int);
    let head = packet.take(cut);
    let tail = packet.skip(cut);
    (if counts(head) {
        seq![tcp_packet(head, 100, false, config.raw_socket_mss)]
    } else {
        Seq::empty()
    }) + (if counts(tail) {
        seq![tcp_packet(tail, 100, false, config.raw_socket_mss)]
    } else {
        Seq::empty()
    })
}

/// The parts as they are sent: the first with the hop limit one where
/// disorder is asked for.
pub open spec fn sent_parts(packet: Seq<u8>, config: Config) -> Seq<PacketView> {
    let parts = parts_of(packet, config);
    if config.disorder_corrupt_ttl && parts.len() > 0 {
        parts.update(0, PacketView { time_to_live: 1, ..parts[0] })
    } else {
        parts
    }
}

/// A fake packet with the given body.
pub open spec fn fake_of(config: Config, body: Seq<u8>, out_of_band: bool) -> PacketView {
    tcp_packet(body, config.fake_default_ttl, out_of_band, config.fake_packet_mss)
}

/// The fakes that are queued behind the parts of a packet that starts with
/// the byte `first`: a fake server name and a fake certificate where fakes
/// are asked for along with the respective cut, a fake ClientHello behind a
/// handshake record, a fake ServerHello behind a record of type one, and the
/// out-of-band byte behind a first byte up to 0x16.
pub open spec fn fakes_of(config: Config, first: u8) -> Seq<PacketView> {
    (if config.disorder_fake_packet && config.split_sni {
        seq![fake_of(config, config.fake_sni_clienthello@, false)]
    } else {
        Seq::empty()
    }) + (if config.disorder_fake_packet && config.split_certificate {
        seq![fake_of(config, config.fake_certificate_common@, false)]
    } else {
        Seq::empty()
    }) + (if config.fake_generate_clienthello && first == 0x16 {
        seq![fake_of(config, config.fake_packet_clienthello@, false)]
    } else {
        Seq::empty()
    }) + (if config.fake_generate_serverhello && first == 0x01 {
        seq![fake_of(config, config.fake_serverhello@, false)]
    } else {
        Seq::empty()
    }) + (if config.out_of_band && first <= 0x16 {
        seq![fake_of(config, seq![config.out_of_band_byte], true)]
    } else {
        Seq::empty()
    })
}

/// The splitter looks at the first part of the packet.
pub open spec fn looks_at_first_part(config: Config) -> bool {
    config.disorder_corrupt_ttl || config.fake_generate_clienthello
        || config.fake_generate_serverhello || config.out_of_band
}

/// A fake packet with the given body.
fn fake_packet(config: &Config, body: &Vec<u8>, out_of_band: bool) -> (packet: Packet)
    ensures
        packet@ == fake_of(*config, body@, out_of_band),
{
    Packet {
        raw_body: copy_all(body.as_slice()),
        time_to_live: config.fake_default_ttl,
        is_udp: false,
        is_out_of_band: out_of_band,
        synchronize_mss: config.fake_packet_mss,
    }
}

/// A part of the packet.
fn part_of(config: &Config, body: Vec<u8>) -> (packet: Packet)
    ensures
        packet@ == tcp_packet(body@, 100, false, config.raw_socket_mss),
{
    Packet {
        raw_body: body,
        time_to_live: 100,
        is_udp: false,
        is_out_of_band: false,
        synchronize_mss: config.raw_socket_mss,
    }
}

/// The parts of the packet that are sent.
fn cut_parts(packet: &Vec<u8>, config: &Config) -> (parts: Vec<Packet>)
    requires
        config.split_offset <= 209,
    ensures
        packets_view(parts@) == parts_of(packet@, *config),
{
    let len: usize = packet.len();
    let wanted: usize = if config.split_sni {
        43 + 3 + config.split_offset as usize
    } else if config.split_certificate {
        32 + config.split_offset as usize
    } else {
        0
    };
    let cut: usize = if wanted < len {
        wanted
    } else {
        len
    };
    assert(cut == cut_of(*config, len as int));
    let head = copy_range(packet.as_slice(), 0, cut);
    let tail = copy_range(packet.as_slice(), cut, len);
    assert(head@ =~= packet@.take(cut as int));
    assert(tail@ =~= packet@.skip(cut as int));
    let mut parts: Vec<Packet> = Vec::new();
    if head.len() % 256 != 0 {
        parts.push(part_of(config, head));
    }
    if tail.len() % 256 != 0 {
        parts.push(part_of(config, tail));
    }
    assert(packets_view(parts@) =~= parts_of(packet@, *config));
    parts
}

/// Appends a fake packet where it is asked for.
fn queue_fake(queue: &mut Vec<Packet>, asked: bool, config: &Config, body: &Vec<u8>, out_of_band: bool)
    ensures
        packets_view(final(queue)@) == packets_view(old(queue)@) + if asked {
            seq![fake_of(*config, body@, out_of_band)]
        } else {
            Seq::<PacketView>::empty()
        },
{
    if asked {
        queue.push(fake_packet(config, body, out_of_band));
        assert(packets_view(queue@) =~= packets_view(old(queue)@) + seq![
            fake_of(*config, body@, out_of_band),
        ]);
    } else {
        assert(packets_view(queue@) =~= packets_view(old(queue)@) + Seq::<PacketView>::empty());
    }
}

/// The fakes that are queued behind the parts of a packet that starts with
/// the byte `first`.
fn queue_fakes(config: &Config, first: u8) -> (queue: Vec<Packet>)
    ensures
        packets_view(queue@) == fakes_of(*config, first),
{
    let mut queue: Vec<Packet> = Vec::new();
    assert(packets_view(queue@) =~= Seq::<PacketView>::empty());
    queue_fake(
        &mut queue,
        config.disorder_fake_packet && config.split_sni,
        config,
        &config.fake_sni_clienthello,
        false,
    );
    queue_fake(
        &mut queue,
        config.disorder_fake_packet && config.split_certificate,
        config,
        &config.fake_certificate_common,
        false,
    );
    queue_fake(
        &mut queue,
        config.fake_generate_clienthello && first == 0x16,
        config,
        &config.fake_packet_clienthello,
        false,
    );
    queue_fake(
        &mut queue,
        config.fake_generate_serverhello && first == 0x01,
        config,
        &config.fake_serverhello,
        false,
    );
    let mut byte: Vec<u8> = Vec::new();
    byte.push(config.out_of_band_byte);
    assert(byte@ =~= seq![config.out_of_band_byte]);
    queue_fake(&mut queue, config.out_of_band && first <= 0x16, config, &byte, true);
    assert(packets_view(queue@) =~= fakes_of(*config, first));
    queue
}

/// The first byte of the first part that is sent, and zero where no part is
/// sent.
pub open spec fn first_byte(packet: Seq<u8>, config: Config) -> u8 {
    if sent_parts(packet, config).len() > 0 {
        sent_parts(packet, config)[0].raw_body[0]
    } else {
        0u8
    }
}

/// Cuts a client's packet in parts and queues the fakes behind them. The
/// offset must leave the cut inside a byte, and a splitter that looks at the
/// first part must be given a packet of which a part counts.
pub fn split_packet_tcp(packet: Vec<u8>, config: Config) -> (r: PacketAbstraction)
    requires
        config.split_offset <= 209,
        looks_at_first_part(config) ==> parts_of(packet@, config).len() > 0,
    ensures
        packets_view(r.split_parts@) == sent_parts(packet@, config),
        packets_view(r.send_after_inbound@) == fakes_of(config, first_byte(packet@, config)),
{
    let mut split_parts = cut_parts(&packet, &config);
    if config.disorder_corrupt_ttl {
        split_parts[0].time_to_live = 1;
    }
    assert(packets_view(split_parts@) =~= sent_parts(packet@, config));
    let first: u8 = if split_parts.len() > 0 {
        assert(packets_view(split_parts@)[0] == split_parts@[0]@);
        assert(counts(split_parts@[0]@.raw_body));
        split_parts[0].raw_body[0]
    } else {
        0
    };
    let send_after_inbound = queue_fakes(&config, first);
    PacketAbstraction { split_parts, send_after_inbound }
}

/// Whether the bytes of `needle` from `i` on occur in `hay` from `j` on, in
/// their order, with any bytes between them.
pub open spec fn occurs_in_order(needle: Seq<u8>, hay: Seq<u8>, i: int, j: int) -> bool
    decreases hay.len() - j,
{
    if i < 0 || j < 0 || i >= needle.len() {
        true
    } else if j >= hay.len() {
        false
    } else if hay[j] == needle[i] {
        occurs_in_order(needle, hay, i + 1, j + 1)
    } else {
        occurs_in_order(needle, hay, i, j + 1)
    }
}

/// Whether the bytes of `needle` occur in `hay`, in their order.
pub fn scattered_in(needle: &[u8], hay: &[u8]) -> (r: bool)
    ensures
        r == occurs_in_order(needle@, hay@, 0, 0),
{
    let mut i: usize = 0;
    let mut j: usize = 0;
    while i < needle.len() && j < hay.len()
        invariant
            i <= needle@.len(),
            j <= hay@.len(),
            occurs_in_order(needle@, hay@, 0, 0) == occurs_in_order(
                needle@,
                hay@,
                i as int,
                j as int,
            ),
        decreases hay@.len() - j,
    {
        if hay[j] == needle[i] {
            i += 1;
        }
        j += 1;
    }
    i >= needle.len()
}

/// The hop limit of a message from the server: zero where it is to be
/// dropped because the watched address occurs scattered in it, else 100.
pub open spec fn inbound_ttl(packet: Seq<u8>, config: Config) -> u8 {
    if config.server_drop_if_autocorrupt && occurs_in_order(
        vstd::utf8::encode_utf8(config.autocorrupt_url@),
        packet,
        0,
        0,
    ) {
        0u8
    } else {
        100u8
    }
}

/// A fake that answers a message from the server: with the hop limit one and
/// the configured segment size of the socket.
pub open spec fn answer_of(config: Config, body: Seq<u8>) -> PacketView {
    tcp_packet(body, 1, false, config.raw_socket_mss)
}

/// The fakes that are queued behind a message from the server: a fake
/// selective acknowledgement behind a message of type two and a fake
/// handshake behind one of type three, each where it is asked for and has a
/// body.
pub open spec fn answers_of(packet: Seq<u8>, config: Config) -> Seq<PacketView> {
    (if packet[0] == 0x02 && config.fake_generate_sack && config.fake_sack@.len() != 0 {
        seq![answer_of(config, config.fake_sack@)]
    } else {
        Seq::empty()
    }) + (if packet[0] == 0x03 && config.fake_generate_handshake
        && config.fake_packet_certificate@.len() != 0 {
        seq![answer_of(config, config.fake_packet_certificate@)]
    } else {
        Seq::empty()
    })
}

/// Appends an answer where it is asked for and has a body.
fn queue_answer(queue: &mut Vec<Packet>, asked: bool, config: &Config, body: &Vec<u8>)
    ensures
        packets_view(final(queue)@) == packets_view(old(queue)@) + if asked && body@.len() != 0 {
            seq![answer_of(*config, body@)]
        } else {
            Seq::<PacketView>::empty()
        },
{
    if asked && body.len() != 0 {
        queue.push(
            Packet {
                raw_body: copy_all(body.as_slice()),
                time_to_live: 1,
                is_udp: false,
                is_out_of_band: false,
                synchronize_mss: config.raw_socket_mss,
            },
        );
        assert(packets_view(queue@) =~= packets_view(old(queue)@) + seq![
            answer_of(*config, body@),
        ]);
    } else {
        assert(packets_view(queue@) =~= packets_view(old(queue)@) + Seq::<PacketView>::empty());
    }
}

/// Takes a message from the server: it is passed on whole, with the hop
/// limit zero where it is to be dropped, and fakes are queued behind it. The
/// message must not be empty.
pub fn process_server_message_tcp(packet: Vec<u8>, config: Config) -> (r: PacketAbstraction)
    requires
        packet@.len() > 0,
    ensures
        packets_view(r.split_parts@) == seq![
            tcp_packet(packet@, inbound_ttl(packet@, config), false, 1500),
        ],
        packets_view(r.send_after_inbound@) == answers_of(packet@, config),
{
    let mut server_packet: Packet = Packet::new(100, false, false);
    server_packet.raw_body = copy_all(packet.as_slice());
    let mut send_after_inbound: Vec<Packet> = Vec::new();
    assert(packets_view(send_after_inbound@) =~= Seq::<PacketView>::empty());
    queue_answer(
        &mut send_after_inbound,
        packet[0] == 0x02 && config.fake_generate_sack,
        &config,
        &config.fake_sack,
    );
    queue_answer(
        &mut send_after_inbound,
        packet[0] == 0x03 && config.fake_generate_handshake,
        &config,
        &config.fake_packet_certificate,
    );
    assert(packets_view(send_after_inbound@) =~= answers_of(packet@, config));
    if config.server_drop_if_autocorrupt {
        if scattered_in(config.autocorrupt_url.as_str().as_bytes(), packet.as_slice()) {
            server_packet.time_to_live = 0;
        }
    }
    let mut split_parts: Vec<Packet> = Vec::new();
    split_parts.push(server_packet);
    assert(packets_view(split_parts@) =~= seq![
        tcp_packet(packet@, inbound_ttl(packet@, config), false, 1500),
    ]);
    PacketAbstraction { split_parts, send_after_inbound }
}

} // verus!
