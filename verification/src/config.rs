//! The configuration snapshot that every connection works from.

use vstd::prelude::*;

verus! {

/// The transport a strategy may be restricted to.
#[derive(Debug, Clone, Copy, PartialEq, Eq, Structural)]
pub enum NetworkProtocol {
    UDP,
    TCP,
}

/// How an entry of a server-name list is to be read.
#[derive(Debug, Clone, Copy, PartialEq, Eq, Structural)]
pub enum WhiteListedSNI {
    Domain,
    Path,
    File,
}

/// One entry of a server-name list.
#[derive(Debug, Clone, PartialEq)]
pub struct WhiteListedSNIWrapper {
    pub list: WhiteListedSNI,
    pub value: String,
}

/// Where the proxy listens and which interfaces outbound sockets are bound to.
#[derive(Debug, Clone, PartialEq)]
pub struct BindOptions {
    pub bind_host: String,
    pub bind_port: u16,
    pub iface_ipv4: String,
    pub iface_ipv6: String,
    pub bind_iface_mtu: u32,
    pub bind_iface_ipv4: String,
    pub bind_iface_ipv6: String,
}

/// What a fake packet holds and how it is sent.
#[derive(Debug, Clone, PartialEq)]
pub struct FakePacketOptions {
    pub fake_packet_ttl: u8,
    pub fake_packet_sni: String,
    pub fake_as_oob: bool,
    pub fake_packet_send_http: bool,
    pub fake_packet_host: String,
    pub fake_packet_override_data: Option<Vec<u8>>,
    pub fake_packet_double: bool,
    pub fake_packet_reversed: bool,
    pub fake_packet_random: bool,
    pub fake_clienthello: bool,
    pub fake_clienthello_sni: String,
}

/// Socket buffer sizes and timing.
#[derive(Debug, Clone, PartialEq)]
pub struct SocketOptions {
    pub so_recv_size: usize,
    pub so_send_size: usize,
    pub so_opt_cutoff: u64,
    pub so_l7_packet_jitter_max: u64,
    pub so_disable_sack: bool,
    pub so_oob_streamhell_data: String,
}

/// The independent ways of mangling an HTTP `Host:` header.
#[derive(Debug, Clone, Copy, PartialEq, Eq, Structural)]
pub struct HttpOptions {
    pub http_host_cmix: bool,
    pub http_host_rmspace: bool,
    pub http_host_space: bool,
    pub http_domain_cmix: bool,
}

/// Hop limits and the out-of-band marker byte.
#[derive(Debug, Clone, Copy, PartialEq, Eq, Structural)]
pub struct DesyncOptions {
    pub disorder_packet_ttl: u8,
    pub default_ttl: u8,
    pub out_of_band_charid: u8,
    pub packet_hop: u64,
}

/// What a router rule is matched against.
#[derive(Debug, Clone, Copy, PartialEq, Eq, Structural)]
pub enum RouterRuleScope {
    DnsQuery,
    SNI,
    IP,
}

/// What a router rule does when it matches.
#[derive(Debug, Clone, Copy, PartialEq, Eq, Structural)]
pub enum RouterRuleType {
    Forward,
    FakeDNS,
}

/// One routing rule, as written in the configuration.
#[derive(Debug, Clone, PartialEq)]
pub struct RouterRule {
    pub scope: RouterRuleScope,
    pub rule_type: RouterRuleType,
    pub rule_match: String,
    pub action: String,
}

/// One rewrite rule: a pattern and its replacement, both as pattern text.
#[derive(Debug, Clone, PartialEq)]
pub struct PatternRule {
    pub pattern: String,
    pub replacement: String,
}

/// The routing rules, in declaration order.
#[derive(Debug, Clone, PartialEq)]
pub struct RouterOptions {
    pub rules: Vec<RouterRule>,
}

/// The rewrite rules, in declaration order.
#[derive(Debug, Clone, PartialEq)]
pub struct PatternOptions {
    pub patterns: Vec<PatternRule>,
}

/// A DNS-over-HTTPS endpoint: a URL template with `{}` where the query goes.
#[derive(Debug, Clone, PartialEq)]
pub struct DohServer {
    pub url: String,
}

/// Name resolution settings.
#[derive(Debug, Clone, PartialEq)]
pub struct DnsOptions {
    pub integrated_doh_enabled: bool,
    pub doh_servers: Vec<DohServer>,
}

/// An inclusive port range whose upper end may be left open.
#[derive(Debug, Clone, Copy, PartialEq, Eq, Structural)]
pub struct WeakRange {
    pub start: u16,
    pub end: Option<u16>,
}

/// The desynchronisation methods.
#[derive(Debug, Clone, Copy, PartialEq, Eq, Structural)]
pub enum Strategies {
    NONE,
    SPLIT,
    DISORDER,
    FAKE,
    FAKEMD,
    FAKESURROUND,
    FAKE2DISORDER,
    FAKE2INSERT,
    DISORDER2,
    OOB2,
    OOB,
    DISOOB,
    OOBSTREAMHELL,
    MELTDOWN,
    TRAIL,
    MELTDOWNUDP,
    FRAGTLS,
}

/// The server names a strategy is restricted to; empty means no restriction.
#[derive(Debug, Clone, Default, PartialEq)]
pub struct FilterSniList {
    pub items: Vec<WhiteListedSNIWrapper>,
}

/// One configured strategy: the method, where it splits, and when it applies.
#[derive(Debug, Clone, PartialEq)]
pub struct Strategy {
    pub method: Strategies,
    pub base_index: i64,
    pub add_sni: bool,
    pub add_host: bool,
    pub subtract: bool,
    pub filter_protocol: Option<NetworkProtocol>,
    pub filter_port: Option<WeakRange>,
    pub filter_sni: FilterSniList,
}

/// The whole configuration.
#[derive(Debug, Clone, PartialEq)]
pub struct AuxConfig {
    pub bind_options: BindOptions,
    pub fake_packet_options: FakePacketOptions,
    pub socket_options: SocketOptions,
    pub http_options: HttpOptions,
    pub desync_options: DesyncOptions,
    pub dns_options: DnsOptions,
    pub router_options: RouterOptions,
    pub pattern_options: PatternOptions,
    pub whitelist_sni: bool,
    pub whitelist_sni_list: Vec<WhiteListedSNIWrapper>,
    pub strategies: Vec<Option<Strategy>>,
}

/// The default for the host to listen on.
pub fn default_bind_host() -> (r: String)
    ensures
        r@ == "127.0.0.1"@,
{
    "127.0.0.1".to_owned()
}

/// The default for the port to listen on.
pub fn default_bind_port() -> (r: u16)
    ensures
        r == 443,
{
    443
}

/// The default for the interface to bind sockets to.
pub fn default_bind_iface() -> (r: String)
    ensures
        r@ == "default"@,
{
    "default".to_owned()
}

/// The default for the MTU of the interface.
pub fn default_bind_iface_mtu() -> (r: u32)
    ensures
        r == 1500,
{
    1500
}

/// The default for the IPv4 address of the interface.
pub fn default_bind_iface_ipv4() -> (r: String)
    ensures
        r@ == "0.0.0.0"@,
{
    "0.0.0.0".to_owned()
}

/// The default for the IPv6 address of the interface.
pub fn default_bind_iface_ipv6() -> (r: String)
    ensures
        r@ == "::"@,
{
    "::".to_owned()
}

/// The default for the hop limit of fake packets.
pub fn default_fake_packet_ttl() -> (r: u8)
    ensures
        r == 64,
{
    64
}

/// The default for the server name of fake packets.
pub fn default_fake_packet_sni() -> (r: String)
    ensures
        r@ == "yandex.ru"@,
{
    "yandex.ru".to_owned()
}

/// The default for the host of fake HTTP requests.
pub fn default_fake_packet_host() -> (r: String)
    ensures
        r@ == "yandex.ru"@,
{
    "yandex.ru".to_owned()
}

/// The default for the server name of the fake ClientHello.
pub fn default_fake_clienthello_sni() -> (r: String)
    ensures
        r@ == "yandex.ru"@,
{
    "yandex.ru".to_owned()
}

/// The default for the stream of urgent bytes.
pub fn default_oob_streamhell_data() -> (r: String)
    ensures
        r@ == "yandex.ru"@,
{
    "yandex.ru".to_owned()
}

/// The default for the hop limit of disordered packets.
pub fn default_disorder_packet_ttl() -> (r: u8)
    ensures
        r == 8,
{
    8
}

/// The default for the out-of-band marker byte.
pub fn default_out_of_band_charid() -> (r: u8)
    ensures
        r == 23,
{
    23
}

/// The default for the size of the receive buffer.
pub fn default_so_recv_size() -> (r: usize)
    ensures
        r == 65535,
{
    65535
}

/// The default for the size of the send buffer.
pub fn default_so_send_size() -> (r: usize)
    ensures
        r == 65535,
{
    65535
}

/// The default for the desynchronisation cutoff in milliseconds.
pub fn default_so_opt_cutoff() -> (r: u64)
    ensures
        r == 200,
{
    200
}

/// The default for the hop limit of ordinary writes.
pub fn default_default_ttl() -> (r: u8)
    ensures
        r == 4,
{
    4
}

/// The default for the cap on transformed chunks.
pub fn default_packet_hop() -> (r: u64)
    ensures
        r == 3,
{
    3
}

/// The default for the largest jitter in milliseconds.
pub fn default_l7_packet_jitter_max() -> (r: u64)
    ensures
        r == 0,
{
    0
}

/// The default for whether the server-name list is used.
pub fn default_whitelist_sni() -> (r: bool)
    ensures
        r,
{
    true
}

/// An entry of kind `Domain` for the given name.
pub fn domain_entry(name: &str) -> (r: WhiteListedSNIWrapper)
    ensures
        r.list == WhiteListedSNI::Domain,
        r.value@ == name@,
{
    WhiteListedSNIWrapper { list: WhiteListedSNI::Domain, value: name.to_owned() }
}

/// The server names that are desynchronised when nothing else is configured.
pub fn whitelist_sni_list() -> (r: Vec<WhiteListedSNIWrapper>)
    ensures
        r@.len() == 3,
        forall|i: int| 0 <= i < 3 ==> (#[trigger] r@[i]).list == WhiteListedSNI::Domain,
        r@[0].value@ == "discord.com"@,
        r@[1].value@ == "youtube.com"@,
        r@[2].value@ == "googlevideo.com"@,
{
    let mut list: Vec<WhiteListedSNIWrapper> = Vec::new();
    list.push(domain_entry("discord.com"));
    list.push(domain_entry("youtube.com"));
    list.push(domain_entry("googlevideo.com"));
    list
}

/// The default for the data that overrides fake packets.
pub fn default_fake_packet_override_data() -> (r: Option<Vec<u8>>)
    ensures
        r is None,
{
    None
}

/// The default for whether the integrated resolver is used.
pub fn default_integrated_doh_enabled() -> (r: bool)
    ensures
        r,
{
    true
}

/// The default for the rewrite rules.
pub fn default_patterns() -> (r: Vec<PatternRule>)
    ensures
        r@.len() == 0,
{
    Vec::new()
}

/// The default for the routing rules.
pub fn default_rules() -> (r: Vec<RouterRule>)
    ensures
        r@.len() == 0,
{
    Vec::new()
}

/// The default for the DNS-over-HTTPS endpoints.
pub fn default_doh_servers() -> (r: Vec<DohServer>)
    ensures
        r@.len() == 0,
{
    Vec::new()
}

/// The endpoint for the given URL template.
pub fn doh_server(url: &str) -> (r: DohServer)
    ensures
        r.url@ == url@,
{
    DohServer { url: url.to_owned() }
}

/// The listener and interface settings of the default configuration.
pub open spec fn is_default_bind(b: BindOptions) -> bool {
    &&& b.bind_host@ == "127.0.0.1"@
    &&& b.bind_port == 443
    &&& b.iface_ipv4@ == "default"@
    &&& b.iface_ipv6@ == "default"@
    &&& b.bind_iface_mtu == 1500
    &&& b.bind_iface_ipv4@ == "0.0.0.0"@
    &&& b.bind_iface_ipv6@ == "::"@
}

/// The fake-packet settings of the default configuration.
pub open spec fn is_default_fake(f: FakePacketOptions) -> bool {
    &&& f.fake_packet_ttl == 64
    &&& f.fake_packet_sni@ == "yandex.ru"@
    &&& !f.fake_as_oob
    &&& !f.fake_packet_send_http
    &&& f.fake_packet_host@ == "yandex.ru"@
    &&& f.fake_packet_override_data is None
    &&& !f.fake_packet_double
    &&& !f.fake_packet_reversed
    &&& !f.fake_packet_random
    &&& !f.fake_clienthello
    &&& f.fake_clienthello_sni@ == "yandex.ru"@
}

/// The socket settings of the default configuration.
pub open spec fn is_default_socket(s: SocketOptions) -> bool {
    &&& s.so_recv_size == 65535
    &&& s.so_send_size == 65535
    &&& s.so_opt_cutoff == 200
    &&& s.so_l7_packet_jitter_max == 0
    &&& !s.so_disable_sack
    &&& s.so_oob_streamhell_data@ == "yandex.ru"@
}

/// The resolver settings of the default configuration.
pub open spec fn is_default_dns(d: DnsOptions) -> bool {
    &&& d.integrated_doh_enabled
    &&& d.doh_servers@.len() == 5
    &&& d.doh_servers@[0].url@ == "https://cloudflare-dns.com/dns-query?dns={}"@
    &&& d.doh_servers@[1].url@ == "https://mozilla.cloudflare-dns.com/dns-query?dns={}"@
    &&& d.doh_servers@[2].url@ == "https://dns.google/dns-query?dns={}"@
    &&& d.doh_servers@[3].url@ == "https://dns.quad9.net/dns-query?dns={}"@
    &&& d.doh_servers@[4].url@ == "https://freedns.controld.com/p0?dns={}"@
}

/// The one strategy of the default configuration: record fragmentation three
/// bytes into the server name, for TCP from port 442 upwards, on four domains.
pub open spec fn is_default_strategy(s: Strategy) -> bool {
    &&& s.method == Strategies::FRAGTLS
    &&& s.base_index == 3
    &&& s.add_sni
    &&& !s.add_host
    &&& !s.subtract
    &&& s.filter_port == Some(WeakRange { start: 442, end: None })
    &&& s.filter_protocol == Some(NetworkProtocol::TCP)
    &&& s.filter_sni.items@.len() == 4
    &&& forall|i: int| 0 <= i < 4 ==> (#[trigger] s.filter_sni.items@[i]).list == WhiteListedSNI::Domain
    &&& s.filter_sni.items@[0].value@ == "youtube.com"@
    &&& s.filter_sni.items@[1].value@ == "discord.com"@
    &&& s.filter_sni.items@[2].value@ == "discordapp.com"@
    &&& s.filter_sni.items@[3].value@ == "googlevideo.com"@
}

/// The configuration that is written out when none is found.
pub open spec fn is_default_config(c: AuxConfig) -> bool {
    &&& is_default_bind(c.bind_options)
    &&& is_default_dns(c.dns_options)
    &&& is_default_fake(c.fake_packet_options)
    &&& is_default_socket(c.socket_options)
    &&& c.router_options.rules@.len() == 1
    &&& c.router_options.rules@[0].scope == RouterRuleScope::SNI
    &&& c.router_options.rules@[0].rule_type == RouterRuleType::Forward
    &&& c.router_options.rules@[0].rule_match@ == "*.discord.com"@
    &&& c.router_options.rules@[0].action@ == "socks5 127.0.0.1:9050"@
    &&& c.http_options == (HttpOptions {
        http_host_cmix: false,
        http_host_rmspace: false,
        http_host_space: false,
        http_domain_cmix: false,
    })
    &&& c.desync_options == (DesyncOptions {
        disorder_packet_ttl: 8,
        default_ttl: 4,
        out_of_band_charid: 23,
        packet_hop: 3,
    })
    &&& c.pattern_options.patterns@.len() == 1
    &&& c.pattern_options.patterns@[0].pattern@ == "x796F75747562652E636F6D"@
    &&& c.pattern_options.patterns@[0].replacement@ == "x626C6F676765722E636F6D"@
    &&& c.whitelist_sni
    &&& c.whitelist_sni_list@.len() == 3
    &&& c.whitelist_sni_list@[0].value@ == "discord.com"@
    &&& c.whitelist_sni_list@[1].value@ == "youtube.com"@
    &&& c.whitelist_sni_list@[2].value@ == "googlevideo.com"@
    &&& c.strategies@.len() == 1
    &&& c.strategies@[0] is Some
    &&& is_default_strategy(c.strategies@[0]->0)
}

impl Default for AuxConfig {
    fn default() -> (r: Self)
        ensures
            is_default_config(r),
    {
        let mut doh_servers: Vec<DohServer> = Vec::new();
        doh_servers.push(doh_server("https://cloudflare-dns.com/dns-query?dns={}"));
        doh_servers.push(doh_server("https://mozilla.cloudflare-dns.com/dns-query?dns={}"));
        doh_servers.push(doh_server("https://dns.google/dns-query?dns={}"));
        doh_servers.push(doh_server("https://dns.quad9.net/dns-query?dns={}"));
        doh_servers.push(doh_server("https://freedns.controld.com/p0?dns={}"));

        let mut rules: Vec<RouterRule> = Vec::new();
        rules.push(
            RouterRule {
                scope: RouterRuleScope::SNI,
                rule_type: RouterRuleType::Forward,
                rule_match: "*.discord.com".to_owned(),
                action: "socks5 127.0.0.1:9050".to_owned(),
            },
        );

        let mut patterns: Vec<PatternRule> = Vec::new();
        patterns.push(
            PatternRule {
                pattern: "x796F75747562652E636F6D".to_owned(),
                replacement: "x626C6F676765722E636F6D".to_owned(),
            },
        );

        let mut filter: Vec<WhiteListedSNIWrapper> = Vec::new();
        filter.push(domain_entry("youtube.com"));
        filter.push(domain_entry("discord.com"));
        filter.push(domain_entry("discordapp.com"));
        filter.push(domain_entry("googlevideo.com"));

        let mut strategies: Vec<Option<Strategy>> = Vec::new();
        strategies.push(
            Some(
                Strategy {
                    method: Strategies::FRAGTLS,
                    base_index: 3,
                    add_sni: true,
                    add_host: false,
                    subtract: false,
                    filter_port: Some(WeakRange { start: 442, end: None }),
                    filter_protocol: Some(NetworkProtocol::TCP),
                    filter_sni: FilterSniList { items: filter },
                },
            ),
        );

        Self {
            bind_options: BindOptions {
                bind_host: default_bind_host(),
                bind_port: default_bind_port(),
                iface_ipv4: default_bind_iface(),
                iface_ipv6: default_bind_iface(),
                bind_iface_mtu: default_bind_iface_mtu(),
                bind_iface_ipv4: default_bind_iface_ipv4(),
                bind_iface_ipv6: default_bind_iface_ipv6(),
            },
            dns_options: DnsOptions {
                integrated_doh_enabled: default_integrated_doh_enabled(),
                doh_servers,
            },
            fake_packet_options: FakePacketOptions {
                fake_packet_ttl: default_fake_packet_ttl(),
                fake_packet_sni: default_fake_packet_sni(),
                fake_as_oob: false,
                fake_packet_send_http: false,
                fake_packet_host: default_fake_packet_host(),
                fake_packet_override_data: default_fake_packet_override_data(),
                fake_packet_double: false,
                fake_packet_reversed: false,
                fake_packet_random: false,
                fake_clienthello: false,
                fake_clienthello_sni: default_fake_clienthello_sni(),
            },
            socket_options: SocketOptions {
                so_recv_size: default_so_recv_size(),
                so_send_size: default_so_send_size(),
                so_opt_cutoff: default_so_opt_cutoff(),
                so_l7_packet_jitter_max: default_l7_packet_jitter_max(),
                so_disable_sack: false,
                so_oob_streamhell_data: default_oob_streamhell_data(),
            },
            router_options: RouterOptions { rules },
            http_options: HttpOptions {
                http_host_cmix: false,
                http_host_rmspace: false,
                http_host_space: false,
                http_domain_cmix: false,
            },
            desync_options: DesyncOptions {
                disorder_packet_ttl: default_disorder_packet_ttl(),
                default_ttl: default_default_ttl(),
                out_of_band_charid: default_out_of_band_charid(),
                packet_hop: default_packet_hop(),
            },
            pattern_options: PatternOptions { patterns },
            whitelist_sni: default_whitelist_sni(),
            whitelist_sni_list: whitelist_sni_list(),
            strategies,
        }
    }
}

/// The command line: one positional argument, the path of the configuration.
#[derive(Debug, Clone, PartialEq)]
pub struct Args {
    pub config: String,
}

impl Args {
    /// Reads the command line, the name of the program first: the first
    /// argument behind it is the path of the configuration, and `config.xml`
    /// where there is none.
    pub fn parse(args: &Vec<String>) -> (r: Args)
        ensures
            r.config@ == if args@.len() > 1 {
                args@[1]@
            } else {
                "config.xml"@
            },
    {
        if args.len() > 1 {
            Args { config: args[1].clone() }
        } else {
            Args { config: "config.xml".to_owned() }
        }
    }
}

/// The configuration to work with: the one that was read, and the default
/// where the file could not be read as a configuration.
pub fn parse_args(loaded: Option<AuxConfig>) -> (r: AuxConfig)
    ensures
        match loaded {
            Some(config) => r == config,
            None => is_default_config(r),
        },
{
    match loaded {
        Some(config) => config,
        None => AuxConfig::default(),
    }
}

} // verus!
