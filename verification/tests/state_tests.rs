use waterfall::addr::{IpAddress, SocketAddress};
use waterfall::blockmarker::{BlockMarker, PURGE_INTERVAL_SECS};
use waterfall::udp::{IDLE_LIMIT_MS, REAP_INTERVAL_SECS};
use waterfall::config::{Args, AuxConfig, NetworkProtocol, RouterRuleScope, Strategies};
use waterfall::config::{parse_args, whitelist_sni_list};
use waterfall::ip_utils::IpUtils;
use waterfall::pipe::{PipeAction, PipeEvent, PipeState, StallWindow};

fn addr(d: u8) -> SocketAddress {
    SocketAddress { ip: IpAddress::V4(192, 0, 2, d), port: 443 }
}

#[test]
fn marker_add_is_idempotent() {
    let mut marker = BlockMarker::new();
    assert!(!marker.is_16kb_blocked(addr(1)));
    assert!(marker.add_marker(addr(1)));
    assert!(!marker.add_marker(addr(1)));
    assert!(marker.is_16kb_blocked(addr(1)));
    assert!(!marker.is_16kb_blocked(addr(2)));
    assert!(!marker.is_16kb_blocked(SocketAddress { ip: IpAddress::V4(192, 0, 2, 1), port: 80 }));
    marker.remove_marker(addr(1));
    assert!(!marker.is_16kb_blocked(addr(1)));
}

#[test]
fn marker_remove_and_purge() {
    let mut marker = BlockMarker::new();
    marker.add_marker(addr(1));
    marker.add_marker(addr(2));
    marker.add_marker(addr(3));
    marker.remove_marker(addr(2));
    marker.remove_marker(addr(9));
    assert!(marker.is_16kb_blocked(addr(1)));
    assert!(!marker.is_16kb_blocked(addr(2)));
    assert!(marker.is_16kb_blocked(addr(3)));
    marker.clear();
    assert!(!marker.is_16kb_blocked(addr(1)));
    assert!(!marker.is_16kb_blocked(addr(3)));
    assert!(marker.add_marker(addr(3)));
}

#[test]
fn stall_is_detected_inside_the_window() {
    let window = StallWindow::default();
    assert_eq!(window, StallWindow { idle_ms: 3000, low: 1024, high: 33 * 1024 });
    let mut state = PipeState::new(1_000);
    assert_eq!(state.poll(&window, 10_000), PipeAction::Wait);
    assert_eq!(state.pipe_sockets(PipeEvent::UpstreamData(20_000), 2_000), PipeAction::WriteClient);
    assert_eq!(state.transferred, 20_000);
    assert_eq!(state.last_transmission, 2_000);
    assert_eq!(state.poll(&window, 5_000), PipeAction::Wait);
    assert_eq!(state.poll(&window, 5_001), PipeAction::Stalled);
    assert_eq!(state.pipe_sockets(PipeEvent::UpstreamData(13_792), 5_001), PipeAction::WriteClient);
    assert_eq!(state.poll(&window, 50_000), PipeAction::Wait);
}

#[test]
fn stall_needs_more_than_the_lower_bound() {
    let window = StallWindow::default();
    let mut state = PipeState::new(0);
    state.pipe_sockets(PipeEvent::UpstreamData(1024), 0);
    assert_eq!(state.poll(&window, 100_000), PipeAction::Wait);
    state.pipe_sockets(PipeEvent::UpstreamData(1), 0);
    assert_eq!(state.poll(&window, 100_000), PipeAction::Stalled);
    assert_eq!(state.poll(&window, 0), PipeAction::Wait);
}

#[test]
fn relay_events() {
    let window = StallWindow::default();
    let mut state = PipeState::new(0);
    assert_eq!(state.pipe_sockets(PipeEvent::ClientData, 1), PipeAction::TransformAndWrite);
    assert_eq!(state.pipe_sockets(PipeEvent::WouldBlock, 1), PipeAction::Continue);
    assert_eq!(state.pipe_sockets(PipeEvent::Failed, 1), PipeAction::Abort);
    assert_eq!(state, PipeState::new(0));
    assert_eq!(state.pipe_sockets(PipeEvent::ClientEof, 1), PipeAction::ShutdownUpstream);
    assert!(!state.socket_open);
    assert_eq!(state.poll(&window, 2), PipeAction::Finish);
    assert_eq!(state.pipe_sockets(PipeEvent::UpstreamEof, 1), PipeAction::Continue);
    let mut state = PipeState::new(0);
    assert_eq!(state.pipe_sockets(PipeEvent::UpstreamEof, 1), PipeAction::ShutdownClient);
    assert!(!state.stream_open);
    assert_eq!(state.pipe_sockets(PipeEvent::ClientEof, 1), PipeAction::Continue);
    let mut state = PipeState::new(0);
    state.pipe_sockets(PipeEvent::UpstreamData(u64::MAX), 1);
    state.pipe_sockets(PipeEvent::UpstreamData(5), 2);
    assert_eq!(state.transferred, u64::MAX);
}

#[test]
fn find_ip_in_text() {
    assert_eq!(IpUtils::find_ip(b"addr 10.20.30.40 end".to_vec()), Some("10.20.30.40".to_string()));
    assert_eq!(IpUtils::find_ip(b"1.2.3.4".to_vec()), Some("1.2.3.4".to_string()));
    assert_eq!(IpUtils::find_ip(b"x1.2.3.4".to_vec()), Some("1.2.3.4".to_string()));
    assert_eq!(IpUtils::find_ip(b"1.2.3".to_vec()), None);
    assert_eq!(IpUtils::find_ip(b"1.2.3.".to_vec()), None);
    assert_eq!(IpUtils::find_ip(b"1.2.3.4.5 6.7.8.9,".to_vec()), Some("6.7.8.9".to_string()));
    assert_eq!(IpUtils::find_ip(b"".to_vec()), None);
    assert_eq!(IpUtils::find_ip(vec![b'1', b'.', b'2', b'.', b'3', b'.', b'4', 0xff]), None);
    assert_eq!(IpUtils::find_ip("é 9.9.9.9 é".as_bytes().to_vec()), Some("9.9.9.9".to_string()));
    assert_eq!(IpUtils::find_ip_range("ab 1.2.3.4"), Some((3, 10)));
    assert_eq!(IpUtils::find_ip_range("é1.2.3.4;"), Some((1, 8)));
}

#[test]
fn default_configuration() {
    let config = AuxConfig::default();
    assert_eq!(config.bind_options.bind_host, "127.0.0.1");
    assert_eq!(config.bind_options.bind_port, 443);
    assert_eq!(config.bind_options.iface_ipv4, "default");
    assert_eq!(config.bind_options.iface_ipv6, "default");
    assert_eq!(config.bind_options.bind_iface_mtu, 1500);
    assert_eq!(config.bind_options.bind_iface_ipv4, "0.0.0.0");
    assert_eq!(config.bind_options.bind_iface_ipv6, "::");
    assert_eq!(config.fake_packet_options.fake_packet_ttl, 64);
    assert_eq!(config.fake_packet_options.fake_packet_sni, "yandex.ru");
    assert_eq!(config.fake_packet_options.fake_packet_override_data, None);
    assert_eq!(config.socket_options.so_recv_size, 65535);
    assert_eq!(config.socket_options.so_send_size, 65535);
    assert_eq!(config.socket_options.so_opt_cutoff, 200);
    assert_eq!(config.socket_options.so_l7_packet_jitter_max, 0);
    assert_eq!(config.desync_options.disorder_packet_ttl, 8);
    assert_eq!(config.desync_options.default_ttl, 4);
    assert_eq!(config.desync_options.out_of_band_charid, 23);
    assert_eq!(config.desync_options.packet_hop, 3);
    assert!(config.dns_options.integrated_doh_enabled);
    assert_eq!(config.dns_options.doh_servers.len(), 5);
    assert_eq!(config.dns_options.doh_servers[2].url, "https://dns.google/dns-query?dns={}");
    assert_eq!(config.router_options.rules.len(), 1);
    assert_eq!(config.router_options.rules[0].scope, RouterRuleScope::SNI);
    assert_eq!(config.router_options.rules[0].action, "socks5 127.0.0.1:9050");
    assert_eq!(config.pattern_options.patterns[0].pattern, "x796F75747562652E636F6D");
    assert!(config.whitelist_sni);
    assert_eq!(config.whitelist_sni_list, whitelist_sni_list());
    assert_eq!(config.whitelist_sni_list[1].value, "youtube.com");
    let strategy = config.strategies[0].clone().unwrap();
    assert_eq!(strategy.method, Strategies::FRAGTLS);
    assert_eq!(strategy.base_index, 3);
    assert!(strategy.add_sni);
    assert_eq!(strategy.filter_protocol, Some(NetworkProtocol::TCP));
    assert_eq!(strategy.filter_port.unwrap().start, 442);
    assert_eq!(strategy.filter_port.unwrap().end, None);
    assert_eq!(strategy.filter_sni.items.len(), 4);
    assert_eq!(strategy.filter_sni.items[2].value, "discordapp.com");
}

#[test]
fn command_line_and_fallback() {
    assert_eq!(Args::parse(&vec!["waterfall".to_string()]).config, "config.xml");
    assert_eq!(Args::parse(&vec![]).config, "config.xml");
    let args = vec!["waterfall".to_string(), "/etc/wf.xml".to_string(), "x".to_string()];
    assert_eq!(Args::parse(&args).config, "/etc/wf.xml");
    assert_eq!(parse_args(None), AuxConfig::default());
    let mut config = AuxConfig::default();
    config.bind_options.bind_port = 1080;
    assert_eq!(parse_args(Some(config.clone())), config);
}

#[test]
fn intervals() {
    assert_eq!(PURGE_INTERVAL_SECS, 60 * 60);
    assert_eq!(REAP_INTERVAL_SECS, 60);
    assert_eq!(IDLE_LIMIT_MS, 300 * 1000);
}
