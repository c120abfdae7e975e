use waterfall::addr::{IpAddress, SocketAddress};
use waterfall::blockmarker::BlockMarker;
use waterfall::config::{AuxConfig, RouterRule, RouterRuleScope, RouterRuleType};
use waterfall::filter::Whitelist;
use waterfall::router::{
    checkis16kbaccepted, checkiscidraccepted, RouteDecision, Router, RouterError,
    RouterInterjectionStatus,
};
use waterfall::config::RouterRuleScope as Scope;
use waterfall::socket::{ConnectPlan, SocketOps};
use waterfall::socks::IpParser;

fn rule(scope: RouterRuleScope, rule_type: RouterRuleType, m: &str, action: &str) -> RouterRule {
    RouterRule { scope, rule_type, rule_match: m.to_string(), action: action.to_string() }
}

fn config(rules: Vec<RouterRule>) -> AuxConfig {
    let mut config = AuxConfig::default();
    config.router_options.rules = rules;
    config
}

fn v4(a: u8, b: u8, c: u8, d: u8, port: u16) -> SocketAddress {
    SocketAddress { ip: IpAddress::V4(a, b, c, d), port }
}

fn domain_request(domain: &[u8], port: u16) -> Vec<u8> {
    let mut request = vec![5, 1, 0, 3, domain.len() as u8];
    request.extend_from_slice(domain);
    request.extend_from_slice(&port.to_be_bytes());
    request.push(0);
    request
}

#[test]
fn query_keeps_the_order_of_the_configuration() {
    let config = config(vec![
        rule(RouterRuleScope::IP, RouterRuleType::Forward, "a", "block x"),
        rule(RouterRuleScope::DnsQuery, RouterRuleType::FakeDNS, "b", "1.2.3.4"),
        rule(RouterRuleScope::SNI, RouterRuleType::Forward, "c", "block x"),
        rule(RouterRuleScope::DnsQuery, RouterRuleType::FakeDNS, "d", "1.2.3.5"),
    ]);
    let forward = Router::query_router_rules(&config, &RouterRuleType::Forward);
    let names: Vec<&str> = forward.iter().map(|r| r.rule_match.as_str()).collect();
    assert_eq!(names, vec!["a", "c"]);
    let fake = Router::query_router_rules(&config, &RouterRuleType::FakeDNS);
    let names: Vec<&str> = fake.iter().map(|r| r.rule_match.as_str()).collect();
    assert_eq!(names, vec!["b", "d"]);
}

#[test]
fn fake_dns_resolves_a_matching_name() {
    let config = config(vec![
        rule(RouterRuleScope::DnsQuery, RouterRuleType::FakeDNS, "*.example.org", "10.0.0.1"),
        rule(RouterRuleScope::DnsQuery, RouterRuleType::FakeDNS, "*.example.com", "10.1.2.3"),
        rule(RouterRuleScope::DnsQuery, RouterRuleType::FakeDNS, "*", "10.9.9.9"),
    ]);
    let request = domain_request(b"www.example.com", 80);
    let status = Router::interject_dns(&config, &request, &vec![]).unwrap();
    assert_eq!(
        status,
        RouterInterjectionStatus::AutoResolved(IpParser {
            host_raw: vec![10, 1, 2, 3],
            host_unprocessed: b"www.example.com".to_vec(),
            port: 443,
            dest_addr_type: 1,
            is_udp: false,
        })
    );
}

#[test]
fn fake_dns_lets_other_names_pass() {
    let config = config(vec![
        rule(RouterRuleScope::DnsQuery, RouterRuleType::FakeDNS, "*.example.com", "10.1.2.3"),
        rule(RouterRuleScope::SNI, RouterRuleType::FakeDNS, "*", "10.1.2.4"),
        rule(RouterRuleScope::DnsQuery, RouterRuleType::Forward, "*", "10.1.2.5"),
    ]);
    let request = domain_request(b"example.com", 80);
    assert_eq!(
        Router::interject_dns(&config, &request, &vec![]),
        Ok(RouterInterjectionStatus::Allow)
    );
}

#[test]
fn fake_dns_with_an_ipv6_target() {
    let config = config(vec![rule(
        RouterRuleScope::DnsQuery,
        RouterRuleType::FakeDNS,
        "six.example",
        "2001:db8::1",
    )]);
    let request = domain_request(b"six.example", 80);
    let mut octets = vec![0u8; 16];
    octets[0] = 0x20;
    octets[1] = 0x01;
    octets[2] = 0x0d;
    octets[3] = 0xb8;
    octets[15] = 1;
    let status = Router::interject_dns(&config, &request, &vec![Some(octets.clone())]).unwrap();
    match status {
        RouterInterjectionStatus::AutoResolved(parsed) => {
            assert_eq!(parsed.host_raw, octets);
            assert_eq!(parsed.dest_addr_type, 4);
            assert_eq!(parsed.port, 443);
            assert_eq!(parsed.host_unprocessed, b"six.example".to_vec());
        }
        RouterInterjectionStatus::Allow => panic!("the rule matches"),
    }
    assert_eq!(
        Router::interject_dns(&config, &request, &vec![]),
        Err(RouterError::BadFakeDnsTarget)
    );
    assert_eq!(
        Router::interject_dns(&config, &request, &vec![Some(vec![1, 2, 3, 4])]),
        Err(RouterError::BadFakeDnsTarget)
    );
}

#[test]
fn fake_dns_errors() {
    let bad_target = config(vec![rule(
        RouterRuleScope::DnsQuery,
        RouterRuleType::FakeDNS,
        "*",
        "not-an-address",
    )]);
    let request = domain_request(b"example.com", 80);
    assert_eq!(
        Router::interject_dns(&bad_target, &request, &vec![]),
        Err(RouterError::BadFakeDnsTarget)
    );
    assert_eq!(
        Router::interject_dns(&bad_target, &[5, 1, 0], &vec![]),
        Err(RouterError::MalformedRequest)
    );
    let bad_glob = config(vec![
        rule(RouterRuleScope::DnsQuery, RouterRuleType::FakeDNS, "[", "1.2.3.4"),
        rule(RouterRuleScope::DnsQuery, RouterRuleType::FakeDNS, "*", "1.2.3.4"),
    ]);
    assert_eq!(
        Router::interject_dns(&bad_glob, &request, &vec![]),
        Ok(RouterInterjectionStatus::Allow)
    );
}

#[test]
fn router_process_by_rule_type() {
    assert_eq!(
        Router::router_process(RouterRuleType::Forward, "1.2.3.4", vec![1], &None),
        Ok(RouterInterjectionStatus::Allow)
    );
    assert_eq!(
        Router::router_process(RouterRuleType::FakeDNS, "1.2.3.256", vec![1], &None),
        Err(RouterError::BadFakeDnsTarget)
    );
    assert_eq!(
        Router::router_process(RouterRuleType::FakeDNS, "1.2.3", vec![1], &None),
        Err(RouterError::BadFakeDnsTarget)
    );
    assert_eq!(
        Router::router_process(RouterRuleType::FakeDNS, "192.168.0.255", vec![7], &None),
        Ok(RouterInterjectionStatus::AutoResolved(IpParser {
            host_raw: vec![192, 168, 0, 255],
            host_unprocessed: vec![7],
            port: 443,
            dest_addr_type: 1,
            is_udp: false,
        }))
    );
}

#[test]
fn conditional_rules() {
    assert!(checkis16kbaccepted("if16kb", "example.com"));
    assert!(checkis16kbaccepted("if16kb a.com,b.com", "example.com"));
    assert!(!checkis16kbaccepted("if16kb a.com,example.com", "example.com"));
    assert!(!checkis16kbaccepted("if16kb example.com", "example.com"));
    assert!(!checkis16kbaccepted("cidr 10.0.0.0/8", "example.com"));
    assert!(!checkis16kbaccepted("if16kbx", "example.com"));
    assert!(checkiscidraccepted("cidr 10.0.0.0/8"));
    assert!(checkiscidraccepted("cidr"));
    assert!(!checkiscidraccepted("cidrs 10.0.0.0/8"));
    assert!(!checkiscidraccepted("10.0.0.0/8"));
}

#[test]
fn route_by_glob() {
    let config = config(vec![
        rule(RouterRuleScope::SNI, RouterRuleType::Forward, "*", "block x"),
        rule(RouterRuleScope::IP, RouterRuleType::Forward, "10.*", "socks5 127.0.0.1:9050"),
        rule(RouterRuleScope::IP, RouterRuleType::Forward, "*", "block now"),
    ]);
    let marker = BlockMarker::new();
    assert_eq!(
        Router::decide_for_tcp_connect(&config, &marker, &v4(10, 1, 1, 1, 80), "10.1.1.1", ""),
        Ok(RouteDecision::Socks5("127.0.0.1:9050".to_string()))
    );
    assert_eq!(
        Router::decide_for_tcp_connect(&config, &marker, &v4(11, 1, 1, 1, 80), "11.1.1.1", ""),
        Ok(RouteDecision::Block)
    );
}

#[test]
fn first_applicable_rule_wins() {
    let block_first = config(vec![
        rule(RouterRuleScope::IP, RouterRuleType::Forward, "10.*", "block now"),
        rule(RouterRuleScope::IP, RouterRuleType::Forward, "10.*", "socks5 p:1"),
    ]);
    let proxy_first = config(vec![
        rule(RouterRuleScope::IP, RouterRuleType::Forward, "10.*", "socks5 p:1"),
        rule(RouterRuleScope::IP, RouterRuleType::Forward, "10.*", "block now"),
    ]);
    let marker = BlockMarker::new();
    let addr = v4(10, 0, 0, 1, 443);
    assert_eq!(
        Router::decide_for_tcp_connect(&block_first, &marker, &addr, "10.0.0.1", ""),
        Ok(RouteDecision::Block)
    );
    assert_eq!(
        Router::decide_for_tcp_connect(&proxy_first, &marker, &addr, "10.0.0.1", ""),
        Ok(RouteDecision::Socks5("p:1".to_string()))
    );
}

#[test]
fn rules_without_effect_are_passed_over() {
    let config = config(vec![
        rule(RouterRuleScope::IP, RouterRuleType::Forward, "*", "socks5"),
        rule(RouterRuleScope::IP, RouterRuleType::Forward, "*", "teleport somewhere"),
        rule(RouterRuleScope::IP, RouterRuleType::Forward, "*", "blocked now"),
        rule(RouterRuleScope::IP, RouterRuleType::FakeDNS, "*", "block now"),
    ]);
    let marker = BlockMarker::new();
    assert_eq!(
        Router::decide_for_tcp_connect(&config, &marker, &v4(1, 1, 1, 1, 1), "1.1.1.1", ""),
        Ok(RouteDecision::Direct)
    );
    let bare = config_with("*");
    let mut bare_block = bare.clone();
    bare_block.router_options.rules[0].action = "block".to_string();
    assert_eq!(
        Router::decide_for_tcp_connect(&bare_block, &marker, &v4(1, 1, 1, 1, 1), "1.1.1.1", ""),
        Ok(RouteDecision::Block)
    );
    assert_eq!(Router::sni_is_blocked(&config_sni("*", "block"), "a.example"), Ok(true));
    assert_eq!(Router::sni_is_blocked(&config_sni("*", "socks5 p:1"), "a.example"), Ok(false));
}

#[test]
fn route_by_network() {
    let config = config(vec![rule(
        RouterRuleScope::IP,
        RouterRuleType::Forward,
        "cidr 10.0.0.0/8",
        "block now",
    )]);
    let marker = BlockMarker::new();
    assert_eq!(
        Router::decide_for_tcp_connect(&config, &marker, &v4(10, 200, 3, 4, 1), "x", ""),
        Ok(RouteDecision::Block)
    );
    assert_eq!(
        Router::decide_for_tcp_connect(&config, &marker, &v4(11, 0, 0, 0, 1), "x", ""),
        Ok(RouteDecision::Direct)
    );
    let v6 = SocketAddress {
        ip: IpAddress::V6(0x20, 1, 0xd, 0xb8, 0, 0, 0, 0, 0, 0, 0, 0, 0, 0, 0, 1),
        port: 1,
    };
    assert_eq!(
        Router::decide_for_tcp_connect(&config, &marker, &v6, "x", ""),
        Ok(RouteDecision::Direct)
    );
    let six = config_with("cidr 2001:db8::/32");
    assert_eq!(
        Router::decide_for_tcp_connect(&six, &marker, &v6, "x", ""),
        Ok(RouteDecision::Block)
    );
}

fn config_with(m: &str) -> AuxConfig {
    config(vec![rule(RouterRuleScope::IP, RouterRuleType::Forward, m, "block now")])
}

#[test]
fn route_errors() {
    let marker = BlockMarker::new();
    let addr = v4(10, 0, 0, 1, 443);
    assert_eq!(
        Router::decide_for_tcp_connect(&config_with("cidr 10.0.0.0/99"), &marker, &addr, "x", ""),
        Err(RouterError::BadCidr)
    );
    assert_eq!(
        Router::decide_for_tcp_connect(&config_with("cidr"), &marker, &addr, "x", ""),
        Err(RouterError::BadCidr)
    );
    assert_eq!(
        Router::decide_for_tcp_connect(&config_with("[10"), &marker, &addr, "x", ""),
        Err(RouterError::BadPattern)
    );
}

#[test]
fn route_by_stall_marker() {
    let config = config_with("if16kb good.example,fine.example");
    let mut marker = BlockMarker::new();
    let addr = v4(10, 0, 0, 1, 8443);
    assert_eq!(
        Router::decide_for_tcp_connect(&config, &marker, &addr, "10.0.0.1", "bad.example"),
        Ok(RouteDecision::Direct)
    );
    marker.add_marker(v4(10, 0, 0, 1, 443));
    assert_eq!(
        Router::decide_for_tcp_connect(&config, &marker, &addr, "10.0.0.1", "bad.example"),
        Ok(RouteDecision::Direct)
    );
    marker.add_marker(addr);
    assert_eq!(
        Router::decide_for_tcp_connect(&config, &marker, &addr, "10.0.0.1", "bad.example"),
        Ok(RouteDecision::Block)
    );
    assert_eq!(
        SocketOps::connect_socket(&config, &marker, "bad.example", addr, "10.0.0.1"),
        Ok(ConnectPlan::Refuse)
    );
    assert_eq!(
        Router::decide_for_tcp_connect(&config, &marker, &addr, "10.0.0.1", "fine.example"),
        Ok(RouteDecision::Direct)
    );
    assert_eq!(
        Router::decide_for_tcp_connect(&config, &marker, &v4(10, 0, 0, 2, 1), "10.0.0.2", "x"),
        Ok(RouteDecision::Direct)
    );
}

#[test]
fn server_names_can_be_blocked() {
    let config = config(vec![
        rule(RouterRuleScope::IP, RouterRuleType::Forward, "*", "block now"),
        rule(RouterRuleScope::SNI, RouterRuleType::Forward, "*.good.example", "socks5 p:1"),
        rule(RouterRuleScope::SNI, RouterRuleType::Forward, "*.example", "block now"),
    ]);
    assert_eq!(Router::sni_is_blocked(&config, "www.bad.example"), Ok(true));
    assert_eq!(Router::sni_is_blocked(&config, "www.good.example"), Ok(false));
    assert_eq!(Router::sni_is_blocked(&config, "example.org"), Ok(false));
    let broken = config_sni("[", "block now");
    assert_eq!(Router::sni_is_blocked(&broken, "example.org"), Err(RouterError::BadPattern));
}

fn config_sni(m: &str, action: &str) -> AuxConfig {
    config(vec![rule(RouterRuleScope::SNI, RouterRuleType::Forward, m, action)])
}

#[test]
fn whitelist_checks_the_observed_name() {
    let config = config_sni("*.blocked.example", "block now");
    let data = b"....www.youtube.com....".to_vec();
    let span = (4u32, 19u32);
    let names = Some(vec!["discord.com".to_string(), "youtube.com".to_string()]);
    assert_eq!(Whitelist::check_whitelist(&names, &span, &data, &config), Ok(true));
    let others = Some(vec!["discord.com".to_string()]);
    assert_eq!(Whitelist::check_whitelist(&others, &span, &data, &config), Ok(false));
    assert_eq!(Whitelist::check_whitelist(&Some(vec![]), &span, &data, &config), Ok(true));
    assert_eq!(Whitelist::check_whitelist(&None, &span, &data, &config), Ok(true));
    assert_eq!(Whitelist::check_whitelist(&None, &(0, 0), &data, &config), Ok(true));
}

#[test]
fn whitelist_without_a_server_name() {
    let config = config(vec![]);
    let data = b"....www.youtube.com....".to_vec();
    let names = Some(vec!["youtube.com".to_string()]);
    assert_eq!(Whitelist::check_whitelist(&names, &(0, 0), &data, &config), Ok(false));
    assert_eq!(Whitelist::check_whitelist(&Some(vec![]), &(0, 0), &data, &config), Ok(true));
    assert_eq!(Whitelist::check_whitelist(&names, &(4, 23), &data, &config), Ok(true));
    assert_eq!(Whitelist::check_whitelist(&names, &(4, 24), &data, &config), Ok(false));
    assert_eq!(Whitelist::check_whitelist(&Some(vec![]), &(4, 24), &data, &config), Ok(true));
    assert_eq!(Whitelist::check_whitelist(&names, &(19, 4), &data, &config), Ok(false));
    assert_eq!(Whitelist::check_whitelist(&Some(vec![]), &(19, 4), &data, &config), Ok(true));
    assert_eq!(Whitelist::check_whitelist(&names, &(4, 22), &data, &config), Ok(true));
    assert_eq!(Whitelist::check_whitelist(&names, &(8, 19), &data, &config), Ok(true));
    assert_eq!(Whitelist::check_whitelist(&names, &(9, 19), &data, &config), Ok(false));
}

#[test]
fn whitelist_reports_blocked_names() {
    let config = config_sni("*.youtube.com", "block now");
    let data = b"....www.youtube.com....".to_vec();
    let names = Some(vec!["youtube.com".to_string()]);
    assert_eq!(
        Whitelist::check_whitelist(&names, &(4, 19), &data, &config),
        Err(RouterError::Blocked)
    );
    let broken = config_sni("[", "block now");
    assert_eq!(
        Whitelist::check_whitelist(&names, &(4, 19), &data, &broken),
        Err(RouterError::BadPattern)
    );
}

#[test]
fn connect_plans() {
    let mut config = config(vec![
        rule(RouterRuleScope::IP, RouterRuleType::Forward, "10.*", "socks5 127.0.0.1:9050"),
        rule(RouterRuleScope::IP, RouterRuleType::Forward, "11.*", "block now"),
    ]);
    config.bind_options.iface_ipv4 = "eth1".to_string();
    config.socket_options.so_recv_size = 1000;
    config.socket_options.so_send_size = 2000;
    let marker = BlockMarker::new();
    let plan =
        SocketOps::connect_socket(&config, &marker, "", v4(10, 0, 0, 1, 443), "10.0.0.1").unwrap();
    match plan {
        ConnectPlan::Chain(handshake) => {
            assert_eq!(handshake.proxy, "127.0.0.1:9050");
            assert_eq!(handshake.greeting, vec![5, 1, 0]);
            assert_eq!(handshake.request, vec![5, 1, 0, 1, 10, 0, 0, 1, 0x01, 0xbb]);
        }
        _ => panic!("the first rule applies"),
    }
    assert_eq!(
        SocketOps::connect_socket(&config, &marker, "", v4(11, 0, 0, 1, 443), "11.0.0.1"),
        Ok(ConnectPlan::Refuse)
    );
    let plan =
        SocketOps::connect_socket(&config, &marker, "", v4(12, 0, 0, 1, 443), "12.0.0.1").unwrap();
    match plan {
        ConnectPlan::Direct(setup) => {
            assert_eq!(setup.target, v4(12, 0, 0, 1, 443));
            assert!(!setup.ipv6);
            assert_eq!(setup.bind_device, Some("eth1".to_string()));
            assert_eq!(setup.recv_buffer_size, 1000);
            assert_eq!(setup.send_buffer_size, 2000);
            assert!(setup.nodelay);
            assert!(setup.keepalive);
        }
        _ => panic!("no rule applies"),
    }
    let v6 = SocketAddress {
        ip: IpAddress::V6(0x20, 1, 0xd, 0xb8, 0, 0, 0, 0, 0, 0, 0, 0, 0, 0, 0, 1),
        port: 1,
    };
    let plan = SocketOps::connect_socket(&config, &marker, "", v6, "2001:db8::1").unwrap();
    match plan {
        ConnectPlan::Direct(setup) => {
            assert!(setup.ipv6);
            assert_eq!(setup.bind_device, None);
        }
        _ => panic!("no rule applies"),
    }
}

#[test]
fn upstream_handshake_for_ipv6() {
    let v6 = SocketAddress {
        ip: IpAddress::V6(0x20, 1, 0xd, 0xb8, 0, 0, 0, 0, 0, 0, 0, 0, 0, 0, 0, 1),
        port: 0x1f90,
    };
    let handshake = SocketOps::new_proxied(v6, "p:1".to_string());
    assert_eq!(
        handshake.request,
        vec![5, 1, 0, 4, 0x20, 1, 0xd, 0xb8, 0, 0, 0, 0, 0, 0, 0, 0, 0, 0, 0, 1, 0x1f, 0x90]
    );
}

#[test]
fn names_that_are_no_utf8_are_matched_with_replacement_characters() {
    let config = config(vec![
        rule(RouterRuleScope::DnsQuery, RouterRuleType::FakeDNS, "a??b", "10.0.0.1"),
        rule(RouterRuleScope::DnsQuery, RouterRuleType::FakeDNS, "a?b", "10.0.0.2"),
    ]);
    let request = domain_request(&[b'a', 0xff, b'b'], 80);
    match Router::interject_dns(&config, &request, &vec![]).unwrap() {
        RouterInterjectionStatus::AutoResolved(parsed) => {
            assert_eq!(parsed.host_raw, vec![10, 0, 0, 2]);
            assert_eq!(parsed.host_unprocessed, vec![b'a', 0xff, b'b']);
        }
        RouterInterjectionStatus::Allow => panic!("the second rule matches"),
    }
}

#[test]
fn outcomes_are_recorded_rule_by_rule() {
    let config = config(vec![
        rule(RouterRuleScope::IP, RouterRuleType::Forward, "10.*", "block"),
        rule(RouterRuleScope::SNI, RouterRuleType::Forward, "10.*", "block"),
        rule(RouterRuleScope::IP, RouterRuleType::Forward, "[", "block"),
        rule(RouterRuleScope::IP, RouterRuleType::Forward, "11.*", "block"),
    ]);
    assert_eq!(
        Router::match_rules(&config, RouterRuleType::Forward, Scope::IP, "10.0.0.1"),
        vec![Some(true), None, None, Some(false)]
    );
    assert_eq!(
        Router::match_rules(&config, RouterRuleType::Forward, Scope::SNI, "10.0.0.1"),
        vec![None, Some(true), None, None]
    );
    assert_eq!(
        Router::match_rules(&config, RouterRuleType::FakeDNS, Scope::IP, "10.0.0.1"),
        vec![None, None, None, None]
    );
}

#[test]
fn decisions_on_given_outcomes() {
    let config = config(vec![
        rule(RouterRuleScope::IP, RouterRuleType::Forward, "a", "socks5 p:1"),
        rule(RouterRuleScope::SNI, RouterRuleType::Forward, "b", "block"),
        rule(RouterRuleScope::DnsQuery, RouterRuleType::FakeDNS, "c", "10.0.0.9"),
        rule(RouterRuleScope::IP, RouterRuleType::Forward, "d", "block"),
    ]);
    let addr = v4(1, 2, 3, 4, 80);
    let route = |outcomes: Vec<Option<bool>>| Router::route_with(&config, false, &addr, "", &outcomes);
    assert_eq!(route(vec![Some(false), None, None, Some(false)]), Ok(RouteDecision::Direct));
    assert_eq!(route(vec![Some(false), None, None, Some(true)]), Ok(RouteDecision::Block));
    assert_eq!(
        route(vec![Some(true), None, None, Some(true)]),
        Ok(RouteDecision::Socks5("p:1".to_string()))
    );
    assert_eq!(route(vec![None, None, None, Some(true)]), Err(RouterError::BadPattern));
    assert_eq!(route(vec![Some(false)]), Err(RouterError::BadPattern));
    assert_eq!(Router::sni_blocked_with(&config, &vec![None, Some(true), None, None]), Ok(true));
    assert_eq!(Router::sni_blocked_with(&config, &vec![None, Some(false), None, None]), Ok(false));
    assert_eq!(
        Router::sni_blocked_with(&config, &vec![Some(true), None, Some(true), Some(true)]),
        Err(RouterError::BadPattern)
    );
    let host = b"name".to_vec();
    assert_eq!(
        Router::interject_with(&config, host.clone(), &vec![], &vec![None, None, Some(false), None]),
        Ok(RouterInterjectionStatus::Allow)
    );
    assert_eq!(
        Router::interject_with(&config, host.clone(), &vec![], &vec![None, None, None, None]),
        Ok(RouterInterjectionStatus::Allow)
    );
    match Router::interject_with(&config, host.clone(), &vec![], &vec![None, None, Some(true), None]) {
        Ok(RouterInterjectionStatus::AutoResolved(parsed)) => {
            assert_eq!(parsed.host_raw, vec![10, 0, 0, 9]);
            assert_eq!(parsed.host_unprocessed, host);
        }
        _ => panic!("the rule matched"),
    }
}

#[test]
fn filter_on_the_observed_name() {
    let data = b"....www.youtube.com".to_vec();
    assert_eq!(Whitelist::observe(&(4, 19), &data), Some("www.youtube.com".to_string()));
    assert_eq!(Whitelist::observe(&(4, 20), &data), None);
    assert_eq!(Whitelist::observe(&(0, 0), &data), None);
    assert_eq!(Whitelist::observe(&(0, 4), &data), Some("....".to_string()));
    assert_eq!(Whitelist::observe(&(5, 4), &data), None);
    let name = Some("www.youtube.com".to_string());
    let names = Some(vec!["youtube".to_string()]);
    assert_eq!(Whitelist::verdict(&names, &name, Ok(false)), Ok(true));
    assert_eq!(Whitelist::verdict(&names, &name, Ok(true)), Err(RouterError::Blocked));
    assert_eq!(
        Whitelist::verdict(&names, &name, Err(RouterError::BadPattern)),
        Err(RouterError::BadPattern)
    );
    assert_eq!(Whitelist::verdict(&names, &None, Ok(true)), Ok(false));
    assert_eq!(Whitelist::verdict(&Some(vec![]), &None, Ok(true)), Ok(true));
    assert_eq!(Whitelist::verdict(&Some(vec![]), &name, Ok(false)), Ok(true));
    assert_eq!(Whitelist::verdict(&None, &name, Ok(true)), Ok(true));
    let config = config_sni("*.youtube.com", "block");
    assert_eq!(Whitelist::blocked_name(&config, &name), Ok(true));
    assert_eq!(Whitelist::blocked_name(&config, &None), Ok(false));
    assert_eq!(Whitelist::blocked_name(&config, &Some("a.example".to_string())), Ok(false));
}

#[test]
fn plans_for_routes() {
    let config = config(vec![]);
    let addr = v4(1, 2, 3, 4, 80);
    assert_eq!(SocketOps::plan_for(RouteDecision::Block, &config, addr), ConnectPlan::Refuse);
    match SocketOps::plan_for(RouteDecision::Socks5("p:1".to_string()), &config, addr) {
        ConnectPlan::Chain(handshake) => assert_eq!(handshake.proxy, "p:1"),
        _ => panic!("the route asks for a proxy"),
    }
    match SocketOps::plan_for(RouteDecision::Direct, &config, addr) {
        ConnectPlan::Direct(setup) => assert_eq!(setup.target, addr),
        _ => panic!("the route is direct"),
    }
}
