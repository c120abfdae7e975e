use waterfall::config::{
    AuxConfig, FilterSniList, NetworkProtocol, RouterRule, RouterRuleScope, RouterRuleType,
    Strategies, Strategy, WeakRange, WhiteListedSNI, WhiteListedSNIWrapper,
};
use waterfall::desync::{
    client_hook, execute_l4_bypasses, execute_l5_bypasses, execute_l7_bypasses, plan_l4_bypasses,
};
use waterfall::sni::Sni;
use waterfall::ops::SocketOp;
use waterfall::pattern::compile_patterns;
use waterfall::random::make_random_vec;
use waterfall::router::RouterError;

fn strategy(method: Strategies, base_index: i64, add_sni: bool) -> Strategy {
    Strategy {
        method,
        base_index,
        add_sni,
        add_host: false,
        subtract: false,
        filter_protocol: None,
        filter_port: None,
        filter_sni: FilterSniList { items: vec![] },
    }
}

fn config(strategies: Vec<Strategy>) -> AuxConfig {
    let mut config = AuxConfig::default();
    config.router_options.rules = vec![];
    config.strategies = strategies.into_iter().map(Some).collect();
    config.fake_packet_options.fake_packet_ttl = 3;
    config.desync_options.default_ttl = 64;
    config
}

fn client_hello(name: &[u8]) -> Vec<u8> {
    let mut buf = vec![0x11u8; 100];
    buf[0] = 0x16;
    buf[1] = 0x03;
    buf[2] = 0x01;
    buf[3] = 0x00;
    buf[4] = 95;
    buf[5] = 0x01;
    let at = 60;
    buf[at] = 0x00;
    buf[at + 1] = 0x00;
    buf[at + 2] = 0x00;
    buf[at + 3] = (name.len() + 5) as u8;
    buf[at + 4] = 0x00;
    buf[at + 5] = (name.len() + 3) as u8;
    buf[at + 6] = 0x00;
    buf[at + 7] = 0x00;
    buf[at + 8] = name.len() as u8;
    buf[at + 9..at + 9 + name.len()].copy_from_slice(name);
    buf
}

fn final_ttl(plan: &[SocketOp], start: u32) -> u32 {
    let mut ttl = start;
    for op in plan {
        if let SocketOp::SetTtl(t) = op {
            ttl = *t;
        }
    }
    ttl
}

#[test]
fn strategies_work_in_order() {
    let config = config(vec![
        strategy(Strategies::SPLIT, 2, false),
        strategy(Strategies::NONE, 1, false),
        strategy(Strategies::DISORDER, 1, false),
        strategy(Strategies::TRAIL, 1, false),
        strategy(Strategies::MELTDOWNUDP, 1, false),
    ]);
    let mut current = vec![1, 2, 3, 4, 5];
    let plan = execute_l4_bypasses(&config, &mut current, &(0, 0), Some(443)).unwrap();
    assert_eq!(
        plan,
        vec![
            SocketOp::Write(vec![1, 2]),
            SocketOp::SetTtl(1),
            SocketOp::Write(vec![3]),
            SocketOp::SetTtl(64),
        ]
    );
    assert_eq!(current, vec![4, 5]);
    assert_eq!(final_ttl(&plan, 64), 64);
}

#[test]
fn absent_strategies_are_passed_over() {
    let mut config = config(vec![strategy(Strategies::SPLIT, 2, false)]);
    config.strategies.insert(0, None);
    config.strategies.push(None);
    let mut current = vec![1, 2, 3, 4, 5];
    let plan = execute_l4_bypasses(&config, &mut current, &(0, 0), None).unwrap();
    assert_eq!(plan, vec![SocketOp::Write(vec![1, 2])]);
    assert_eq!(current, vec![3, 4, 5]);
}

#[test]
fn strategies_that_count_from_a_missing_name_are_skipped() {
    let config = config(vec![
        strategy(Strategies::SPLIT, 2, true),
        strategy(Strategies::SPLIT, 1, false),
    ]);
    let mut current = vec![1, 2, 3, 4, 5];
    let plan = execute_l4_bypasses(&config, &mut current, &(0, 0), None).unwrap();
    assert_eq!(plan, vec![SocketOp::Write(vec![1])]);
    assert_eq!(current, vec![2, 3, 4, 5]);
}

#[test]
fn strategies_are_filtered_by_protocol_and_port() {
    let mut udp = strategy(Strategies::SPLIT, 1, false);
    udp.filter_protocol = Some(NetworkProtocol::UDP);
    let mut tcp = strategy(Strategies::SPLIT, 1, false);
    tcp.filter_protocol = Some(NetworkProtocol::TCP);
    tcp.filter_port = Some(WeakRange { start: 442, end: None });
    let mut ranged = strategy(Strategies::SPLIT, 1, false);
    ranged.filter_port = Some(WeakRange { start: 80, end: Some(81) });
    let config = config(vec![udp, tcp, ranged]);

    let mut current = vec![1, 2, 3, 4, 5];
    let plan = execute_l4_bypasses(&config, &mut current, &(0, 0), Some(443)).unwrap();
    assert_eq!(plan, vec![SocketOp::Write(vec![1])]);

    let mut current = vec![1, 2, 3, 4, 5];
    let plan = execute_l4_bypasses(&config, &mut current, &(0, 0), Some(441)).unwrap();
    assert_eq!(plan, vec![]);

    let mut current = vec![1, 2, 3, 4, 5];
    let plan = execute_l4_bypasses(&config, &mut current, &(0, 0), Some(81)).unwrap();
    assert_eq!(plan, vec![SocketOp::Write(vec![1])]);
    let mut current = vec![1, 2, 3, 4, 5];
    let plan = execute_l4_bypasses(&config, &mut current, &(0, 0), Some(82)).unwrap();
    assert_eq!(plan, vec![]);
    let mut current = vec![1, 2, 3, 4, 5];
    let plan = execute_l4_bypasses(&config, &mut current, &(0, 0), Some(79)).unwrap();
    assert_eq!(plan, vec![]);

    let mut current = vec![1, 2, 3, 4, 5];
    let plan = execute_l4_bypasses(&config, &mut current, &(0, 0), None).unwrap();
    assert_eq!(plan, vec![SocketOp::Write(vec![1]), SocketOp::Write(vec![2])]);
    assert_eq!(current, vec![3, 4, 5]);
}

fn name(value: &str) -> WhiteListedSNIWrapper {
    WhiteListedSNIWrapper { list: WhiteListedSNI::Domain, value: value.to_string() }
}

#[test]
fn strategies_are_filtered_by_server_name() {
    let mut filtered = strategy(Strategies::SPLIT, 2, true);
    filtered.filter_sni = FilterSniList { items: vec![name("discord.com"), name("youtube.com")] };
    let config = config(vec![filtered]);
    let hello = client_hello(b"www.youtube.com");
    let mut current = hello.clone();
    let plan = execute_l4_bypasses(&config, &mut current, &(69, 84), Some(443)).unwrap();
    assert_eq!(plan, vec![SocketOp::Write(hello[..71].to_vec())]);
    assert_eq!(current, hello[71..].to_vec());

    let other = client_hello(b"www.example.org");
    let mut current = other.clone();
    let plan = execute_l4_bypasses(&config, &mut current, &(69, 84), Some(443)).unwrap();
    assert_eq!(plan, vec![]);
    assert_eq!(current, other);
}

#[test]
fn blocked_server_names_end_the_planning() {
    let mut config = config(vec![strategy(Strategies::SPLIT, 2, false)]);
    config.router_options.rules = vec![RouterRule {
        scope: RouterRuleScope::SNI,
        rule_type: RouterRuleType::Forward,
        rule_match: "*.youtube.com".to_string(),
        action: "block now".to_string(),
    }];
    let mut current = client_hello(b"www.youtube.com");
    assert_eq!(
        execute_l4_bypasses(&config, &mut current, &(69, 84), Some(443)),
        Err(RouterError::Blocked)
    );
    let mut current = client_hello(b"www.example.org");
    assert!(execute_l4_bypasses(&config, &mut current, &(69, 84), Some(443)).is_ok());
}

#[test]
fn fake_client_hello_goes_first() {
    let mut config = config(vec![strategy(Strategies::SPLIT, 2, false)]);
    config.fake_packet_options.fake_clienthello = true;
    let mut current = vec![1, 2, 3, 4, 5];
    let plan = execute_l4_bypasses(&config, &mut current, &(1, 3), None).unwrap();
    assert_eq!(
        plan,
        vec![
            SocketOp::SetTtl(3),
            SocketOp::Write(vec![0x16]),
            SocketOp::SetTtl(64),
            SocketOp::Write(vec![1, 2]),
        ]
    );
    let mut current = vec![1, 2, 3, 4, 5];
    let plan = execute_l4_bypasses(&config, &mut current, &(0, 0), None).unwrap();
    assert_eq!(plan, vec![SocketOp::Write(vec![1, 2])]);
}

#[test]
fn closing_operations() {
    let mut config = config(vec![]);
    config.socket_options.so_disable_sack = true;
    config.fake_packet_options.fake_packet_random = true;
    let mut current = vec![1, 2, 3];
    let plan = execute_l4_bypasses(&config, &mut current, &(0, 0), None).unwrap();
    assert_eq!(
        plan,
        vec![
            SocketOp::DisableSack,
            SocketOp::SetTtl(3),
            SocketOp::Write(vec![make_random_vec(32, 0xDEAD)[0]]),
            SocketOp::SetTtl(64),
        ]
    );
    assert_eq!(plan[2], SocketOp::Write(vec![24]));
    assert_eq!(current, vec![1, 2, 3]);
}

#[test]
fn default_configuration_fragments_the_record() {
    let mut config = AuxConfig::default();
    config.router_options.rules = vec![];
    let hello = client_hello(b"www.youtube.com");
    let mut current = hello.clone();
    let plan = execute_l4_bypasses(&config, &mut current, &(69, 84), Some(443)).unwrap();
    assert_eq!(plan, vec![]);
    assert_eq!(current.len(), hello.len() + 5);
    assert_eq!(&current[..5], &[0x16, 0x03, 0x01, 0, 72]);
    assert_eq!(&current[5..77], &hello[5..77]);
    assert_eq!(&current[77..82], &[0x16, 0x03, 0x01, 0, 23]);
    assert_eq!(&current[82..], &hello[77..]);
}

#[test]
fn l5_edit_follows_the_configuration() {
    let mut config = AuxConfig::default();
    let data = b"Host: example.com".to_vec();
    assert_eq!(execute_l5_bypasses(&data, &config), data);
    config.http_options.http_host_cmix = true;
    assert_eq!(execute_l5_bypasses(&data, &config), b"HOsT: example.com".to_vec());
}

#[test]
fn jitter_is_a_share_of_the_maximum() {
    let mut config = AuxConfig::default();
    assert_eq!(execute_l7_bypasses(&config, 1000), None);
    config.socket_options.so_l7_packet_jitter_max = 500;
    assert_eq!(execute_l7_bypasses(&config, 1000), Some(373));
    config.socket_options.so_l7_packet_jitter_max = u64::MAX;
    let jitter = execute_l7_bypasses(&config, 1000).unwrap();
    assert_eq!(jitter as u128, (191u128 * u64::MAX as u128) / 256);
}

#[test]
fn hook_runs_the_whole_pipeline() {
    let mut config = config(vec![strategy(Strategies::SPLIT, 4, false)]);
    config.http_options.http_host_cmix = true;
    config.socket_options.so_l7_packet_jitter_max = 500;
    let patterns = compile_patterns(vec![(
        "x796F75747562652E636F6D".to_string(),
        "x626C6F676765722E636F6D".to_string(),
    )]);
    let data = b"GET / HTTP/1.1\r\nHost: myoutube.com\r\n\r\n".to_vec();
    let outcome = client_hook(&config, &patterns, &data, Some(80), 1000).unwrap();
    assert_eq!(outcome.plan, vec![SocketOp::Write(b"GET ".to_vec())]);
    assert_eq!(outcome.data, b"/ HTTP/1.1\r\nHOsT: mblogger.com\r\n\r\n".to_vec());
    assert_eq!(outcome.jitter, Some(373));
}

#[test]
fn hook_finds_the_name_after_the_rewrite() {
    let mut config = config(vec![strategy(Strategies::SPLIT, 1, true)]);
    config.router_options.rules = vec![RouterRule {
        scope: RouterRuleScope::SNI,
        rule_type: RouterRuleType::Forward,
        rule_match: "www.youtube.com".to_string(),
        action: "block now".to_string(),
    }];
    let patterns = compile_patterns(vec![]);
    let hello = client_hello(b"www.example.org");
    let outcome = client_hook(&config, &patterns, &hello, Some(443), 0).unwrap();
    assert_eq!(outcome.plan, vec![SocketOp::Write(hello[..70].to_vec())]);
    assert_eq!(outcome.data, hello[70..].to_vec());
    assert_eq!(outcome.jitter, None);
    let blocked = client_hello(b"www.youtube.com");
    assert_eq!(
        client_hook(&config, &patterns, &blocked, Some(443), 0).err(),
        Some(RouterError::Blocked)
    );
}

fn short_hello() -> Vec<u8> {
    let mut buf = vec![0x11u8; 62];
    buf[0] = 0x16;
    buf[1] = 0x03;
    buf[2] = 0x01;
    buf[5] = 0x01;
    let at = 43;
    buf[at] = 0x00;
    buf[at + 1] = 0x00;
    buf[at + 2] = 0x00;
    buf[at + 3] = 15;
    buf[at + 4] = 0x00;
    buf[at + 5] = 13;
    buf[at + 6] = 0x00;
    buf[at + 7] = 0x00;
    buf[at + 8] = 10;
    buf[at + 9..].copy_from_slice(b"google.com");
    buf
}

#[test]
fn name_at_the_end_of_the_chunk_does_not_keep_strategies_off() {
    let hello = short_hello();
    assert_eq!(Sni::locate(&hello), (52, 62));
    let config = config(vec![strategy(Strategies::SPLIT, 5, false)]);
    let mut current = hello.clone();
    let plan = execute_l4_bypasses(&config, &mut current, &(52, 62), Some(443)).unwrap();
    assert_eq!(plan, vec![SocketOp::Write(hello[..5].to_vec())]);
    assert_eq!(current, hello[5..].to_vec());

    let mut filtered = strategy(Strategies::SPLIT, 5, false);
    filtered.filter_sni = FilterSniList { items: vec![name("google.com")] };
    let config = config_of(filtered);
    let mut current = hello.clone();
    let plan = execute_l4_bypasses(&config, &mut current, &(52, 62), Some(443)).unwrap();
    assert_eq!(plan, vec![SocketOp::Write(hello[..5].to_vec())]);
}

fn config_of(strategy: Strategy) -> AuxConfig {
    config(vec![strategy])
}

#[test]
fn offsets_outside_the_chunk_do_not_keep_unfiltered_strategies_off() {
    let config = config(vec![strategy(Strategies::SPLIT, 2, false)]);
    let mut current = vec![1, 2, 3, 4, 5];
    let plan = execute_l4_bypasses(&config, &mut current, &(3, 9), None).unwrap();
    assert_eq!(plan, vec![SocketOp::Write(vec![1, 2])]);
}

#[test]
fn the_name_is_observed_where_it_was_located() {
    let mut filtered = strategy(Strategies::DISORDER, 1, false);
    filtered.filter_sni = FilterSniList { items: vec![name("youtube.com")] };
    let config = config(vec![strategy(Strategies::SPLIT, 80, false), filtered]);
    let hello = client_hello(b"www.youtube.com");
    let mut current = hello.clone();
    let plan = execute_l4_bypasses(&config, &mut current, &(69, 84), Some(443)).unwrap();
    assert_eq!(
        plan,
        vec![
            SocketOp::Write(hello[..80].to_vec()),
            SocketOp::SetTtl(1),
            SocketOp::Write(hello[80..81].to_vec()),
            SocketOp::SetTtl(64),
        ]
    );
    assert_eq!(current, hello[81..].to_vec());
}

#[test]
fn plan_for_a_given_verdict() {
    let config = config(vec![strategy(Strategies::SPLIT, 2, false)]);
    let hello = client_hello(b"www.youtube.com");
    let mut current = hello.clone();
    assert_eq!(
        plan_l4_bypasses(&config, &mut current, &(69, 84), None, Ok(true)),
        Err(RouterError::Blocked)
    );
    assert_eq!(
        plan_l4_bypasses(&config, &mut current, &(69, 84), None, Err(RouterError::BadPattern)),
        Err(RouterError::BadPattern)
    );
    let plan = plan_l4_bypasses(&config, &mut current, &(69, 84), None, Ok(false)).unwrap();
    assert_eq!(plan, vec![SocketOp::Write(hello[..2].to_vec())]);
    let mut current = hello.clone();
    let plan = plan_l4_bypasses(&config, &mut current, &(0, 0), None, Ok(true)).unwrap();
    assert_eq!(plan, vec![SocketOp::Write(hello[..2].to_vec())]);
    let empty = config_of(strategy(Strategies::NONE, 0, false));
    let mut current = hello.clone();
    assert_eq!(plan_l4_bypasses(&empty, &mut current, &(69, 84), None, Ok(true)), Err(RouterError::Blocked));
}
