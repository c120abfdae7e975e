use waterfall::addr::{IpAddress, SocketAddress};
use waterfall::config::AuxConfig;
use waterfall::doh::{
    create_queries, encode_query, parse_dns_response, parse_dns_response_with, probe_accepts,
    request_urls, select_address, working_servers, DOHResolver, DnsAnswer, DnsError, DnsReply,
    RecordKind,
};

fn decode(text: &str) -> Vec<u8> {
    base64::Engine::decode(&base64::engine::general_purpose::URL_SAFE_NO_PAD, text).unwrap()
}

fn question(name_labels: &[&[u8]], record_type: u16) -> Vec<u8> {
    let mut out = vec![];
    for label in name_labels {
        out.push(label.len() as u8);
        out.extend_from_slice(label);
    }
    out.push(0);
    out.extend_from_slice(&record_type.to_be_bytes());
    out.extend_from_slice(&[0, 1]);
    out
}

fn response(flags: u16, answers: &[(u16, Vec<u8>)]) -> Vec<u8> {
    let mut out = vec![0x12, 0x34];
    out.extend_from_slice(&flags.to_be_bytes());
    out.extend_from_slice(&[0, 1]);
    out.extend_from_slice(&(answers.len() as u16).to_be_bytes());
    out.extend_from_slice(&[0, 0, 0, 0]);
    out.extend_from_slice(&question(&[b"discord", b"com"], 1));
    for (record_type, data) in answers {
        out.extend_from_slice(&[0xC0, 0x0C]);
        out.extend_from_slice(&record_type.to_be_bytes());
        out.extend_from_slice(&[0, 1]);
        out.extend_from_slice(&[0, 0, 0, 60]);
        out.extend_from_slice(&(data.len() as u16).to_be_bytes());
        out.extend_from_slice(data);
    }
    out
}

#[test]
fn queries_for_both_families() {
    let queries = create_queries("discord.com").unwrap();
    assert_eq!(queries.len(), 2);
    for query in &queries {
        assert!(!query.contains('='));
        assert!(!query.contains('+'));
        assert!(!query.contains('/'));
    }
    let first = decode(&queries[0]);
    let second = decode(&queries[1]);
    let mut expected = vec![1, 0, 0, 1, 0, 0, 0, 0, 0, 0];
    expected.extend_from_slice(&question(&[b"discord", b"com"], 1));
    assert_eq!(&first[2..], &expected[..]);
    let mut expected = vec![1, 0, 0, 1, 0, 0, 0, 0, 0, 0];
    expected.extend_from_slice(&question(&[b"discord", b"com"], 28));
    assert_eq!(&second[2..], &expected[..]);
}

#[test]
fn query_text_is_url_safe_base64() {
    let mut bytes = vec![0xab, 0xcd, 1, 0, 0, 1, 0, 0, 0, 0, 0, 0];
    bytes.extend_from_slice(&question(&[b"discord", b"com"], 1));
    assert_eq!(
        encode_query(&bytes),
        Some("q80BAAABAAAAAAAAB2Rpc2NvcmQDY29tAAABAAE".to_string())
    );
    assert_eq!(encode_query(&vec![0xfb, 0xff]), Some("-_8".to_string()));
    assert_eq!(encode_query(&vec![]), Some("".to_string()));
}

#[test]
fn names_with_long_labels_have_no_query() {
    let name = format!("{}.com", "a".repeat(300));
    assert_eq!(create_queries(&name), Err(DnsError::NameTooLong));
}

#[test]
fn response_with_both_families() {
    let bytes = response(
        0x8180,
        &[
            (5, b"\x03www\xC0\x0C".to_vec()),
            (1, vec![162, 159, 128, 233]),
            (28, vec![0x20, 1, 0xd, 0xb8, 0, 0, 0, 0, 0, 0, 0, 0, 0, 0, 0, 7]),
            (1, vec![1, 1, 1, 1]),
        ],
    );
    assert_eq!(
        parse_dns_response_with(&bytes, false),
        Ok(SocketAddress { ip: IpAddress::V4(162, 159, 128, 233), port: 443 })
    );
    assert_eq!(
        parse_dns_response_with(&bytes, true),
        Ok(SocketAddress {
            ip: IpAddress::V6(0x20, 1, 0xd, 0xb8, 0, 0, 0, 0, 0, 0, 0, 0, 0, 0, 0, 7),
            port: 443
        })
    );
    let here = parse_dns_response(&bytes);
    assert!(here == parse_dns_response_with(&bytes, true) || here == parse_dns_response_with(&bytes, false));
    assert!(probe_accepts(&bytes));
}

#[test]
fn response_with_ipv4_only() {
    let bytes = response(0x8180, &[(1, vec![10, 0, 0, 1])]);
    let expected = Ok(SocketAddress { ip: IpAddress::V4(10, 0, 0, 1), port: 443 });
    assert_eq!(parse_dns_response_with(&bytes, true), expected);
    assert_eq!(parse_dns_response_with(&bytes, false), expected);
    assert_eq!(parse_dns_response(&bytes), expected);
}

#[test]
fn responses_that_do_not_resolve() {
    assert_eq!(parse_dns_response_with(&[1, 2, 3], false), Err(DnsError::Malformed));
    assert!(!probe_accepts(&[1, 2, 3]));
    let refused = response(0x8183, &[(1, vec![10, 0, 0, 1])]);
    assert_eq!(parse_dns_response_with(&refused, false), Err(DnsError::BadRecord));
    assert!(probe_accepts(&refused));
    let query = response(0x0100, &[(1, vec![10, 0, 0, 1])]);
    assert_eq!(parse_dns_response_with(&query, false), Err(DnsError::BadRecord));
    let unknown = response(0x8180, &[(99, vec![1]), (1, vec![10, 0, 0, 1]), (65, vec![])]);
    assert_eq!(
        parse_dns_response_with(&unknown, false),
        Ok(SocketAddress { ip: IpAddress::V4(10, 0, 0, 1), port: 443 })
    );
    let short = response(0x8180, &[(1, vec![10, 0])]);
    assert_eq!(parse_dns_response_with(&short, false), Err(DnsError::InvalidData));
    let short6 = response(0x8180, &[(28, vec![10, 0, 0, 1])]);
    assert_eq!(parse_dns_response_with(&short6, true), Err(DnsError::InvalidData));
    let empty = response(0x8180, &[]);
    assert_eq!(parse_dns_response_with(&empty, true), Err(DnsError::NoAddress));
    let text = response(0x8180, &[(16, b"\x02hi".to_vec())]);
    assert_eq!(parse_dns_response_with(&text, true), Err(DnsError::NoAddress));
    let six = response(0x8180, &[(28, vec![0; 16])]);
    assert_eq!(parse_dns_response_with(&six, false), Err(DnsError::NoAddress));
}

#[test]
fn address_selection_on_plain_values() {
    let v4 = IpAddress::V4(1, 2, 3, 4);
    let v6 = IpAddress::V6(0, 0, 0, 0, 0, 0, 0, 0, 0, 0, 0, 0, 0, 0, 0, 1);
    let v4_octets = [1u8, 2, 3, 4];
    let mut v6_octets = [0u8; 16];
    v6_octets[15] = 1;
    let a = DnsAnswer { kind: Some(RecordKind::A), ipv4: Some(v4_octets), ipv6: None };
    let aaaa =
        DnsAnswer { kind: Some(RecordKind::AAAA), ipv4: Some(v4_octets), ipv6: Some(v6_octets) };
    let other = DnsAnswer { kind: Some(RecordKind::Other), ipv4: None, ipv6: None };
    let reply = DnsReply { successful: true, answers: vec![other, aaaa, a] };
    assert_eq!(select_address(&reply, true), Ok(SocketAddress { ip: v6, port: 443 }));
    assert_eq!(select_address(&reply, false), Ok(SocketAddress { ip: v4, port: 443 }));
    let failed = DnsReply { successful: false, answers: vec![a] };
    assert_eq!(select_address(&failed, false), Err(DnsError::BadRecord));
    let unknown = DnsAnswer { kind: None, ipv4: Some(v4_octets), ipv6: None };
    let reply = DnsReply { successful: true, answers: vec![unknown, other] };
    assert_eq!(select_address(&reply, false), Err(DnsError::NoAddress));
    let short = DnsAnswer { kind: Some(RecordKind::A), ipv4: None, ipv6: None };
    let reply = DnsReply { successful: true, answers: vec![a, short] };
    assert_eq!(select_address(&reply, false), Err(DnsError::InvalidData));
}

#[test]
fn urls_for_every_endpoint_and_query() {
    let servers = vec!["https://a.example/q?dns={}".to_string(), "https://b.example/{}/x".to_string()];
    let queries = vec!["AAA".to_string(), "BBB".to_string()];
    assert_eq!(
        request_urls(&servers, &queries),
        vec![
            "https://a.example/q?dns=AAA".to_string(),
            "https://a.example/q?dns=BBB".to_string(),
            "https://b.example/AAA/x".to_string(),
            "https://b.example/BBB/x".to_string(),
        ]
    );
    assert_eq!(request_urls(&vec![], &queries), Vec::<String>::new());
    assert_eq!(request_urls(&servers, &vec![]), Vec::<String>::new());
    assert_eq!(
        request_urls(&vec!["{}{}-{".to_string()], &vec!["x".to_string()]),
        vec!["xx-{".to_string()]
    );
}

#[test]
fn endpoints_that_answered_the_probe() {
    let servers = vec!["one".to_string(), "two".to_string(), "three".to_string(), "four".to_string()];
    let good = response(0x8180, &[(1, vec![10, 0, 0, 1])]);
    let responses = vec![Some(good.clone()), None, Some(vec![1, 2, 3]), Some(good)];
    assert_eq!(working_servers(&servers, &responses), vec!["one".to_string(), "four".to_string()]);
}

#[test]
fn resolution_plan() {
    let mut config = AuxConfig::default();
    let working = vec!["https://a.example/{}".to_string(), "https://b.example/?q={}".to_string()];
    let plan = DOHResolver::doh_resolver(&config, &working, "discord.com").unwrap();
    assert!(!plan.system_first);
    assert_eq!(plan.urls.len(), 4);
    let wire = |url: &str, prefix: &str| decode(&url[prefix.len()..]);
    assert!(plan.urls[0].starts_with("https://a.example/"));
    assert!(plan.urls[3].starts_with("https://b.example/?q="));
    assert_eq!(wire(&plan.urls[0], "https://a.example/")[12..], question(&[b"discord", b"com"], 1)[..]);
    assert_eq!(wire(&plan.urls[1], "https://a.example/")[12..], question(&[b"discord", b"com"], 28)[..]);
    assert_eq!(wire(&plan.urls[2], "https://b.example/?q=")[12..], question(&[b"discord", b"com"], 1)[..]);
    config.dns_options.integrated_doh_enabled = false;
    let plan = DOHResolver::doh_resolver(&config, &vec![], "discord.com").unwrap();
    assert!(plan.system_first);
    assert_eq!(plan.urls, Vec::<String>::new());
    let long = format!("{}.com", "a".repeat(256));
    assert_eq!(DOHResolver::doh_resolver(&config, &working, &long), Err(DnsError::NameTooLong));
}
