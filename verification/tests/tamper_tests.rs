use waterfall::config::HttpOptions;
use waterfall::tamper::{as_record, edit_http, edit_tls};

fn options(cmix: bool, rmspace: bool, space: bool, domain: bool) -> HttpOptions {
    HttpOptions {
        http_host_cmix: cmix,
        http_host_rmspace: rmspace,
        http_host_space: space,
        http_domain_cmix: domain,
    }
}

#[test]
fn as_record_prefixes_the_header() {
    assert_eq!(as_record(vec![1, 2, 3]), vec![0x16, 0x03, 0x01, 0x00, 0x03, 1, 2, 3]);
    assert_eq!(as_record(vec![]), vec![0x16, 0x03, 0x01, 0x00, 0x00]);
    let payload = vec![7u8; 0x1234];
    let record = as_record(payload.clone());
    assert_eq!(&record[..5], &[0x16, 0x03, 0x01, 0x12, 0x34]);
    assert_eq!(&record[5..], &payload[..]);
}

#[test]
fn edit_tls_splits_the_payload_in_two_records() {
    let data = vec![0x16, 0x03, 0x01, 0x00, 0x05, 10, 20, 30, 40, 50];
    assert_eq!(
        edit_tls(data, 2),
        vec![0x16, 0x03, 0x01, 0x00, 0x02, 10, 20, 0x16, 0x03, 0x01, 0x00, 0x03, 30, 40, 50]
    );
}

#[test]
fn edit_tls_at_the_ends_of_the_payload() {
    let data = vec![0x16, 0x03, 0x01, 0x00, 0x02, 10, 20];
    assert_eq!(
        edit_tls(data.clone(), 0),
        vec![0x16, 0x03, 0x01, 0x00, 0x00, 0x16, 0x03, 0x01, 0x00, 0x02, 10, 20]
    );
    assert_eq!(
        edit_tls(data, 2),
        vec![0x16, 0x03, 0x01, 0x00, 0x02, 10, 20, 0x16, 0x03, 0x01, 0x00, 0x00]
    );
}

#[test]
fn edit_tls_leaves_other_data_alone() {
    let http = b"GET / HTTP/1.1".to_vec();
    assert_eq!(edit_tls(http.clone(), 3), http);
    let record = vec![0x16, 0x03, 0x01, 0x00, 0x02, 10, 20];
    assert_eq!(edit_tls(record.clone(), 3), record);
    assert_eq!(edit_tls(vec![0x16, 0x03, 0x01], 0), vec![0x16, 0x03, 0x01]);
    assert_eq!(edit_tls(vec![], 0), Vec::<u8>::new());
}

#[test]
fn edit_http_without_options_changes_nothing() {
    let data = b"GET / HTTP/1.1\r\nHost: example.com\r\n\r\n".to_vec();
    assert_eq!(edit_http(data.clone(), &options(false, false, false, false)), data);
}

#[test]
fn edit_http_mixes_the_case_of_the_header() {
    let data = b"GET / HTTP/1.1\r\nHost: example.com\r\n".to_vec();
    assert_eq!(
        edit_http(data, &options(true, false, false, false)),
        b"GET / HTTP/1.1\r\nHOsT: example.com\r\n".to_vec()
    );
}

#[test]
fn edit_http_removes_the_space() {
    let data = b"Host: example.com".to_vec();
    assert_eq!(edit_http(data, &options(false, true, false, false)), b"Host:example.com".to_vec());
    let data = b"Host:example.com".to_vec();
    assert_eq!(edit_http(data, &options(false, true, false, false)), b"Host:example.com".to_vec());
}

#[test]
fn edit_http_inserts_a_space() {
    let data = b"Host: example.com".to_vec();
    assert_eq!(edit_http(data, &options(false, false, true, false)), b"Host:  example.com".to_vec());
}

#[test]
fn edit_http_raises_the_first_letter_of_the_domain() {
    let data = b"Host: example.com".to_vec();
    assert_eq!(edit_http(data, &options(false, false, false, true)), b"Host: Example.com".to_vec());
    let data = b"Host: 1.example.com".to_vec();
    assert_eq!(edit_http(data, &options(false, false, false, true)), b"Host: 1.example.com".to_vec());
}

#[test]
fn edit_http_applies_every_option_in_order() {
    let data = b"xHost: example.com Host: b.org".to_vec();
    assert_eq!(
        edit_http(data, &options(true, true, true, true)),
        b"xHOsT: Example.com HOsT: B.org".to_vec()
    );
}

#[test]
fn edit_http_at_the_end_of_the_buffer() {
    assert_eq!(edit_http(b"Host:".to_vec(), &options(true, true, false, true)), b"HOsT:".to_vec());
    assert_eq!(edit_http(b"Host:".to_vec(), &options(false, false, true, true)), b"Host: ".to_vec());
    assert_eq!(edit_http(b"Host".to_vec(), &options(true, true, true, true)), b"Host".to_vec());
}

#[test]
fn edit_http_finds_the_domain_behind_any_spaces() {
    let only_domain = options(false, false, false, true);
    assert_eq!(edit_http(b"Host:example.com".to_vec(), &only_domain), b"Host:Example.com".to_vec());
    assert_eq!(edit_http(b"Host:  example.com".to_vec(), &only_domain), b"Host:  Example.com".to_vec());
    assert_eq!(edit_http(b"Host:   ".to_vec(), &only_domain), b"Host:   ".to_vec());
    let removed = options(false, true, false, true);
    assert_eq!(edit_http(b"Host: example.com".to_vec(), &removed), b"Host:Example.com".to_vec());
    let doubled = options(false, false, true, true);
    assert_eq!(edit_http(b"Host: example.com".to_vec(), &doubled), b"Host:  Example.com".to_vec());
}
