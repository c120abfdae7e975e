use waterfall::config::{FilterSniList, Strategies, Strategy};
use waterfall::fake::FakeD;
use waterfall::split::{get_split_packet, split_middle};
use waterfall::strategy::{Disorder, DisorderD, Oob, OobD, Split, SplitPacket};

fn strategy(base_index: i64, add_sni: bool) -> Strategy {
    Strategy {
        method: Strategies::SPLIT,
        base_index,
        add_sni,
        add_host: false,
        subtract: false,
        filter_protocol: None,
        filter_port: None,
        filter_sni: FilterSniList { items: vec![] },
    }
}

#[test]
fn split_inside_the_buffer() {
    let buf = vec![1u8, 2, 3, 4, 5];
    let parts = get_split_packet(&buf, &strategy(2, false), &(0, 0));
    assert_eq!(parts, vec![vec![1, 2], vec![3, 4, 5]]);
    let mut joined = parts[0].clone();
    joined.extend_from_slice(&parts[1]);
    assert_eq!(joined, buf);
    assert_eq!(parts[0].len(), 2);
}

#[test]
fn split_counts_from_the_server_name() {
    let buf: Vec<u8> = (0u8..20).collect();
    let parts = get_split_packet(&buf, &strategy(3, true), &(10, 15));
    assert_eq!(parts[0].len(), 13);
    assert_eq!(parts[1].len(), 7);
    let parts = get_split_packet(&buf, &strategy(-3, true), &(10, 15));
    assert_eq!(parts[0].len(), 7);
    let parts = get_split_packet(&buf, &strategy(3, false), &(10, 15));
    assert_eq!(parts[0].len(), 3);
}

#[test]
fn no_split_at_or_outside_the_ends() {
    let buf = vec![1u8, 2, 3];
    assert_eq!(get_split_packet(&buf, &strategy(0, false), &(0, 0)), vec![buf.clone()]);
    assert_eq!(get_split_packet(&buf, &strategy(3, false), &(0, 0)), vec![buf.clone()]);
    assert_eq!(get_split_packet(&buf, &strategy(-1, false), &(0, 0)), vec![buf.clone()]);
    assert_eq!(get_split_packet(&buf, &strategy(i64::MAX, true), &(u32::MAX, u32::MAX)), vec![buf.clone()]);
    assert_eq!(get_split_packet(&buf, &strategy(i64::MIN, false), &(0, 0)), vec![buf.clone()]);
    assert_eq!(get_split_packet(&[], &strategy(1, false), &(0, 0)), vec![Vec::<u8>::new()]);
}

#[test]
fn split_middle_is_exact() {
    assert_eq!(split_middle(&strategy(2, false), &(7, 9), 5), Some(2));
    assert_eq!(split_middle(&strategy(2, true), &(7, 9), 10), Some(9));
    assert_eq!(split_middle(&strategy(2, true), &(7, 9), 9), None);
    assert_eq!(split_middle(&strategy(-7, true), &(7, 9), 9), None);
}

#[test]
fn every_family_splits_alike() {
    let buf = vec![1u8, 2, 3, 4];
    let s = strategy(1, false);
    let expected = vec![vec![1u8], vec![2u8, 3, 4]];
    assert_eq!(Split::get_split_packet(&buf, &s, &(0, 0)), expected);
    assert_eq!(DisorderD::<Disorder>::get_split_packet(&buf, &s, &(0, 0)), expected);
    assert_eq!(OobD::<Oob>::get_split_packet(&buf, &s, &(0, 0)), expected);
    assert_eq!(FakeD::<Split>::get_split_packet(&buf, &s, &(0, 0)), expected);
}
