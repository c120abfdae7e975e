use waterfall::config::{AuxConfig, FilterSniList, Strategies, Strategy};
use waterfall::fake::FakeD;
use waterfall::ops::{
    disable_sack, sack_filter, send_drop, send_duplicate, send_short_lived_oob, set_ttl_raw,
    write_all, write_oob_multi, FilterInstruction, SocketOp,
};
use waterfall::strategy::{
    Disoob, Disorder, Disorder2, Fake, Fake2Disorder, FakeInsert, FakeMD, FakeSurround, FragTls,
    Meltdown, Oob, Oob2, OobStream, Split, StrategyExecutor,
};

fn config() -> AuxConfig {
    let mut config = AuxConfig::default();
    config.fake_packet_options.fake_packet_ttl = 3;
    config.desync_options.default_ttl = 64;
    config.desync_options.out_of_band_charid = 0x2a;
    config.fake_packet_options.fake_packet_override_data = Some(vec![0xfa, 0xce]);
    config.socket_options.so_oob_streamhell_data = "ab".to_string();
    config
}

fn parts() -> Vec<Vec<u8>> {
    vec![vec![1, 2], vec![3, 4, 5]]
}

fn whole() -> Vec<Vec<u8>> {
    vec![vec![1, 2, 3, 4, 5]]
}

fn fake_drop() -> Vec<SocketOp> {
    vec![SocketOp::SetTtl(3), SocketOp::Write(vec![0xfa]), SocketOp::SetTtl(64)]
}

fn duplicate(data: Vec<u8>) -> Vec<SocketOp> {
    vec![SocketOp::SetTtl(1), SocketOp::Write(data), SocketOp::SetTtl(64)]
}

fn final_ttl(plan: &[SocketOp], start: u32) -> u32 {
    let mut ttl = start;
    for op in plan {
        if let SocketOp::SetTtl(t) = op {
            ttl = *t;
        }
    }
    ttl
}

#[test]
fn send_drop_sends_one_byte_in_an_envelope() {
    let config = config();
    let mut plan = vec![];
    send_drop(&mut plan, vec![9, 8, 7], &config);
    assert_eq!(plan, vec![SocketOp::SetTtl(3), SocketOp::Write(vec![9]), SocketOp::SetTtl(64)]);
    assert_eq!(final_ttl(&plan, 17), 64);
}

#[test]
fn send_drop_as_urgent_data() {
    let mut config = config();
    config.fake_packet_options.fake_as_oob = true;
    let mut plan = vec![SocketOp::DisableSack];
    send_drop(&mut plan, vec![9, 8, 7], &config);
    assert_eq!(
        plan,
        vec![
            SocketOp::DisableSack,
            SocketOp::SetTtl(3),
            SocketOp::WriteOob(vec![9]),
            SocketOp::SetTtl(64)
        ]
    );
}

#[test]
fn send_drop_of_nothing_still_restores_the_hop_limit() {
    let config = config();
    let mut plan = vec![];
    send_drop(&mut plan, vec![], &config);
    assert_eq!(plan, vec![SocketOp::SetTtl(3), SocketOp::SetTtl(64)]);
}

#[test]
fn send_duplicate_dies_after_one_hop() {
    let config = config();
    let mut plan = vec![];
    send_duplicate(&mut plan, vec![9, 8, 7], &config);
    assert_eq!(plan, duplicate(vec![9, 8, 7]));
    assert_eq!(final_ttl(&plan, 5), 64);
}

#[test]
fn plain_operations() {
    let config = config();
    let mut plan = vec![];
    set_ttl_raw(&mut plan, 12);
    write_all(&mut plan, vec![1]);
    write_oob_multi(&mut plan, vec![2, 3]);
    disable_sack(&mut plan);
    send_short_lived_oob(&mut plan, vec![4], &config);
    assert_eq!(
        plan,
        vec![
            SocketOp::SetTtl(12),
            SocketOp::Write(vec![1]),
            SocketOp::WriteOob(vec![2, 3]),
            SocketOp::DisableSack,
            SocketOp::SetTtl(1),
            SocketOp::WriteOob(vec![4]),
            SocketOp::SetTtl(64),
        ]
    );
}

#[test]
fn split_writes_the_first_part() {
    let mut current = vec![1, 2, 3, 4, 5];
    let plan = Split::execute_strategy(parts(), &mut current, &config());
    assert_eq!(plan, vec![SocketOp::Write(vec![1, 2])]);
    assert_eq!(current, vec![3, 4, 5]);
}

#[test]
fn unsplit_data_is_left_alone() {
    let config = config();
    let mut current = vec![1, 2, 3, 4, 5];
    assert_eq!(Split::execute_strategy(whole(), &mut current, &config), vec![]);
    assert_eq!(Disorder::execute_strategy(whole(), &mut current, &config), vec![]);
    assert_eq!(Disorder2::execute_strategy(whole(), &mut current, &config), vec![]);
    assert_eq!(Fake::execute_strategy(whole(), &mut current, &config), vec![]);
    assert_eq!(FakeMD::execute_strategy(whole(), &mut current, &config), vec![]);
    assert_eq!(FakeInsert::execute_strategy(whole(), &mut current, &config), vec![]);
    assert_eq!(Fake2Disorder::execute_strategy(whole(), &mut current, &config), vec![]);
    assert_eq!(FakeSurround::execute_strategy(whole(), &mut current, &config), vec![]);
    assert_eq!(Oob::execute_strategy(whole(), &mut current, &config), vec![]);
    assert_eq!(Oob2::execute_strategy(whole(), &mut current, &config), vec![]);
    assert_eq!(Disoob::execute_strategy(whole(), &mut current, &config), vec![]);
    assert_eq!(OobStream::execute_strategy(whole(), &mut current, &config), vec![]);
    assert_eq!(current, vec![1, 2, 3, 4, 5]);
}

#[test]
fn disorder_duplicates_the_first_part() {
    let mut current = vec![1, 2, 3, 4, 5];
    let plan = Disorder::execute_strategy(parts(), &mut current, &config());
    assert_eq!(plan, duplicate(vec![1, 2]));
    assert_eq!(current, vec![3, 4, 5]);
}

#[test]
fn disorder2_duplicates_the_second_part() {
    let mut current = vec![1, 2, 3, 4, 5];
    let plan = Disorder2::execute_strategy(parts(), &mut current, &config());
    let mut expected = vec![SocketOp::Write(vec![1, 2])];
    expected.extend(duplicate(vec![3, 4, 5]));
    assert_eq!(plan, expected);
    assert_eq!(current, Vec::<u8>::new());
}

#[test]
fn fake_duplicates_then_fakes() {
    let mut current = vec![1, 2, 3, 4, 5];
    let plan = Fake::execute_strategy(parts(), &mut current, &config());
    let mut expected = duplicate(vec![1, 2]);
    expected.extend(fake_drop());
    assert_eq!(plan, expected);
    assert_eq!(current, vec![3, 4, 5]);
}

#[test]
fn fakemd_writes_then_fakes() {
    let mut current = vec![1, 2, 3, 4, 5];
    let plan = FakeMD::execute_strategy(parts(), &mut current, &config());
    let mut expected = vec![SocketOp::Write(vec![1, 2])];
    expected.extend(fake_drop());
    assert_eq!(plan, expected);
    assert_eq!(current, vec![3, 4, 5]);
}

#[test]
fn fakes_are_made_of_the_first_part_when_reversed() {
    let mut config = config();
    config.fake_packet_options.fake_packet_override_data = None;
    config.fake_packet_options.fake_packet_reversed = true;
    let mut current = vec![1, 2, 3, 4, 5];
    let plan = FakeMD::execute_strategy(parts(), &mut current, &config);
    assert_eq!(
        plan,
        vec![
            SocketOp::Write(vec![1, 2]),
            SocketOp::SetTtl(3),
            SocketOp::Write(vec![1]),
            SocketOp::SetTtl(64)
        ]
    );
    config.fake_packet_options.fake_packet_reversed = false;
    let plan = FakeMD::execute_strategy(parts(), &mut current, &config);
    assert_eq!(plan[2], SocketOp::Write(vec![3]));
    config.fake_packet_options.fake_packet_reversed = true;
    let plan = FakeInsert::execute_strategy(parts(), &mut current, &config);
    assert_eq!(plan[2], SocketOp::Write(vec![3]));
}

#[test]
fn fake2insert_keeps_the_second_part() {
    let mut current = vec![1, 2, 3, 4, 5];
    let plan = FakeInsert::execute_strategy(parts(), &mut current, &config());
    let mut expected = vec![SocketOp::Write(vec![1, 2])];
    expected.extend(fake_drop());
    assert_eq!(plan, expected);
    assert_eq!(current, vec![3, 4, 5]);
}

#[test]
fn fake2disorder_sends_everything() {
    let mut current = vec![1, 2, 3, 4, 5];
    let plan = Fake2Disorder::execute_strategy(parts(), &mut current, &config());
    let mut expected = vec![SocketOp::Write(vec![1, 2])];
    expected.extend(fake_drop());
    expected.extend(duplicate(vec![3, 4, 5]));
    assert_eq!(plan, expected);
    assert_eq!(current, Vec::<u8>::new());
    assert_eq!(final_ttl(&plan, 64), 64);
}

#[test]
fn fakesurround_fakes_on_both_sides() {
    let mut current = vec![1, 2, 3, 4, 5];
    let plan = FakeSurround::execute_strategy(parts(), &mut current, &config());
    let mut expected = fake_drop();
    expected.push(SocketOp::Write(vec![1, 2]));
    expected.extend(fake_drop());
    assert_eq!(plan, expected);
    assert_eq!(current, vec![3, 4, 5]);
}

#[test]
fn meltdown_duplicates_everything() {
    let mut current = vec![1, 2, 3, 4, 5];
    let plan = Meltdown::execute_strategy(whole(), &mut current, &config());
    assert_eq!(plan, duplicate(vec![1, 2, 3, 4, 5]));
    assert_eq!(current, Vec::<u8>::new());
}

#[test]
fn oob_appends_the_marker() {
    let mut current = vec![1, 2, 3, 4, 5];
    let plan = Oob::execute_strategy(parts(), &mut current, &config());
    assert_eq!(plan, vec![SocketOp::WriteOob(vec![1, 2, 0x2a])]);
    assert_eq!(current, vec![3, 4, 5]);
}

#[test]
fn disoob_sends_short_lived_urgent_data() {
    let mut current = vec![1, 2, 3, 4, 5];
    let plan = Disoob::execute_strategy(parts(), &mut current, &config());
    assert_eq!(
        plan,
        vec![SocketOp::SetTtl(1), SocketOp::WriteOob(vec![1, 2, 0x2a]), SocketOp::SetTtl(64)]
    );
    assert_eq!(current, vec![3, 4, 5]);
}

#[test]
fn oob2_sends_everything() {
    let mut current = vec![1, 2, 3, 4, 5];
    let plan = Oob2::execute_strategy(parts(), &mut current, &config());
    let mut expected =
        vec![SocketOp::SetTtl(1), SocketOp::WriteOob(vec![1, 2, 0x2a]), SocketOp::SetTtl(64)];
    expected.extend(duplicate(vec![3, 4, 5]));
    assert_eq!(plan, expected);
    assert_eq!(current, Vec::<u8>::new());
}

#[test]
fn oobstreamhell_streams_urgent_bytes() {
    let mut current = vec![1, 2, 3, 4, 5];
    let plan = OobStream::execute_strategy(parts(), &mut current, &config());
    assert_eq!(
        plan,
        vec![
            SocketOp::Write(vec![1, 2]),
            SocketOp::WriteOob(vec![b'a']),
            SocketOp::WriteOob(vec![b'b'])
        ]
    );
    assert_eq!(current, vec![3, 4, 5]);
}

fn fragtls(base_index: i64, add_sni: bool) -> Strategy {
    Strategy {
        method: Strategies::FRAGTLS,
        base_index,
        add_sni,
        add_host: false,
        subtract: false,
        filter_protocol: None,
        filter_port: None,
        filter_sni: FilterSniList { items: vec![] },
    }
}

#[test]
fn fragtls_refragments_the_record() {
    let mut current = vec![0x16, 0x03, 0x01, 0x00, 0x04, 1, 2, 3, 4];
    FragTls::execute_strategy(&mut current, &fragtls(1, false), &(2, 3));
    assert_eq!(current, vec![0x16, 0x03, 0x01, 0, 1, 1, 0x16, 0x03, 0x01, 0, 3, 2, 3, 4]);
    let mut current = vec![0x16, 0x03, 0x01, 0x00, 0x04, 1, 2, 3, 4];
    FragTls::execute_strategy(&mut current, &fragtls(1, true), &(2, 3));
    assert_eq!(current, vec![0x16, 0x03, 0x01, 0, 3, 1, 2, 3, 0x16, 0x03, 0x01, 0, 1, 4]);
}

#[test]
fn fragtls_leaves_what_it_cannot_split() {
    let record = vec![0x16, 0x03, 0x01, 0x00, 0x04, 1, 2, 3, 4];
    let mut current = record.clone();
    FragTls::execute_strategy(&mut current, &fragtls(-1, false), &(0, 0));
    assert_eq!(current, record);
    FragTls::execute_strategy(&mut current, &fragtls(5, false), &(0, 0));
    assert_eq!(current, record);
    FragTls::execute_strategy(&mut current, &fragtls(i64::MAX, true), &(u32::MAX, 0));
    assert_eq!(current, record);
    let mut current = vec![0x17, 0x03, 0x01, 0x00, 0x04, 1, 2, 3, 4];
    FragTls::execute_strategy(&mut current, &fragtls(1, false), &(0, 0));
    assert_eq!(current, vec![0x17, 0x03, 0x01, 0x00, 0x04, 1, 2, 3, 4]);
}

#[test]
fn fake_http_request() {
    assert_eq!(
        FakeD::<Fake>::get_fake_http("yandex.ru".to_string()),
        "GET / HTTP 1.1\nHost: yandex.ru\nContent-Type: text/html\nContent-Length: 1\na".to_string()
    );
}

fn client_hello(name: &[u8]) -> Vec<u8> {
    let mut buf = vec![0x11u8; 100];
    buf[0] = 0x16;
    buf[1] = 0x03;
    buf[2] = 0x01;
    buf[5] = 0x01;
    let at = 60;
    buf[at] = 0x00;
    buf[at + 1] = 0x00;
    buf[at + 2] = 0x00;
    buf[at + 3] = (name.len() + 5) as u8;
    buf[at + 4] = 0x00;
    buf[at + 5] = (name.len() + 3) as u8;
    buf[at + 6] = 0x00;
    buf[at + 7] = 0x00;
    buf[at + 8] = name.len() as u8;
    buf[at + 9..at + 9 + name.len()].copy_from_slice(name);
    buf
}

#[test]
fn fake_packet_overrides_and_http() {
    let mut config = AuxConfig::default();
    config.fake_packet_options.fake_packet_override_data = Some(vec![1, 2, 3]);
    config.fake_packet_options.fake_packet_send_http = true;
    assert_eq!(FakeD::<Fake>::get_fake_packet(vec![9; 10], &config), vec![1, 2, 3]);
    config.fake_packet_options.fake_packet_override_data = None;
    config.fake_packet_options.fake_packet_host = "h.example".to_string();
    assert_eq!(
        FakeD::<Fake>::get_fake_packet(vec![9; 10], &config),
        b"GET / HTTP 1.1\nHost: h.example\nContent-Type: text/html\nContent-Length: 1\na".to_vec()
    );
}

#[test]
fn fake_packet_overwrites_the_server_name() {
    let mut config = AuxConfig::default();
    config.fake_packet_options.fake_packet_sni = "yandex.ru".to_string();
    let real = client_hello(b"google.com.");
    let fake = FakeD::<Fake>::get_fake_packet(real.clone(), &config);
    assert_eq!(fake.len(), real.len());
    assert_eq!(&fake[69..80], b"yandex.rum.");
    assert_eq!(&fake[..69], &real[..69]);
    assert_eq!(&fake[80..], &real[80..]);
}

#[test]
fn fake_server_name_is_cut_to_the_real_one() {
    let mut config = AuxConfig::default();
    config.fake_packet_options.fake_packet_sni = "a-very-long-name.example".to_string();
    let real = client_hello(b"g.co");
    let fake = FakeD::<Fake>::get_fake_packet(real.clone(), &config);
    assert_eq!(&fake[69..73], b"a-ve");
    assert_eq!(&fake[73..], &real[73..]);
    let plain = vec![5u8; 60];
    assert_eq!(FakeD::<Fake>::get_fake_packet(plain.clone(), &config), plain);
}

#[test]
fn sack_filter_program() {
    let program = sack_filter();
    assert_eq!(program.len(), 7);
    assert_eq!(program[0], FilterInstruction { code: 0x30, jt: 0, jf: 0, k: 12 });
    assert_eq!(program[2], FilterInstruction { code: 0x35, jt: 3, jf: 0, k: 11 });
    assert_eq!(program[4], FilterInstruction { code: 0x15, jt: 1, jf: 0, k: 5 });
    assert_eq!(program[6], FilterInstruction { code: 0x6, jt: 0, jf: 0, k: 0x40000 });
}
