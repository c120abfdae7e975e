//! The desynchronisation pipeline: what is done to one chunk on its way from
//! the client to the server.

use crate::bytes::{append_bytes, copy_all};
use crate::config::{
    AuxConfig, NetworkProtocol, Strategies, Strategy, WeakRange, WhiteListedSNIWrapper,
};
use crate::fake::FakeD;
use crate::filter::{
    observed_name, sni_faithful, sni_verdict, text_view, whitelist_verdict, Whitelist,
};
use crate::ops::{
    default_ttl, disable_sack, drop_ops, lemma_envelope_restores_ttl, lemma_ttl_after_concat,
    plan_view, send_drop, ttl_after, SocketOp, SocketOpView,
};
use crate::pattern::{process_packet, processed, PatternToken};
use crate::random::{lcg_next, lcg_output, make_random_vec, random_bytes, Random};
use crate::router::RouterError;
use crate::sni::{sni_span, Sni};
use crate::split::{split_parts, split_point};
use crate::strategy::{
    fragtls_rest, lemma_strategy_restores_ttl, strategy_ops, strategy_rest, Disoob, Disorder, Disorder2, DisorderD,
    DisorderedOOB, Fake, Fake2Disorder, FakeInsert, FakeMD, FakeSurround, FragTls, Meltdown, Oob,
    Oob2, OobD, OobStream, Split, SplitPacket, StrategyExecutor,
};
use crate::tamper::{edit_http, http_edited};
use vstd::prelude::*;
use vstd::utf8::encode_utf8;

verus! {

/// What has been planned for a chunk so far, and what of it is still to be sent.
pub ghost struct Progress {
    pub ops: Seq<SocketOpView>,
    pub current: Seq<u8>,
}

/// The plan `ops` with `current` still to be sent.
pub open spec fn progress_of(ops: Seq<SocketOpView>, current: Seq<u8>) -> Progress {
    Progress { ops, current }
}

/// The start of a minimal-looking ClientHello, to which a fake server name is
/// appended.
pub open spec fn canned_client_hello() -> Seq<u8> {
    seq![
        0x16u8,
        0x03,
        0x01,
        0x00,
        0xa5,
        0x01,
        0x00,
        0x00,
        0xa1,
        0x03,
        0x03,
    ] + Seq::new(34, |i: int| 0u8) + seq![2u8, 0x00, 0x0a, 0x01, 0x00, 0x00, 16, 0x00, 0x00, 0x00, 0x28]
}

/// The fake ClientHello that goes out before anything else, where a server
/// name was found and the configuration asks for it.
pub open spec fn preamble_ops(config: AuxConfig, sni_data: (u32, u32)) -> Seq<SocketOpView> {
    if sni_data != (0u32, 0u32) && config.fake_packet_options.fake_clienthello {
        drop_ops(
            config,
            canned_client_hello() + encode_utf8(config.fake_packet_options.fake_clienthello_sni@),
        )
    } else {
        Seq::empty()
    }
}

/// What follows the strategies: the filter against selective acknowledgements
/// and a fake packet of 32 pseudo-random bytes, each where the configuration
/// asks for it.
pub open spec fn closing_ops(config: AuxConfig) -> Seq<SocketOpView> {
    (if config.socket_options.so_disable_sack {
        seq![SocketOpView::DisableSack]
    } else {
        Seq::empty()
    }) + (if config.fake_packet_options.fake_packet_random {
        drop_ops(config, random_bytes(0xDEAD, 32))
    } else {
        Seq::empty()
    })
}

/// The names of a filter list.
pub open spec fn filter_names(items: Seq<WhiteListedSNIWrapper>) -> Seq<Seq<char>> {
    Seq::new(items.len(), |i: int| items[i].value@)
}

/// The strategy is not restricted to another transport than TCP.
pub open spec fn protocol_passes(filter: Option<NetworkProtocol>) -> bool {
    filter is None || filter == Some(NetworkProtocol::TCP)
}

/// The port of the peer, where it is known, lies in the range of the strategy.
pub open spec fn port_passes(range: Option<WeakRange>, port: Option<u16>) -> bool {
    match (range, port) {
        (Some(range), Some(port)) => port >= range.start && match range.end {
            Some(end) => port <= end,
            None => true,
        },
        _ => true,
    }
}

/// Whether a strategy works on a chunk: not where it counts from a server
/// name that was not found, not where its filter keeps it off the observed
/// name, not where it is for another transport or another port.
pub open spec fn strategy_verdict(
    strategy: Strategy,
    sni_data: (u32, u32),
    name: Option<Seq<char>>,
    blocked: Result<bool, RouterError>,
    port: Option<u16>,
) -> Result<bool, RouterError> {
    if strategy.add_sni && sni_data == (0u32, 0u32) {
        Ok(false)
    } else {
        match whitelist_verdict(Some(filter_names(strategy.filter_sni.items@)), name, blocked) {
            Err(e) => Err(e),
            Ok(false) => Ok(false),
            Ok(true) => Ok(
                protocol_passes(strategy.filter_protocol) && port_passes(
                    strategy.filter_port,
                    port,
                ),
            ),
        }
    }
}

/// What a strategy that works on the data adds to the plan and leaves to be sent.
pub open spec fn applied(
    config: AuxConfig,
    strategy: Strategy,
    sni_data: (u32, u32),
    before: Progress,
) -> Progress {
    if strategy.method == Strategies::FRAGTLS {
        Progress { ops: before.ops, current: fragtls_rest(strategy, sni_data, before.current) }
    } else {
        let parts = split_parts(before.current, split_point(strategy, sni_data));
        Progress {
            ops: before.ops + strategy_ops(strategy.method, config, parts, before.current),
            current: strategy_rest(strategy.method, parts, before.current),
        }
    }
}

/// The plan after the strategies from `i` on were gone through in order, for
/// the server name that was observed in the chunk and what the rules say of it.
pub open spec fn strategies_from(
    config: AuxConfig,
    i: int,
    sni_data: (u32, u32),
    port: Option<u16>,
    name: Option<Seq<char>>,
    blocked: Result<bool, RouterError>,
    before: Progress,
) -> Result<Progress, RouterError>
    decreases config.strategies@.len() - i,
{
    if i < 0 || i >= config.strategies@.len() {
        Ok(before)
    } else {
        match config.strategies@[i] {
            None => strategies_from(config, i + 1, sni_data, port, name, blocked, before),
            Some(strategy) => match strategy_verdict(strategy, sni_data, name, blocked, port) {
                Err(e) => Err(e),
                Ok(false) => strategies_from(config, i + 1, sni_data, port, name, blocked, before),
                Ok(true) => strategies_from(
                    config,
                    i + 1,
                    sni_data,
                    port,
                    name,
                    blocked,
                    applied(config, strategy, sni_data, before),
                ),
            },
        }
    }
}

/// The whole plan for a chunk in which the server name was located at
/// `sni_data`, where `blocked` says whether the rules block the observed
/// name: the fake ClientHello, the strategies in order, and what follows
/// them.
pub open spec fn l4_plan(
    config: AuxConfig,
    data: Seq<u8>,
    sni_data: (u32, u32),
    port: Option<u16>,
    blocked: Result<bool, RouterError>,
) -> Result<Progress, RouterError> {
    match strategies_from(
        config,
        0,
        sni_data,
        port,
        observed_name(sni_data, data),
        blocked,
        Progress { ops: preamble_ops(config, sni_data), current: data },
    ) {
        Err(e) => Err(e),
        Ok(done) => Ok(Progress { ops: done.ops + closing_ops(config), current: done.current }),
    }
}

/// A plan, with what is left to be sent, or an error.
pub open spec fn planned(r: Result<Vec<SocketOp>, RouterError>, current: Seq<u8>) -> Result<
    Progress,
    RouterError,
> {
    match r {
        Ok(plan) => Ok(progress_of(plan_view(plan@), current)),
        Err(e) => Err(e),
    }
}

/// Appends a plan to a plan.
fn extend_plan(plan: &mut Vec<SocketOp>, more: Vec<SocketOp>)
    ensures
        plan_view(final(plan)@) == plan_view(old(plan)@) + plan_view(more@),
{
    let ghost added = more@;
    let mut rest = more;
    plan.append(&mut rest);
    assert(plan_view(plan@) =~= plan_view(old(plan)@) + plan_view(added));
}

/// The start of the fake ClientHello.
fn canned_hello() -> (out: Vec<u8>)
    ensures
        out@ == canned_client_hello(),
{
    let mut out: Vec<u8> = Vec::new();
    out.push(0x16);
    out.push(0x03);
    out.push(0x01);
    out.push(0x00);
    out.push(0xa5);
    out.push(0x01);
    out.push(0x00);
    out.push(0x00);
    out.push(0xa1);
    out.push(0x03);
    out.push(0x03);
    let ghost head = out@;
    let mut i: usize = 0;
    while i < 34
        invariant
            i <= 34,
            out@ == head + Seq::new(i as nat, |j: int| 0u8),
        decreases 34 - i,
    {
        out.push(0x00);
        i += 1;
        assert(out@ =~= head + Seq::new(i as nat, |j: int| 0u8));
    }
    out.push(2);
    out.push(0x00);
    out.push(0x0a);
    out.push(0x01);
    out.push(0x00);
    out.push(0x00);
    out.push(16);
    out.push(0x00);
    out.push(0x00);
    out.push(0x00);
    out.push(0x28);
    assert(out@ =~= canned_client_hello());
    out
}

/// The names of a filter list.
fn names_of(items: &Vec<WhiteListedSNIWrapper>) -> (names: Vec<String>)
    ensures
        crate::filter::names_view(names@) == filter_names(items@),
{
    let mut names: Vec<String> = Vec::new();
    let mut i: usize = 0;
    while i < items.len()
        invariant
            i <= items@.len(),
            names@.len() == i,
            forall|j: int| 0 <= j < i ==> (#[trigger] names@[j])@ == items@[j].value@,
        decreases items@.len() - i,
    {
        names.push(items[i].value.clone());
        i += 1;
    }
    assert(crate::filter::names_view(names@) =~= filter_names(items@));
    names
}

/// Whether a strategy works on a chunk.
fn strategy_applies(
    strategy: &Strategy,
    sni_data: &(u32, u32),
    name: &Option<String>,
    blocked: Result<bool, RouterError>,
    peer_port: Option<u16>,
) -> (r: Result<bool, RouterError>)
    ensures
        r == strategy_verdict(*strategy, *sni_data, text_view(*name), blocked, peer_port),
{
    if strategy.add_sni && sni_data.0 == 0 && sni_data.1 == 0 {
        return Ok(false);
    }
    let names = Some(names_of(&strategy.filter_sni.items));
    match Whitelist::verdict(&names, name, blocked) {
        Err(e) => {
            return Err(e);
        },
        Ok(false) => {
            return Ok(false);
        },
        Ok(true) => {},
    }
    match strategy.filter_protocol {
        Some(protocol) => {
            if protocol != NetworkProtocol::TCP {
                return Ok(false);
            }
        },
        None => {},
    }
    match (strategy.filter_port, peer_port) {
        (Some(range), Some(port)) => {
            match range.end {
                Some(end_port) => {
                    if port > end_port {
                        return Ok(false);
                    }
                },
                None => {},
            }
            if port < range.start {
                return Ok(false);
            }
        },
        _ => {},
    }
    Ok(true)
}

/// Lets one strategy work on the data.
fn apply_strategy(
    config: &AuxConfig,
    strategy: &Strategy,
    sni_data: &(u32, u32),
    plan: &mut Vec<SocketOp>,
    current_data: &mut Vec<u8>,
)
    ensures
        progress_of(plan_view(final(plan)@), final(current_data)@) == applied(
            *config,
            *strategy,
            *sni_data,
            progress_of(plan_view(old(plan)@), old(current_data)@),
        ),
{
    let ghost parts = split_parts(current_data@, split_point(*strategy, *sni_data));
    let piece: Vec<SocketOp> = match strategy.method {
        Strategies::NONE | Strategies::MELTDOWNUDP | Strategies::TRAIL => Vec::new(),
        Strategies::SPLIT => {
            let send_data = Split::get_split_packet(current_data.as_slice(), strategy, sni_data);
            Split::execute_strategy(send_data, current_data, config)
        },
        Strategies::DISORDER => {
            let send_data = DisorderD::<Disorder>::get_split_packet(
                current_data.as_slice(),
                strategy,
                sni_data,
            );
            Disorder::execute_strategy(send_data, current_data, config)
        },
        Strategies::DISORDER2 => {
            let send_data = DisorderD::<Disorder2>::get_split_packet(
                current_data.as_slice(),
                strategy,
                sni_data,
            );
            Disorder2::execute_strategy(send_data, current_data, config)
        },
        Strategies::FAKE => {
            let send_data = FakeD::<Fake>::get_split_packet(
                current_data.as_slice(),
                strategy,
                sni_data,
            );
            Fake::execute_strategy(send_data, current_data, config)
        },
        Strategies::FAKEMD => {
            let send_data = FakeD::<FakeMD>::get_split_packet(
                current_data.as_slice(),
                strategy,
                sni_data,
            );
            FakeMD::execute_strategy(send_data, current_data, config)
        },
        Strategies::FAKE2INSERT => {
            let send_data = FakeD::<FakeInsert>::get_split_packet(
                current_data.as_slice(),
                strategy,
                sni_data,
            );
            FakeInsert::execute_strategy(send_data, current_data, config)
        },
        Strategies::FAKE2DISORDER => {
            let send_data = FakeD::<Fake2Disorder>::get_split_packet(
                current_data.as_slice(),
                strategy,
                sni_data,
            );
            Fake2Disorder::execute_strategy(send_data, current_data, config)
        },
        Strategies::FAKESURROUND => {
            let send_data = FakeD::<FakeSurround>::get_split_packet(
                current_data.as_slice(),
                strategy,
                sni_data,
            );
            FakeSurround::execute_strategy(send_data, current_data, config)
        },
        Strategies::MELTDOWN => {
            let send_data = FakeD::<Meltdown>::get_split_packet(
                current_data.as_slice(),
                strategy,
                sni_data,
            );
            Meltdown::execute_strategy(send_data, current_data, config)
        },
        Strategies::OOB => {
            let send_data = OobD::<Oob>::get_split_packet(
                current_data.as_slice(),
                strategy,
                sni_data,
            );
            Oob::execute_strategy(send_data, current_data, config)
        },
        Strategies::OOBSTREAMHELL => {
            let send_data = OobD::<OobStream>::get_split_packet(
                current_data.as_slice(),
                strategy,
                sni_data,
            );
            OobStream::execute_strategy(send_data, current_data, config)
        },
        Strategies::DISOOB => {
            let send_data = DisorderedOOB::<Disoob>::get_split_packet(
                current_data.as_slice(),
                strategy,
                sni_data,
            );
            Disoob::execute_strategy(send_data, current_data, config)
        },
        Strategies::OOB2 => {
            let send_data = DisorderedOOB::<Oob2>::get_split_packet(
                current_data.as_slice(),
                strategy,
                sni_data,
            );
            Oob2::execute_strategy(send_data, current_data, config)
        },
        Strategies::FRAGTLS => {
            FragTls::execute_strategy(current_data, strategy, sni_data);
            Vec::new()
        },
    };
    assert(strategy.method == Strategies::FRAGTLS || plan_view(piece@) =~= strategy_ops(
        strategy.method,
        *config,
        parts,
        old(current_data)@,
    ));
    extend_plan(plan, piece);
    assert(strategy.method == Strategies::FRAGTLS ==> plan_view(plan@) =~= plan_view(old(plan)@));
}

/// Plans what is done on the upstream socket for one chunk in which the
/// server name was located at `sni_data`, and sets `current_data` to what is
/// to be written after the plan was carried out: the fake ClientHello, each
/// strategy that works on the chunk in the order of the configuration, and
/// what follows them. `blocked` says whether the rules block the observed
/// name; a blocked name, or a rule that cannot be read, ends the planning
/// with an error where a strategy comes to ask for it.
pub fn plan_l4_bypasses(
    config: &AuxConfig,
    current_data: &mut Vec<u8>,
    sni_data: &(u32, u32),
    peer_port: Option<u16>,
    blocked: Result<bool, RouterError>,
) -> (r: Result<Vec<SocketOp>, RouterError>)
    ensures
        planned(r, final(current_data)@) == l4_plan(
            *config,
            old(current_data)@,
            *sni_data,
            peer_port,
            blocked,
        ),
{
    let name = Whitelist::observe(sni_data, current_data.as_slice());
    let mut plan: Vec<SocketOp> = Vec::new();
    assert(plan_view(plan@) =~= Seq::<SocketOpView>::empty());
    if !(sni_data.0 == 0 && sni_data.1 == 0) && config.fake_packet_options.fake_clienthello {
        let mut hello = canned_hello();
        append_bytes(&mut hello, config.fake_packet_options.fake_clienthello_sni.as_str().as_bytes());
        send_drop(&mut plan, hello, config);
        assert(plan_view(plan@) =~= preamble_ops(*config, *sni_data));
    }
    let ghost start = Progress { ops: preamble_ops(*config, *sni_data), current: current_data@ };
    let mut i: usize = 0;
    while i < config.strategies.len()
        invariant
            i <= config.strategies@.len(),
            start == progress_of(preamble_ops(*config, *sni_data), old(current_data)@),
            text_view(name) == observed_name(*sni_data, old(current_data)@),
            strategies_from(
                *config,
                0,
                *sni_data,
                peer_port,
                text_view(name),
                blocked,
                start,
            ) == strategies_from(
                *config,
                i as int,
                *sni_data,
                peer_port,
                text_view(name),
                blocked,
                progress_of(plan_view(plan@), current_data@),
            ),
        decreases config.strategies@.len() - i,
    {
        match &config.strategies[i] {
            None => {},
            Some(strategy) => {
                match strategy_applies(strategy, sni_data, &name, blocked, peer_port) {
                    Err(e) => {
                        return Err(e);
                    },
                    Ok(false) => {},
                    Ok(true) => {
                        apply_strategy(config, strategy, sni_data, &mut plan, current_data);
                    },
                }
            },
        }
        i += 1;
    }
    let ghost done = plan_view(plan@);
    if config.socket_options.so_disable_sack {
        disable_sack(&mut plan);
    }
    if config.fake_packet_options.fake_packet_random {
        send_drop(&mut plan, make_random_vec(32, 0xDEAD), config);
    }
    assert(plan_view(plan@) =~= done + closing_ops(*config));
    Ok(plan)
}

/// Plans what is done on the upstream socket for one chunk in which the
/// server name was located at `sni_data`, and sets `current_data` to what is
/// to be written after the plan was carried out: the plan for the chunk, for
/// what matching the globs of the server-name rules against the observed
/// name comes to.
pub fn execute_l4_bypasses(
    config: &AuxConfig,
    current_data: &mut Vec<u8>,
    sni_data: &(u32, u32),
    peer_port: Option<u16>,
) -> (r: Result<Vec<SocketOp>, RouterError>)
    ensures
        exists|outcomes: Seq<Option<bool>>|
            sni_faithful(
                config.router_options.rules@,
                observed_name(*sni_data, old(current_data)@),
                outcomes,
            ) && planned(r, final(current_data)@) == l4_plan(
                *config,
                old(current_data)@,
                *sni_data,
                peer_port,
                #[trigger] sni_verdict(
                    config.router_options.rules@,
                    observed_name(*sni_data, old(current_data)@),
                    outcomes,
                ),
            ),
{
    let name = Whitelist::observe(sni_data, current_data.as_slice());
    let blocked = Whitelist::blocked_name(config, &name);
    plan_l4_bypasses(config, current_data, sni_data, peer_port, blocked)
}

/// The chunk after the edits of the application layer.
pub fn execute_l5_bypasses(data: &[u8], config: &AuxConfig) -> (out: Vec<u8>)
    ensures
        out@ == http_edited(config.http_options, data@),
{
    edit_http(copy_all(data), &config.http_options)
}

/// The delay in milliseconds before a chunk is written: a share of the
/// configured maximum, drawn from the generator seeded with the clock.
pub open spec fn jitter_of(now_millis: u128, jitter_max: u64) -> u64 {
    ((lcg_output(lcg_next((now_millis % 255) as u32)) as int * jitter_max as int) / 256) as u64
}

/// The delay before a chunk is written, where the configuration asks for one.
/// `now_millis` is the wall clock, in milliseconds.
pub fn execute_l7_bypasses(config: &AuxConfig, now_millis: u128) -> (r: Option<u64>)
    ensures
        r == if config.socket_options.so_l7_packet_jitter_max > 0 {
            Some(jitter_of(now_millis, config.socket_options.so_l7_packet_jitter_max))
        } else {
            None
        },
{
    let mut rand: Random = Random::new((now_millis % 255) as u32);
    let rand_num: u128 = rand.next_rand() as u128;
    let jitter_millis: u64 = config.socket_options.so_l7_packet_jitter_max;
    if jitter_millis > 0 {
        assert(rand_num * (jitter_millis as u128) <= 255 * 0xffff_ffff_ffff_ffff)
            by (nonlinear_arith)
            requires
                rand_num <= 255,
                jitter_millis <= 0xffff_ffff_ffff_ffff,
        ;
        let scaled: u128 = rand_num * (jitter_millis as u128);
        let random_jitter: u128 = scaled / 256;
        Some(random_jitter as u64)
    } else {
        None
    }
}

/// What is to be done with one chunk from the client.
#[derive(Debug, Clone, PartialEq)]
pub struct HookOutcome {
    /// The operations on the upstream socket, in order.
    pub plan: Vec<SocketOp>,
    /// What is to be written to the upstream socket after them.
    pub data: Vec<u8>,
    /// The delay in milliseconds before `data` is written, where there is one.
    pub jitter: Option<u64>,
}

/// The chunk as it enters the strategies: after the `Host:` header was
/// mangled and every pattern rewritten.
pub open spec fn rewritten(
    config: AuxConfig,
    patterns: Seq<(Vec<PatternToken>, Vec<PatternToken>)>,
    data: Seq<u8>,
) -> Seq<u8> {
    processed(patterns, http_edited(config.http_options, data), patterns.len() as int)
}

/// The plan of an outcome, with what is left to be sent, or an error.
pub open spec fn hooked(r: Result<HookOutcome, RouterError>) -> Result<Progress, RouterError> {
    match r {
        Ok(outcome) => Ok(progress_of(plan_view(outcome.plan@), outcome.data@)),
        Err(e) => Err(e),
    }
}

/// Transforms one chunk on its way from the client to the server: the edit of
/// the `Host:` header, the pattern rewrite, the search for the server name in
/// what they left, the strategies, and the jitter.
pub fn client_hook(
    config: &AuxConfig,
    patterns: &Vec<(Vec<PatternToken>, Vec<PatternToken>)>,
    data: &[u8],
    peer_port: Option<u16>,
    now_millis: u128,
) -> (r: Result<HookOutcome, RouterError>)
    requires
        forall|i: int| 0 <= i < patterns@.len() ==> (#[trigger] patterns@[i]).0@.len() > 0,
    ensures
        exists|outcomes: Seq<Option<bool>>|
            sni_faithful(
                config.router_options.rules@,
                observed_name(
                    sni_span(rewritten(*config, patterns@, data@)),
                    rewritten(*config, patterns@, data@),
                ),
                outcomes,
            ) && hooked(r) == l4_plan(
                *config,
                rewritten(*config, patterns@, data@),
                sni_span(rewritten(*config, patterns@, data@)),
                peer_port,
                #[trigger] sni_verdict(
                    config.router_options.rules@,
                    observed_name(
                        sni_span(rewritten(*config, patterns@, data@)),
                        rewritten(*config, patterns@, data@),
                    ),
                    outcomes,
                ),
            ),
        match r {
            Ok(outcome) => outcome.jitter == if config.socket_options.so_l7_packet_jitter_max > 0 {
                Some(jitter_of(now_millis, config.socket_options.so_l7_packet_jitter_max))
            } else {
                None
            },
            Err(_) => true,
        },
{
    let mut l5_data = execute_l5_bypasses(data, config);
    process_packet(patterns, &mut l5_data);
    let sni_data = Sni::locate(l5_data.as_slice());
    match execute_l4_bypasses(config, &mut l5_data, &sni_data, peer_port) {
        Err(e) => Err(e),
        Ok(plan) => {
            let jitter = execute_l7_bypasses(config, now_millis);
            Ok(HookOutcome { plan, data: l5_data, jitter })
        },
    }
}

/// Going through the strategies leaves the hop limit at the default, if the
/// plan so far left it there.
proof fn lemma_strategies_restore_ttl(
    config: AuxConfig,
    i: int,
    sni_data: (u32, u32),
    port: Option<u16>,
    name: Option<Seq<char>>,
    blocked: Result<bool, RouterError>,
    before: Progress,
)
    requires
        ttl_after(before.ops, default_ttl(config)) == default_ttl(config),
    ensures
        match strategies_from(config, i, sni_data, port, name, blocked, before) {
            Ok(done) => ttl_after(done.ops, default_ttl(config)) == default_ttl(config),
            Err(_) => true,
        },
    decreases config.strategies@.len() - i,
{
    if 0 <= i < config.strategies@.len() {
        match config.strategies@[i] {
            None => {
                lemma_strategies_restore_ttl(config, i + 1, sni_data, port, name, blocked, before);
            },
            Some(strategy) => {
                match strategy_verdict(strategy, sni_data, name, blocked, port) {
                    Err(_) => {},
                    Ok(false) => {
                        lemma_strategies_restore_ttl(
                            config,
                            i + 1,
                            sni_data,
                            port,
                            name,
                            blocked,
                            before,
                        );
                    },
                    Ok(true) => {
                        let after = applied(config, strategy, sni_data, before);
                        if strategy.method != Strategies::FRAGTLS {
                            let parts = split_parts(
                                before.current,
                                split_point(strategy, sni_data),
                            );
                            let more = strategy_ops(strategy.method, config, parts, before.current);
                            lemma_strategy_restores_ttl(
                                strategy.method,
                                config,
                                parts,
                                before.current,
                            );
                            lemma_ttl_after_concat(before.ops, more, default_ttl(config));
                        }
                        lemma_strategies_restore_ttl(
                            config,
                            i + 1,
                            sni_data,
                            port,
                            name,
                            blocked,
                            after,
                        );
                    },
                }
            },
        }
    }
}

/// The hop limit of the socket is the default again when the plan for a chunk
/// has been carried out, if it was the default before: every packet that was
/// sent to die on the way is followed by the return to the default, so that
/// what is written after the plan travels all the way.
pub proof fn lemma_plan_restores_ttl(
    config: AuxConfig,
    data: Seq<u8>,
    sni_data: (u32, u32),
    port: Option<u16>,
    blocked: Result<bool, RouterError>,
)
    ensures
        match l4_plan(config, data, sni_data, port, blocked) {
            Ok(done) => ttl_after(done.ops, default_ttl(config)) == default_ttl(config),
            Err(_) => true,
        },
{
    let d = default_ttl(config);
    let hello = canned_client_hello() + encode_utf8(
        config.fake_packet_options.fake_clienthello_sni@,
    );
    lemma_envelope_restores_ttl(config, hello, d);
    let start = Progress { ops: preamble_ops(config, sni_data), current: data };
    let name = observed_name(sni_data, data);
    lemma_strategies_restore_ttl(config, 0, sni_data, port, name, blocked, start);
    match strategies_from(config, 0, sni_data, port, name, blocked, start) {
        Err(_) => {},
        Ok(done) => {
            let sack: Seq<SocketOpView> = if config.socket_options.so_disable_sack {
                seq![SocketOpView::DisableSack]
            } else {
                Seq::empty()
            };
            let random: Seq<SocketOpView> = if config.fake_packet_options.fake_packet_random {
                drop_ops(config, random_bytes(0xDEAD, 32))
            } else {
                Seq::empty()
            };
            lemma_envelope_restores_ttl(config, random_bytes(0xDEAD, 32), d);
            reveal_with_fuel(ttl_after, 2);
            assert(seq![SocketOpView::DisableSack].drop_last() =~= Seq::<SocketOpView>::empty());
            assert(ttl_after(sack, d) == d);
            assert(ttl_after(random, d) == d);
            lemma_ttl_after_concat(sack, random, d);
            lemma_ttl_after_concat(done.ops, sack + random, d);
        },
    }
}

} // verus!
