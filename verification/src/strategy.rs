//! The desynchronisation methods: what each one sends, and what it leaves to be
//! sent after it.

use crate::bytes::copy_all;
use crate::config::{AuxConfig, Strategies, Strategy};
use crate::fake::{fakeified, FakeD};
use crate::ops::{
    default_ttl, drop_ops, duplicate_ops, lemma_envelope_restores_ttl, lemma_ttl_after_concat,
    plan_view, send_drop, send_duplicate, send_short_lived_oob, short_lived_oob_ops, ttl_after,
    write_all, write_oob_multi, SocketOp, SocketOpView,
};
use crate::split::{get_split_packet, parts_view, split_parts, split_point};
use crate::tamper::{edit_tls, fragmented};
use std::marker::PhantomData;
use vstd::prelude::*;
use vstd::utf8::encode_utf8;

verus! {

/// A plain split: the first part is written, the second is left to be sent.
pub struct Split;

/// The disorder family of strategies, by method.
pub struct DisorderD<T> {
    _marker: PhantomData<T>,
}

/// The first part dies after one hop.
pub struct Disorder;

/// The second part dies after one hop.
pub struct Disorder2;

/// The family of strategies that send urgent data with a short hop limit.
pub struct DisorderedOOB<T> {
    marker: PhantomData<T>,
}

/// The first part goes out as short-lived urgent data.
pub struct Disoob;

/// As `Disoob`, and the second part dies after one hop.
pub struct Oob2;

/// The out-of-band family of strategies, by method.
pub struct OobD<T> {
    _marker: PhantomData<T>,
}

/// The first part goes out as urgent data, with the marker byte behind it.
pub struct Oob;

/// The first part is written, and a stream of urgent bytes follows it.
pub struct OobStream;

/// A fake follows the first part, and the second part dies after one hop.
pub struct Fake2Disorder;

/// Fakes before and after the first part.
pub struct FakeSurround;

/// A fake of the second part follows the first part.
pub struct FakeInsert;

/// Everything dies after one hop.
pub struct Meltdown;

/// The first part is written, and a fake follows it.
pub struct FakeMD;

/// The first part dies after one hop, and a fake follows it.
pub struct Fake;

/// Re-fragmentation of the TLS record.
pub struct FragTls;

/// The part that fakes are made of: the second, or the first where fakes are
/// configured as reversed.
pub open spec fn part_dst(config: AuxConfig, parts: Seq<Seq<u8>>) -> Seq<u8> {
    if config.fake_packet_options.fake_packet_reversed {
        parts[0]
    } else {
        parts[1]
    }
}

/// The part with the out-of-band marker byte behind it.
pub open spec fn with_marker(config: AuxConfig, part: Seq<u8>) -> Seq<u8> {
    part.push(config.desync_options.out_of_band_charid)
}

/// Each byte sent by itself as urgent data.
pub open spec fn stream_ops(bytes: Seq<u8>) -> Seq<SocketOpView> {
    Seq::new(bytes.len(), |i: int| SocketOpView::WriteOob(seq![bytes[i]]))
}

/// What a method sends once the buffer was split in two.
pub open spec fn split_strategy_ops(method: Strategies, config: AuxConfig, parts: Seq<Seq<u8>>) -> Seq<
    SocketOpView,
> {
    match method {
        Strategies::SPLIT => seq![SocketOpView::Write(parts[0])],
        Strategies::DISORDER => duplicate_ops(config, parts[0]),
        Strategies::DISORDER2 => seq![SocketOpView::Write(parts[0])] + duplicate_ops(
            config,
            parts[1],
        ),
        Strategies::FAKE => duplicate_ops(config, parts[0]) + drop_ops(
            config,
            fakeified(config, part_dst(config, parts)),
        ),
        Strategies::FAKEMD => seq![SocketOpView::Write(parts[0])] + drop_ops(
            config,
            fakeified(config, part_dst(config, parts)),
        ),
        Strategies::FAKE2INSERT => seq![SocketOpView::Write(parts[0])] + drop_ops(
            config,
            fakeified(config, parts[1]),
        ),
        Strategies::FAKE2DISORDER => seq![SocketOpView::Write(parts[0])] + drop_ops(
            config,
            fakeified(config, parts[1]),
        ) + duplicate_ops(config, parts[1]),
        Strategies::FAKESURROUND => drop_ops(config, fakeified(config, part_dst(config, parts)))
            + seq![SocketOpView::Write(parts[0])] + drop_ops(
            config,
            fakeified(config, part_dst(config, parts)),
        ),
        Strategies::OOB => seq![SocketOpView::WriteOob(with_marker(config, parts[0]))],
        Strategies::OOB2 => short_lived_oob_ops(config, with_marker(config, parts[0]))
            + duplicate_ops(config, parts[1]),
        Strategies::DISOOB => short_lived_oob_ops(config, with_marker(config, parts[0])),
        Strategies::OOBSTREAMHELL => seq![SocketOpView::Write(parts[0])] + stream_ops(
            encode_utf8(config.socket_options.so_oob_streamhell_data@),
        ),
        _ => Seq::empty(),
    }
}

/// The method works on a split buffer, and does nothing where the buffer was
/// not split.
pub open spec fn needs_split(method: Strategies) -> bool {
    match method {
        Strategies::SPLIT
        | Strategies::DISORDER
        | Strategies::DISORDER2
        | Strategies::FAKE
        | Strategies::FAKEMD
        | Strategies::FAKE2INSERT
        | Strategies::FAKE2DISORDER
        | Strategies::FAKESURROUND
        | Strategies::OOB
        | Strategies::OOB2
        | Strategies::DISOOB
        | Strategies::OOBSTREAMHELL => true,
        _ => false,
    }
}

/// The method is declared and does nothing yet.
pub open spec fn is_reserved(method: Strategies) -> bool {
    method == Strategies::TRAIL || method == Strategies::MELTDOWNUDP
}

/// Whether the method is declared and does nothing yet, so that a
/// configuration that names it can be warned about.
pub fn is_reserved_method(method: Strategies) -> (r: bool)
    ensures
        r == is_reserved(method),
{
    match method {
        Strategies::TRAIL | Strategies::MELTDOWNUDP => true,
        _ => false,
    }
}

/// The method sends all that it was given, and leaves nothing to be sent.
pub open spec fn sends_everything(method: Strategies) -> bool {
    method == Strategies::DISORDER2 || method == Strategies::FAKE2DISORDER || method
        == Strategies::OOB2
}

/// What a method sends: for `parts` of the buffer `current`.
pub open spec fn strategy_ops(
    method: Strategies,
    config: AuxConfig,
    parts: Seq<Seq<u8>>,
    current: Seq<u8>,
) -> Seq<SocketOpView> {
    if method == Strategies::MELTDOWN {
        duplicate_ops(config, current)
    } else if needs_split(method) && parts.len() > 1 {
        split_strategy_ops(method, config, parts)
    } else {
        Seq::empty()
    }
}

/// What a method leaves to be sent after it.
pub open spec fn strategy_rest(method: Strategies, parts: Seq<Seq<u8>>, current: Seq<u8>) -> Seq<
    u8,
> {
    if method == Strategies::MELTDOWN {
        Seq::empty()
    } else if needs_split(method) && parts.len() > 1 {
        if sends_everything(method) {
            Seq::empty()
        } else {
            parts[1]
        }
    } else {
        current
    }
}

/// What re-fragmentation leaves to be sent: the record in two records, split
/// at the split point of the strategy.
pub open spec fn fragtls_rest(strategy: Strategy, sni_data: (u32, u32), current: Seq<u8>) -> Seq<
    u8,
> {
    fragmented(current, split_point(strategy, sni_data))
}

/// The splitter of a family of strategies.
pub trait SplitPacket {
    fn get_split_packet(packet_buffer: &[u8], strategy: &Strategy, sni_data: &(u32, u32)) -> (parts:
        Vec<Vec<u8>>)
        ensures
            parts_view(parts@) == split_parts(packet_buffer@, split_point(*strategy, *sni_data)),
    ;
}

/// One desynchronisation method: it plans what goes out now, and sets
/// `current_data` to what is still to be sent.
pub trait StrategyExecutor {
    /// The method that the type stands for.
    spec fn method() -> Strategies;

    fn execute_strategy(
        send_data: Vec<Vec<u8>>,
        current_data: &mut Vec<u8>,
        config: &AuxConfig,
    ) -> (plan: Vec<SocketOp>)
        ensures
            plan_view(plan@) == strategy_ops(
                Self::method(),
                *config,
                parts_view(send_data@),
                old(current_data)@,
            ),
            final(current_data)@ == strategy_rest(
                Self::method(),
                parts_view(send_data@),
                old(current_data)@,
            ),
    ;
}

impl SplitPacket for Split {
    fn get_split_packet(packet_buffer: &[u8], strategy: &Strategy, sni_data: &(u32, u32)) -> (parts:
        Vec<Vec<u8>>) {
        get_split_packet(packet_buffer, strategy, sni_data)
    }
}

impl<T> SplitPacket for DisorderD<T> {
    fn get_split_packet(packet_buffer: &[u8], strategy: &Strategy, sni_data: &(u32, u32)) -> (parts:
        Vec<Vec<u8>>) {
        get_split_packet(packet_buffer, strategy, sni_data)
    }
}

impl<T> SplitPacket for DisorderedOOB<T> {
    fn get_split_packet(packet_buffer: &[u8], strategy: &Strategy, sni_data: &(u32, u32)) -> (parts:
        Vec<Vec<u8>>) {
        get_split_packet(packet_buffer, strategy, sni_data)
    }
}

impl<T> SplitPacket for OobD<T> {
    fn get_split_packet(packet_buffer: &[u8], strategy: &Strategy, sni_data: &(u32, u32)) -> (parts:
        Vec<Vec<u8>>) {
        get_split_packet(packet_buffer, strategy, sni_data)
    }
}

impl<T> SplitPacket for FakeD<T> {
    fn get_split_packet(packet_buffer: &[u8], strategy: &Strategy, sni_data: &(u32, u32)) -> (parts:
        Vec<Vec<u8>>) {
        get_split_packet(packet_buffer, strategy, sni_data)
    }
}

/// A plan without operations.
fn new_plan() -> (plan: Vec<SocketOp>)
    ensures
        plan_view(plan@) == Seq::<SocketOpView>::empty(),
{
    let plan: Vec<SocketOp> = Vec::new();
    assert(plan_view(plan@) =~= Seq::<SocketOpView>::empty());
    plan
}

/// A copy of part `i`.
fn part(send_data: &Vec<Vec<u8>>, i: usize) -> (out: Vec<u8>)
    requires
        i < send_data@.len(),
    ensures
        out@ == parts_view(send_data@)[i as int],
{
    copy_all(send_data[i].as_slice())
}

/// A copy of the part that fakes are made of.
fn fake_source(send_data: &Vec<Vec<u8>>, config: &AuxConfig) -> (out: Vec<u8>)
    requires
        send_data@.len() > 1,
    ensures
        out@ == part_dst(*config, parts_view(send_data@)),
{
    if config.fake_packet_options.fake_packet_reversed {
        part(send_data, 0)
    } else {
        part(send_data, 1)
    }
}

/// A copy of the first part with the out-of-band marker byte behind it.
fn marked_part(send_data: &Vec<Vec<u8>>, config: &AuxConfig) -> (out: Vec<u8>)
    requires
        send_data@.len() > 0,
    ensures
        out@ == with_marker(*config, parts_view(send_data@)[0]),
{
    let mut ax_part = part(send_data, 0);
    ax_part.push(config.desync_options.out_of_band_charid);
    ax_part
}

impl StrategyExecutor for Split {
    open spec fn method() -> Strategies {
        Strategies::SPLIT
    }

    fn execute_strategy(
        send_data: Vec<Vec<u8>>,
        current_data: &mut Vec<u8>,
        config: &AuxConfig,
    ) -> (plan: Vec<SocketOp>) {
        let mut plan = new_plan();
        if send_data.len() > 1 {
            write_all(&mut plan, part(&send_data, 0));
            *current_data = part(&send_data, 1);
            assert(plan_view(plan@) =~= split_strategy_ops(
                Strategies::SPLIT,
                *config,
                parts_view(send_data@),
            ));
        }
        plan
    }
}

impl StrategyExecutor for Disorder {
    open spec fn method() -> Strategies {
        Strategies::DISORDER
    }

    fn execute_strategy(
        send_data: Vec<Vec<u8>>,
        current_data: &mut Vec<u8>,
        config: &AuxConfig,
    ) -> (plan: Vec<SocketOp>) {
        let mut plan = new_plan();
        if send_data.len() > 1 {
            send_duplicate(&mut plan, part(&send_data, 0), config);
            *current_data = part(&send_data, 1);
            assert(plan_view(plan@) =~= split_strategy_ops(
                Strategies::DISORDER,
                *config,
                parts_view(send_data@),
            ));
        }
        plan
    }
}

impl StrategyExecutor for Disorder2 {
    open spec fn method() -> Strategies {
        Strategies::DISORDER2
    }

    fn execute_strategy(
        send_data: Vec<Vec<u8>>,
        current_data: &mut Vec<u8>,
        config: &AuxConfig,
    ) -> (plan: Vec<SocketOp>) {
        let mut plan = new_plan();
        if send_data.len() > 1 {
            write_all(&mut plan, part(&send_data, 0));
            send_duplicate(&mut plan, part(&send_data, 1), config);
            *current_data = Vec::new();
            assert(plan_view(plan@) =~= split_strategy_ops(
                Strategies::DISORDER2,
                *config,
                parts_view(send_data@),
            ));
        }
        plan
    }
}

impl StrategyExecutor for Fake {
    open spec fn method() -> Strategies {
        Strategies::FAKE
    }

    fn execute_strategy(
        send_data: Vec<Vec<u8>>,
        current_data: &mut Vec<u8>,
        config: &AuxConfig,
    ) -> (plan: Vec<SocketOp>) {
        let mut plan = new_plan();
        if send_data.len() > 1 {
            send_duplicate(&mut plan, part(&send_data, 0), config);
            let fake = FakeD::<Fake>::get_fake_packet(fake_source(&send_data, config), config);
            send_drop(&mut plan, fake, config);
            *current_data = part(&send_data, 1);
            assert(plan_view(plan@) =~= split_strategy_ops(
                Strategies::FAKE,
                *config,
                parts_view(send_data@),
            ));
        }
        plan
    }
}

impl StrategyExecutor for FakeMD {
    open spec fn method() -> Strategies {
        Strategies::FAKEMD
    }

    fn execute_strategy(
        send_data: Vec<Vec<u8>>,
        current_data: &mut Vec<u8>,
        config: &AuxConfig,
    ) -> (plan: Vec<SocketOp>) {
        let mut plan = new_plan();
        if send_data.len() > 1 {
            write_all(&mut plan, part(&send_data, 0));
            let fake = FakeD::<FakeMD>::get_fake_packet(fake_source(&send_data, config), config);
            send_drop(&mut plan, fake, config);
            *current_data = part(&send_data, 1);
            assert(plan_view(plan@) =~= split_strategy_ops(
                Strategies::FAKEMD,
                *config,
                parts_view(send_data@),
            ));
        }
        plan
    }
}

impl StrategyExecutor for FakeInsert {
    open spec fn method() -> Strategies {
        Strategies::FAKE2INSERT
    }

    fn execute_strategy(
        send_data: Vec<Vec<u8>>,
        current_data: &mut Vec<u8>,
        config: &AuxConfig,
    ) -> (plan: Vec<SocketOp>) {
        let mut plan = new_plan();
        if send_data.len() > 1 {
            write_all(&mut plan, part(&send_data, 0));
            let fake = FakeD::<FakeInsert>::get_fake_packet(part(&send_data, 1), config);
            send_drop(&mut plan, fake, config);
            *current_data = part(&send_data, 1);
            assert(plan_view(plan@) =~= split_strategy_ops(
                Strategies::FAKE2INSERT,
                *config,
                parts_view(send_data@),
            ));
        }
        plan
    }
}

impl StrategyExecutor for Fake2Disorder {
    open spec fn method() -> Strategies {
        Strategies::FAKE2DISORDER
    }

    fn execute_strategy(
        send_data: Vec<Vec<u8>>,
        current_data: &mut Vec<u8>,
        config: &AuxConfig,
    ) -> (plan: Vec<SocketOp>) {
        let mut plan = new_plan();
        if send_data.len() > 1 {
            write_all(&mut plan, part(&send_data, 0));
            let fake = FakeD::<Fake2Disorder>::get_fake_packet(part(&send_data, 1), config);
            send_drop(&mut plan, fake, config);
            send_duplicate(&mut plan, part(&send_data, 1), config);
            *current_data = Vec::new();
            assert(plan_view(plan@) =~= split_strategy_ops(
                Strategies::FAKE2DISORDER,
                *config,
                parts_view(send_data@),
            ));
        }
        plan
    }
}

impl StrategyExecutor for FakeSurround {
    open spec fn method() -> Strategies {
        Strategies::FAKESURROUND
    }

    fn execute_strategy(
        send_data: Vec<Vec<u8>>,
        current_data: &mut Vec<u8>,
        config: &AuxConfig,
    ) -> (plan: Vec<SocketOp>) {
        let mut plan = new_plan();
        if send_data.len() > 1 {
            let before = FakeD::<FakeSurround>::get_fake_packet(
                fake_source(&send_data, config),
                config,
            );
            send_drop(&mut plan, before, config);
            write_all(&mut plan, part(&send_data, 0));
            let after = FakeD::<FakeSurround>::get_fake_packet(
                fake_source(&send_data, config),
                config,
            );
            send_drop(&mut plan, after, config);
            *current_data = part(&send_data, 1);
            assert(plan_view(plan@) =~= split_strategy_ops(
                Strategies::FAKESURROUND,
                *config,
                parts_view(send_data@),
            ));
        }
        plan
    }
}

impl StrategyExecutor for Meltdown {
    open spec fn method() -> Strategies {
        Strategies::MELTDOWN
    }

    fn execute_strategy(
        _send_data: Vec<Vec<u8>>,
        current_data: &mut Vec<u8>,
        config: &AuxConfig,
    ) -> (plan: Vec<SocketOp>) {
        let mut plan = new_plan();
        send_duplicate(&mut plan, copy_all(current_data.as_slice()), config);
        *current_data = Vec::new();
        assert(plan_view(plan@) =~= duplicate_ops(*config, old(current_data)@));
        plan
    }
}

impl StrategyExecutor for Oob {
    open spec fn method() -> Strategies {
        Strategies::OOB
    }

    fn execute_strategy(
        send_data: Vec<Vec<u8>>,
        current_data: &mut Vec<u8>,
        config: &AuxConfig,
    ) -> (plan: Vec<SocketOp>) {
        let mut plan = new_plan();
        if send_data.len() > 1 {
            write_oob_multi(&mut plan, marked_part(&send_data, config));
            *current_data = part(&send_data, 1);
            assert(plan_view(plan@) =~= split_strategy_ops(
                Strategies::OOB,
                *config,
                parts_view(send_data@),
            ));
        }
        plan
    }
}

impl StrategyExecutor for OobStream {
    open spec fn method() -> Strategies {
        Strategies::OOBSTREAMHELL
    }

    fn execute_strategy(
        send_data: Vec<Vec<u8>>,
        current_data: &mut Vec<u8>,
        config: &AuxConfig,
    ) -> (plan: Vec<SocketOp>) {
        let mut plan = new_plan();
        if send_data.len() > 1 {
            write_all(&mut plan, part(&send_data, 0));
            let oob_part = config.socket_options.so_oob_streamhell_data.as_str().as_bytes();
            let ghost head = plan_view(plan@);
            let mut i: usize = 0;
            while i < oob_part.len()
                invariant
                    i <= oob_part@.len(),
                    plan_view(plan@) == head + stream_ops(oob_part@.take(i as int)),
                decreases oob_part@.len() - i,
            {
                let mut byte: Vec<u8> = Vec::new();
                byte.push(oob_part[i]);
                write_oob_multi(&mut plan, byte);
                assert(plan_view(plan@) =~= head + stream_ops(oob_part@.take(i + 1)));
                i += 1;
            }
            assert(oob_part@.take(oob_part@.len() as int) =~= oob_part@);
            *current_data = part(&send_data, 1);
            assert(plan_view(plan@) =~= split_strategy_ops(
                Strategies::OOBSTREAMHELL,
                *config,
                parts_view(send_data@),
            ));
        }
        plan
    }
}

impl StrategyExecutor for Disoob {
    open spec fn method() -> Strategies {
        Strategies::DISOOB
    }

    fn execute_strategy(
        send_data: Vec<Vec<u8>>,
        current_data: &mut Vec<u8>,
        config: &AuxConfig,
    ) -> (plan: Vec<SocketOp>) {
        let mut plan = new_plan();
        if send_data.len() > 1 {
            send_short_lived_oob(&mut plan, marked_part(&send_data, config), config);
            *current_data = part(&send_data, 1);
            assert(plan_view(plan@) =~= split_strategy_ops(
                Strategies::DISOOB,
                *config,
                parts_view(send_data@),
            ));
        }
        plan
    }
}

impl StrategyExecutor for Oob2 {
    open spec fn method() -> Strategies {
        Strategies::OOB2
    }

    fn execute_strategy(
        send_data: Vec<Vec<u8>>,
        current_data: &mut Vec<u8>,
        config: &AuxConfig,
    ) -> (plan: Vec<SocketOp>) {
        let mut plan = new_plan();
        if send_data.len() > 1 {
            send_short_lived_oob(&mut plan, marked_part(&send_data, config), config);
            send_duplicate(&mut plan, part(&send_data, 1), config);
            *current_data = Vec::new();
            assert(plan_view(plan@) =~= split_strategy_ops(
                Strategies::OOB2,
                *config,
                parts_view(send_data@),
            ));
        }
        plan
    }
}

impl FragTls {
    /// Re-fragments the TLS record in `current_data` at the split point of the
    /// strategy; anything that is no such record, or cannot be split there, is
    /// left as it is.
    pub fn execute_strategy(
        current_data: &mut Vec<u8>,
        strategy: &Strategy,
        sni_data: &(u32, u32),
    )
        ensures
            final(current_data)@ == fragtls_rest(*strategy, *sni_data, old(current_data)@),
    {
        let offset: i128 = if strategy.add_sni {
            sni_data.0 as i128
        } else {
            0
        };
        let middle: i128 = strategy.base_index as i128 + offset;
        let n: usize = current_data.len();
        if 0 <= middle && middle <= n as i128 {
            let data = copy_all(current_data.as_slice());
            *current_data = edit_tls(data, middle as usize);
        }
    }
}

/// A stream of urgent bytes leaves the hop limit as it was.
pub proof fn lemma_stream_keeps_ttl(bytes: Seq<u8>, ttl: u32)
    ensures
        ttl_after(stream_ops(bytes), ttl) == ttl,
    decreases bytes.len(),
{
    if bytes.len() > 0 {
        assert(stream_ops(bytes).drop_last() =~= stream_ops(bytes.drop_last()));
        lemma_stream_keeps_ttl(bytes.drop_last(), ttl);
    }
}

/// A single write leaves the hop limit as it was.
pub proof fn lemma_write_keeps_ttl(data: Seq<u8>, ttl: u32)
    ensures
        ttl_after(seq![SocketOpView::Write(data)], ttl) == ttl,
        ttl_after(seq![SocketOpView::WriteOob(data)], ttl) == ttl,
{
    reveal_with_fuel(ttl_after, 2);
    assert(seq![SocketOpView::Write(data)].drop_last() =~= Seq::<SocketOpView>::empty());
    assert(seq![SocketOpView::WriteOob(data)].drop_last() =~= Seq::<SocketOpView>::empty());
}

/// Whatever a method sends, the hop limit is the default when it is done, if
/// it was the default before.
pub proof fn lemma_strategy_restores_ttl(
    method: Strategies,
    config: AuxConfig,
    parts: Seq<Seq<u8>>,
    current: Seq<u8>,
)
    ensures
        ttl_after(strategy_ops(method, config, parts, current), default_ttl(config))
            == default_ttl(config),
{
    let d = default_ttl(config);
    let first = parts[0];
    let second = parts[1];
    let w = seq![SocketOpView::Write(first)];
    let fake_dst = drop_ops(config, fakeified(config, part_dst(config, parts)));
    let fake_second = drop_ops(config, fakeified(config, second));
    let marked = with_marker(config, first);
    lemma_write_keeps_ttl(first, d);
    lemma_write_keeps_ttl(marked, d);
    lemma_envelope_restores_ttl(config, current, d);
    lemma_envelope_restores_ttl(config, first, d);
    lemma_envelope_restores_ttl(config, second, d);
    lemma_envelope_restores_ttl(config, marked, d);
    lemma_envelope_restores_ttl(config, fakeified(config, part_dst(config, parts)), d);
    lemma_envelope_restores_ttl(config, fakeified(config, second), d);
    if method == Strategies::MELTDOWN {
    } else if needs_split(method) && parts.len() > 1 {
        match method {
            Strategies::DISORDER2 => {
                lemma_ttl_after_concat(w, duplicate_ops(config, second), d);
            },
            Strategies::FAKE => {
                lemma_ttl_after_concat(duplicate_ops(config, first), fake_dst, d);
            },
            Strategies::FAKEMD => {
                lemma_ttl_after_concat(w, fake_dst, d);
            },
            Strategies::FAKE2INSERT => {
                lemma_ttl_after_concat(w, fake_second, d);
            },
            Strategies::FAKE2DISORDER => {
                lemma_ttl_after_concat(w, fake_second, d);
                lemma_ttl_after_concat(w + fake_second, duplicate_ops(config, second), d);
            },
            Strategies::FAKESURROUND => {
                lemma_ttl_after_concat(fake_dst, w, d);
                lemma_ttl_after_concat(fake_dst + w, fake_dst, d);
            },
            Strategies::OOB2 => {
                lemma_ttl_after_concat(
                    short_lived_oob_ops(config, marked),
                    duplicate_ops(config, second),
                    d,
                );
            },
            Strategies::OOBSTREAMHELL => {
                let stream = stream_ops(encode_utf8(config.socket_options.so_oob_streamhell_data@));
                lemma_stream_keeps_ttl(encode_utf8(config.socket_options.so_oob_streamhell_data@), d);
                lemma_ttl_after_concat(w, stream, d);
            },
            _ => {},
        }
    } else {
    }
}

} // verus!
