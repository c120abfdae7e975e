//! What is to be done on the upstream socket: the operations a strategy emits,
//! in order, and the hop limit they leave behind.

use crate::config::AuxConfig;
use vstd::prelude::*;

verus! {

/// One operation on the upstream socket.
#[derive(Debug, Clone, PartialEq)]
pub enum SocketOp {
    /// Set the hop limit (IPv4 TTL and IPv6 hop limit) for the writes that follow.
    SetTtl(u32),
    /// Write all of the bytes.
    Write(Vec<u8>),
    /// Send all of the bytes with the urgent flag set.
    WriteOob(Vec<u8>),
    /// Drop outgoing selective acknowledgements, where the platform can.
    DisableSack,
}

/// A socket operation over sequences.
pub ghost enum SocketOpView {
    SetTtl(u32),
    Write(Seq<u8>),
    WriteOob(Seq<u8>),
    DisableSack,
}

impl View for SocketOp {
    type V = SocketOpView;

    open spec fn view(&self) -> SocketOpView {
        match *self {
            SocketOp::SetTtl(ttl) => SocketOpView::SetTtl(ttl),
            SocketOp::Write(data) => SocketOpView::Write(data@),
            SocketOp::WriteOob(data) => SocketOpView::WriteOob(data@),
            SocketOp::DisableSack => SocketOpView::DisableSack,
        }
    }
}

/// The operations of a plan, in order.
pub open spec fn plan_view(plan: Seq<SocketOp>) -> Seq<SocketOpView> {
    Seq::new(plan.len(), |i: int| plan[i]@)
}

/// The hop limit of the socket after the operations, when it was `ttl` before.
pub open spec fn ttl_after(ops: Seq<SocketOpView>, ttl: u32) -> u32
    decreases ops.len(),
{
    if ops.len() == 0 {
        ttl
    } else {
        match ops.last() {
            SocketOpView::SetTtl(t) => t,
            _ => ttl_after(ops.drop_last(), ttl),
        }
    }
}

/// The hop limit after two runs of operations is that after the second, started
/// from where the first left it.
pub proof fn lemma_ttl_after_concat(a: Seq<SocketOpView>, b: Seq<SocketOpView>, ttl: u32)
    ensures
        ttl_after(a + b, ttl) == ttl_after(b, ttl_after(a, ttl)),
    decreases b.len(),
{
    if b.len() == 0 {
        assert(a + b =~= a);
    } else {
        assert((a + b).last() == b.last());
        assert((a + b).drop_last() =~= a + b.drop_last());
        lemma_ttl_after_concat(a, b.drop_last(), ttl);
    }
}

/// The hop limit of fake packets.
pub open spec fn fake_ttl(config: AuxConfig) -> u32 {
    config.fake_packet_options.fake_packet_ttl as u32
}

/// The hop limit of ordinary writes.
pub open spec fn default_ttl(config: AuxConfig) -> u32 {
    config.desync_options.default_ttl as u32
}

/// A packet that is to die on the way: the first byte of `data`, urgent or not,
/// inside an envelope that lowers the hop limit and restores the default.
pub open spec fn drop_ops(config: AuxConfig, data: Seq<u8>) -> Seq<SocketOpView> {
    if data.len() == 0 {
        seq![SocketOpView::SetTtl(fake_ttl(config)), SocketOpView::SetTtl(default_ttl(config))]
    } else if config.fake_packet_options.fake_as_oob {
        seq![
            SocketOpView::SetTtl(fake_ttl(config)),
            SocketOpView::WriteOob(seq![data[0]]),
            SocketOpView::SetTtl(default_ttl(config)),
        ]
    } else {
        seq![
            SocketOpView::SetTtl(fake_ttl(config)),
            SocketOpView::Write(seq![data[0]]),
            SocketOpView::SetTtl(default_ttl(config)),
        ]
    }
}

/// A packet that dies after one hop: all of `data`, inside an envelope that
/// sets the hop limit to one and restores the default.
pub open spec fn duplicate_ops(config: AuxConfig, data: Seq<u8>) -> Seq<SocketOpView> {
    seq![
        SocketOpView::SetTtl(1u32),
        SocketOpView::Write(data),
        SocketOpView::SetTtl(default_ttl(config)),
    ]
}

/// Urgent data sent with the hop limit at one, the default restored after it.
pub open spec fn short_lived_oob_ops(config: AuxConfig, data: Seq<u8>) -> Seq<SocketOpView> {
    seq![
        SocketOpView::SetTtl(1u32),
        SocketOpView::WriteOob(data),
        SocketOpView::SetTtl(default_ttl(config)),
    ]
}

/// After a dropped packet, a duplicate or short-lived urgent data, the hop limit
/// is the default again, whatever it was before.
pub proof fn lemma_envelope_restores_ttl(config: AuxConfig, data: Seq<u8>, ttl: u32)
    ensures
        ttl_after(drop_ops(config, data), ttl) == default_ttl(config),
        ttl_after(duplicate_ops(config, data), ttl) == default_ttl(config),
        ttl_after(short_lived_oob_ops(config, data), ttl) == default_ttl(config),
{
}

/// Appends one operation to the plan.
pub fn emit(plan: &mut Vec<SocketOp>, op: SocketOp)
    ensures
        plan_view(final(plan)@) == plan_view(old(plan)@).push(op@),
{
    plan.push(op);
    assert(plan_view(plan@) =~= plan_view(old(plan)@).push(op@));
}

/// Plans setting the hop limit.
pub fn set_ttl_raw(plan: &mut Vec<SocketOp>, ttl: u32)
    ensures
        plan_view(final(plan)@) == plan_view(old(plan)@).push(SocketOpView::SetTtl(ttl)),
{
    emit(plan, SocketOp::SetTtl(ttl));
}

/// Plans an ordinary write of `data`.
pub fn write_all(plan: &mut Vec<SocketOp>, data: Vec<u8>)
    ensures
        plan_view(final(plan)@) == plan_view(old(plan)@).push(SocketOpView::Write(data@)),
{
    emit(plan, SocketOp::Write(data));
}

/// Plans sending `oob_data` with the urgent flag; the hop limit is not touched.
pub fn write_oob_multi(plan: &mut Vec<SocketOp>, oob_data: Vec<u8>)
    ensures
        plan_view(final(plan)@) == plan_view(old(plan)@).push(SocketOpView::WriteOob(oob_data@)),
{
    emit(plan, SocketOp::WriteOob(oob_data));
}

/// Plans dropping outgoing selective acknowledgements.
pub fn disable_sack(plan: &mut Vec<SocketOp>)
    ensures
        plan_view(final(plan)@) == plan_view(old(plan)@).push(SocketOpView::DisableSack),
{
    emit(plan, SocketOp::DisableSack);
}

/// Plans a packet that dies after one hop, and the return to the default hop limit.
pub fn send_duplicate(plan: &mut Vec<SocketOp>, packet: Vec<u8>, config: &AuxConfig)
    ensures
        plan_view(final(plan)@) == plan_view(old(plan)@) + duplicate_ops(*config, packet@),
        ttl_after(plan_view(final(plan)@), default_ttl(*config)) == default_ttl(*config),
{
    proof {
        lemma_ttl_after_concat(
            plan_view(plan@),
            duplicate_ops(*config, packet@),
            default_ttl(*config),
        );
    }
    set_ttl_raw(plan, 1);
    write_all(plan, packet);
    set_ttl_raw(plan, config.desync_options.default_ttl as u32);
    assert(plan_view(plan@) =~= plan_view(old(plan)@) + duplicate_ops(*config, packet@));
}

/// Plans a fake packet that dies on the way, and the return to the default hop limit.
pub fn send_drop(plan: &mut Vec<SocketOp>, data: Vec<u8>, config: &AuxConfig)
    ensures
        plan_view(final(plan)@) == plan_view(old(plan)@) + drop_ops(*config, data@),
        ttl_after(plan_view(final(plan)@), default_ttl(*config)) == default_ttl(*config),
{
    proof {
        lemma_ttl_after_concat(plan_view(plan@), drop_ops(*config, data@), default_ttl(*config));
    }
    set_ttl_raw(plan, config.fake_packet_options.fake_packet_ttl as u32);
    if data.len() > 0 {
        let mut first: Vec<u8> = Vec::new();
        first.push(data[0]);
        assert(first@ =~= seq![data@[0]]);
        if config.fake_packet_options.fake_as_oob {
            write_oob_multi(plan, first);
        } else {
            write_all(plan, first);
        }
    }
    set_ttl_raw(plan, config.desync_options.default_ttl as u32);
    assert(plan_view(plan@) =~= plan_view(old(plan)@) + drop_ops(*config, data@));
}

/// Plans urgent data that dies after one hop, and the return to the default hop limit.
pub fn send_short_lived_oob(plan: &mut Vec<SocketOp>, data: Vec<u8>, config: &AuxConfig)
    ensures
        plan_view(final(plan)@) == plan_view(old(plan)@) + short_lived_oob_ops(*config, data@),
{
    set_ttl_raw(plan, 1);
    write_oob_multi(plan, data);
    set_ttl_raw(plan, config.desync_options.default_ttl as u32);
    assert(plan_view(plan@) =~= plan_view(old(plan)@) + short_lived_oob_ops(*config, data@));
}

/// One instruction of a classic packet filter.
#[derive(Debug, Clone, Copy, PartialEq, Eq, Structural)]
pub struct FilterInstruction {
    pub code: u16,
    pub jt: u8,
    pub jf: u8,
    pub k: u32,
}

/// The packet filter for `DisableSack`, as instructions of the classic filter
/// machine: load the byte at offset 12 and shift it right by four; accept
/// where that is eleven or more; else load the byte at offset 34, accept
/// where it is 5, and drop anything else.
pub open spec fn sack_filter_program() -> Seq<FilterInstruction> {
    seq![
        FilterInstruction { code: 0x30, jt: 0, jf: 0, k: 0x0000000c },
        FilterInstruction { code: 0x74, jt: 0, jf: 0, k: 0x00000004 },
        FilterInstruction { code: 0x35, jt: 3, jf: 0, k: 0x0000000b },
        FilterInstruction { code: 0x30, jt: 0, jf: 0, k: 0x00000022 },
        FilterInstruction { code: 0x15, jt: 1, jf: 0, k: 0x00000005 },
        FilterInstruction { code: 0x6, jt: 0, jf: 0, k: 0x00000000 },
        FilterInstruction { code: 0x6, jt: 0, jf: 0, k: 0x00040000 },
    ]
}

/// The packet filter that is attached to the socket for `DisableSack`.
pub fn sack_filter() -> (program: Vec<FilterInstruction>)
    ensures
        program@ == sack_filter_program(),
{
    let mut program: Vec<FilterInstruction> = Vec::new();
    program.push(FilterInstruction { code: 0x30, jt: 0, jf: 0, k: 0x0000000c });
    program.push(FilterInstruction { code: 0x74, jt: 0, jf: 0, k: 0x00000004 });
    program.push(FilterInstruction { code: 0x35, jt: 3, jf: 0, k: 0x0000000b });
    program.push(FilterInstruction { code: 0x30, jt: 0, jf: 0, k: 0x00000022 });
    program.push(FilterInstruction { code: 0x15, jt: 1, jf: 0, k: 0x00000005 });
    program.push(FilterInstruction { code: 0x6, jt: 0, jf: 0, k: 0x00000000 });
    program.push(FilterInstruction { code: 0x6, jt: 0, jf: 0, k: 0x00040000 });
    assert(program@ =~= sack_filter_program());
    program
}

} // verus!
