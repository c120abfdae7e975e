//! Where a buffer is split, and the split itself.

use crate::bytes::{copy_all, copy_range};
use crate::config::Strategy;
use vstd::prelude::*;

verus! {

/// The views of the parts of a split buffer.
pub open spec fn parts_view(parts: Seq<Vec<u8>>) -> Seq<Seq<u8>> {
    Seq::new(parts.len(), |i: int| parts[i]@)
}

/// The split point of a strategy: its offset, counted from the start of the
/// server name where the strategy asks for that.
pub open spec fn split_point(strategy: Strategy, sni_data: (u32, u32)) -> int {
    strategy.base_index + if strategy.add_sni {
        sni_data.0 as int
    } else {
        0
    }
}

/// The split point lies strictly inside a buffer of `len` bytes.
pub open spec fn splits(middle: int, len: nat) -> bool {
    0 < middle < len
}

/// The parts of a buffer for a split point: two where it lies strictly inside,
/// else the buffer alone.
pub open spec fn split_parts(buf: Seq<u8>, middle: int) -> Seq<Seq<u8>> {
    if splits(middle, buf.len()) {
        seq![buf.take(middle), buf.skip(middle)]
    } else {
        seq![buf]
    }
}

/// A split inside the buffer gives two parts that together are the buffer, the
/// first of them as long as the split point says.
pub proof fn lemma_split_is_exact(buf: Seq<u8>, middle: int)
    requires
        splits(middle, buf.len()),
    ensures
        split_parts(buf, middle).len() == 2,
        split_parts(buf, middle)[0] + split_parts(buf, middle)[1] == buf,
        split_parts(buf, middle)[0].len() == middle,
{
    assert(buf.take(middle) + buf.skip(middle) =~= buf);
}

/// The bytes before `index` and the bytes from `index` on, as two buffers. An
/// index behind the end gives the whole buffer and an empty one.
pub fn slice_packet(source: Vec<u8>, index: u64) -> (parts: Vec<Vec<u8>>)
    ensures
        parts@.len() == 2,
        parts@[0]@ + parts@[1]@ == source@,
        parts@[0]@.len() == if index <= source@.len() {
            index as int
        } else {
            source@.len() as int
        },
{
    let n: usize = source.len();
    let cut: usize = if index <= n as u64 {
        index as usize
    } else {
        n
    };
    let beta = copy_range(source.as_slice(), 0, cut);
    let alpha = copy_range(source.as_slice(), cut, n);
    let mut parts: Vec<Vec<u8>> = Vec::new();
    parts.push(beta);
    parts.push(alpha);
    assert(source@.subrange(0, cut as int) + source@.subrange(cut as int, n as int) =~= source@);
    parts
}

/// The split point of a strategy, where it lies strictly inside a buffer of
/// `len` bytes.
pub fn split_middle(strategy: &Strategy, sni_data: &(u32, u32), len: usize) -> (r: Option<usize>)
    ensures
        match r {
            Some(middle) => middle == split_point(*strategy, *sni_data) && splits(
                middle as int,
                len as nat,
            ),
            None => !splits(split_point(*strategy, *sni_data), len as nat),
        },
{
    let offset: i128 = if strategy.add_sni {
        sni_data.0 as i128
    } else {
        0
    };
    let middle: i128 = strategy.base_index as i128 + offset;
    if 0 < middle && middle < len as i128 {
        Some(middle as usize)
    } else {
        None
    }
}

/// Splits the buffer where the strategy asks: two parts where the split point
/// lies strictly inside it, else the buffer alone.
pub fn get_split_packet(packet_buffer: &[u8], strategy: &Strategy, sni_data: &(u32, u32)) -> (parts:
    Vec<Vec<u8>>)
    ensures
        parts_view(parts@) == split_parts(packet_buffer@, split_point(*strategy, *sni_data)),
{
    let mut parts: Vec<Vec<u8>> = Vec::new();
    match split_middle(strategy, sni_data, packet_buffer.len()) {
        Some(middle) => {
            parts.push(copy_range(packet_buffer, 0, middle));
            parts.push(copy_range(packet_buffer, middle, packet_buffer.len()));
            assert(parts_view(parts@) =~= split_parts(
                packet_buffer@,
                split_point(*strategy, *sni_data),
            ));
        },
        None => {
            parts.push(copy_all(packet_buffer));
            assert(parts_view(parts@) =~= split_parts(
                packet_buffer@,
                split_point(*strategy, *sni_data),
            ));
        },
    }
    parts
}

} // verus!
