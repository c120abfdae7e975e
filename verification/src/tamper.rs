//! Edits of the application layer: TLS record re-fragmentation and mangling of
//! the HTTP `Host:` header.

use crate::bytes::{append_bytes, copy_range};
use crate::config::HttpOptions;
use vstd::prelude::*;

verus! {

/// A TLS handshake record around `payload`: content type 0x16, version 3.1, the
/// length of the payload in 16 bits, big-endian, then the payload.
pub open spec fn record_of(payload: Seq<u8>) -> Seq<u8> {
    seq![
        0x16u8,
        0x03u8,
        0x01u8,
        ((payload.len() / 256) % 256) as u8,
        (payload.len() % 256) as u8,
    ] + payload
}

/// Wraps `data` in a TLS handshake record.
pub fn as_record(data: Vec<u8>) -> (record: Vec<u8>)
    ensures
        record@ == record_of(data@),
{
    let n: usize = data.len();
    let mut record: Vec<u8> = Vec::new();
    record.push(0x16u8);
    record.push(0x03u8);
    record.push(0x01u8);
    record.push(((n / 256) % 256) as u8);
    record.push((n % 256) as u8);
    append_bytes(&mut record, data.as_slice());
    assert(record@ =~= record_of(data@));
    record
}

/// The buffer is one TLS 1.0-framed handshake record header followed by a
/// payload that can be split at `index`.
pub open spec fn can_fragment(data: Seq<u8>, index: int) -> bool {
    &&& data.len() >= 5
    &&& data[0] == 0x16
    &&& data[1] == 0x03
    &&& data[2] == 0x01
    &&& 0 <= index <= data.len() - 5
}

/// The record re-emitted as two records that split its payload at `index`, or
/// the buffer as it was where it cannot be fragmented there.
pub open spec fn fragmented(data: Seq<u8>, index: int) -> Seq<u8> {
    if can_fragment(data, index) {
        record_of(data.subrange(5, 5 + index)) + record_of(
            data.subrange(5 + index, data.len() as int),
        )
    } else {
        data
    }
}

/// Re-fragments a TLS record: its payload is split at `index` and sent as two
/// records. Anything else is returned unchanged.
pub fn edit_tls(data: Vec<u8>, index: usize) -> (out: Vec<u8>)
    ensures
        out@ == fragmented(data@, index as int),
{
    let n: usize = data.len();
    if n >= 5 && data[0] == 0x16 && data[1] == 0x03 && data[2] == 0x01 && index <= n - 5 {
        let first_part = copy_range(data.as_slice(), 5, 5 + index);
        let second_part = copy_range(data.as_slice(), 5 + index, n);
        let mut result = as_record(first_part);
        let record2 = as_record(second_part);
        append_bytes(&mut result, record2.as_slice());
        return result;
    }
    data
}

/// `Host:` stands at position `i`.
pub open spec fn host_at(data: Seq<u8>, i: int) -> bool {
    &&& 0 <= i
    &&& i + 4 < data.len()
    &&& data[i] == 72
    &&& data[i + 1] == 111
    &&& data[i + 2] == 115
    &&& data[i + 3] == 116
    &&& data[i + 4] == 58
}

/// The upper-case form of an ASCII letter; any other byte as it is.
pub open spec fn ascii_upper(b: u8) -> u8 {
    if 97 <= b <= 122 {
        (b - 32) as u8
    } else {
        b
    }
}

/// `Host:` at `i` written as `HOsT:`.
pub open spec fn mix_host(data: Seq<u8>, i: int) -> Seq<u8> {
    data.update(i + 1, 79u8).update(i + 3, 84u8)
}

/// The space after the colon removed, if there is one.
pub open spec fn drop_space(data: Seq<u8>, i: int) -> Seq<u8> {
    if i + 5 < data.len() && data[i + 5] == 32 {
        data.remove(i + 5)
    } else {
        data
    }
}

/// A space inserted after the colon.
pub open spec fn add_space(data: Seq<u8>, i: int) -> Seq<u8> {
    data.insert(i + 5, 32u8)
}

/// The first position at or after `k` that holds no space, or the length of
/// the buffer where there is none.
pub open spec fn skip_spaces(data: Seq<u8>, k: int) -> int
    decreases data.len() - k,
{
    if k < 0 || k >= data.len() {
        data.len() as int
    } else if data[k] != 32 {
        k
    } else {
        skip_spaces(data, k + 1)
    }
}

/// The first character of the domain in upper case: the first byte behind
/// the colon that is no space, if there is one.
pub open spec fn upper_domain(data: Seq<u8>, i: int) -> Seq<u8> {
    let k = skip_spaces(data, i + 5);
    if 0 <= k < data.len() {
        data.update(k, ascii_upper(data[k]))
    } else {
        data
    }
}

/// The buffer after the header at `i`, if one stands there, was mangled as the
/// options ask: each option by itself, in this order.
pub open spec fn http_edit_at(options: HttpOptions, data: Seq<u8>, i: int) -> Seq<u8> {
    if !host_at(data, i) {
        data
    } else {
        let d1 = if options.http_host_cmix {
            mix_host(data, i)
        } else {
            data
        };
        let d2 = if options.http_host_rmspace {
            drop_space(d1, i)
        } else {
            d1
        };
        let d3 = if options.http_host_space {
            add_space(d2, i)
        } else {
            d2
        };
        if options.http_domain_cmix {
            upper_domain(d3, i)
        } else {
            d3
        }
    }
}

/// The buffer after the positions from `i` up to `n` were visited in turn.
pub open spec fn http_edit_from(options: HttpOptions, data: Seq<u8>, i: int, n: int) -> Seq<u8>
    decreases n - i,
{
    if i >= n {
        data
    } else {
        http_edit_from(options, http_edit_at(options, data, i), i + 1, n)
    }
}

/// The buffer after every `Host:` header that a scan over the length it had at first
/// meets was mangled.
pub open spec fn http_edited(options: HttpOptions, data: Seq<u8>) -> Seq<u8> {
    http_edit_from(options, data, 0, data.len() as int)
}

/// Mangles the header at `iter`, if one stands there.
fn edit_http_at(options: &HttpOptions, data: &mut Vec<u8>, iter: usize)
    ensures
        final(data)@ == http_edit_at(*options, old(data)@, iter as int),
{
    let n: usize = data.len();
    if n < 5 || iter >= n - 4 {
        return ;
    }
    if !(data[iter] == 72 && data[iter + 1] == 111 && data[iter + 2] == 115 && data[iter + 3]
        == 116 && data[iter + 4] == 58) {
        return ;
    }
    let ghost d0 = data@;
    if options.http_host_cmix {
        data[iter + 1] = 79;
        data[iter + 3] = 84;
    }
    let ghost d1 = data@;
    assert(d1 == if options.http_host_cmix {
        mix_host(d0, iter as int)
    } else {
        d0
    });
    if options.http_host_rmspace && iter + 5 < data.len() && data[iter + 5] == 32 {
        data.remove(iter + 5);
    }
    let ghost d2 = data@;
    assert(d2 == if options.http_host_rmspace {
        drop_space(d1, iter as int)
    } else {
        d1
    });
    if options.http_host_space {
        data.insert(iter + 5, 32);
    }
    let ghost d3 = data@;
    if options.http_domain_cmix {
        let len: usize = data.len();
        let mut k: usize = iter + 5;
        while k < len && data[k] == 32
            invariant
                len == data@.len(),
                data@ == d3,
                iter + 5 <= k,
                skip_spaces(d3, iter + 5) == skip_spaces(d3, k as int),
            decreases len - k,
        {
            k += 1;
        }
        if k < len {
            let b: u8 = data[k];
            if 97 <= b && b <= 122 {
                data[k] = b - 32;
            }
        }
        assert(data@ =~= upper_domain(d3, iter as int));
    }
}

/// Mangles every HTTP `Host:` header of the buffer as the options ask.
pub fn edit_http(data: Vec<u8>, options: &HttpOptions) -> (out: Vec<u8>)
    ensures
        out@ == http_edited(*options, data@),
{
    let ghost given = data@;
    let mut out = data;
    let n: usize = out.len();
    let mut iter: usize = 0;
    while iter < n
        invariant
            iter <= n,
            http_edit_from(*options, out@, iter as int, n as int) == http_edited(
                *options,
                given,
            ),
        decreases n - iter,
    {
        edit_http_at(options, &mut out, iter);
        iter += 1;
    }
    out
}

} // verus!
