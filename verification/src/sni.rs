//! Locating the `server_name` inside a TLS ClientHello.

use vstd::prelude::*;

verus! {

/// The heuristic scanner for the server name of a TLS ClientHello record.
pub struct Sni();

/// The record starts like a TLS handshake record that carries a ClientHello.
pub open spec fn is_client_hello(buf: Seq<u8>) -> bool {
    &&& buf.len() >= 48
    &&& buf[0] == 0x16
    &&& buf[5] == 0x01
}

/// Position `i` looks like a `server_name` extension whose host name is non-empty
/// and lies inside the buffer.
pub open spec fn sni_candidate(buf: Seq<u8>, i: int) -> bool {
    &&& 0 <= i
    &&& i + 8 < buf.len()
    &&& buf[i] == 0
    &&& buf[i + 1] == 0
    &&& buf[i + 7] == 0
    &&& buf[i + 3] as int - buf[i + 5] as int == 2
    &&& buf[i + 8] > 0
    &&& i + 9 + buf[i + 8] as int <= buf.len()
}

/// Position `i` is the first candidate of the buffer.
pub open spec fn first_sni_candidate(buf: Seq<u8>, i: int) -> bool {
    &&& sni_candidate(buf, i)
    &&& forall|j: int| 0 <= j < i ==> !sni_candidate(buf, j)
}

/// The first candidate at or after `i`, if there is one.
pub open spec fn sni_scan_from(buf: Seq<u8>, i: int) -> Option<int>
    decreases buf.len() - i,
{
    if i < 0 || i + 8 >= buf.len() {
        None
    } else if sni_candidate(buf, i) {
        Some(i)
    } else {
        sni_scan_from(buf, i + 1)
    }
}

/// The half-open byte range of the server name, or `(0, 0)` where none is found.
/// Offsets are reported in 32 bits, as the callers carry them.
pub open spec fn sni_span(buf: Seq<u8>) -> (u32, u32) {
    if !is_client_hello(buf) {
        (0u32, 0u32)
    } else {
        match sni_scan_from(buf, 0) {
            Some(i) => ((i + 9) as u32, (i + 9 + buf[i + 8] as int) as u32),
            None => (0u32, 0u32),
        }
    }
}

/// The scan from `i` finds the least candidate that is not below `i`.
pub proof fn lemma_sni_scan_is_first(buf: Seq<u8>, i: int)
    requires
        0 <= i,
    ensures
        match sni_scan_from(buf, i) {
            Some(k) => i <= k && sni_candidate(buf, k) && forall|j: int|
                i <= j < k ==> !sni_candidate(buf, j),
            None => forall|j: int| i <= j ==> !sni_candidate(buf, j),
        },
    decreases buf.len() - i,
{
    if i + 8 >= buf.len() {
    } else if sni_candidate(buf, i) {
    } else {
        lemma_sni_scan_is_first(buf, i + 1);
    }
}

/// A buffer that is shorter than 48 bytes, or does not begin with the handshake
/// content type, has no server name.
pub proof fn lemma_sni_rejects_non_handshake(buf: Seq<u8>)
    requires
        buf.len() < 48 || buf[0] != 0x16,
    ensures
        sni_span(buf) == (0u32, 0u32),
{
}

/// Where a ClientHello has a first candidate at `i`, the span is the host name
/// that the candidate announces.
pub proof fn lemma_sni_span_of_first(buf: Seq<u8>, i: int)
    requires
        is_client_hello(buf),
        first_sni_candidate(buf, i),
    ensures
        sni_span(buf) == ((i + 9) as u32, (i + 9 + buf[i + 8] as int) as u32),
{
    lemma_sni_scan_is_first(buf, 0);
}

impl Sni {
    /// Finds the server name of the ClientHello in `source`.
    pub fn parse_sni_index(source: Vec<u8>) -> (r: (u32, u32))
        ensures
            r == sni_span(source@),
    {
        Sni::locate(source.as_slice())
    }

    /// Finds the server name of the ClientHello in `source`, without taking the buffer.
    pub fn locate(source: &[u8]) -> (r: (u32, u32))
        ensures
            r == sni_span(source@),
    {
        let n: usize = source.len();
        if n < 48 || source[0] != 0x16 || source[5] != 0x01 {
            return (0, 0);
        }
        let limit: usize = n - 8;
        let mut i: usize = 0;
        while i < limit
            invariant
                n == source@.len(),
                is_client_hello(source@),
                limit == n - 8,
                i <= limit,
                sni_scan_from(source@, 0) == sni_scan_from(source@, i as int),
            decreases limit - i,
        {
            if source[i] == 0 && source[i + 1] == 0 && source[i + 7] == 0 && source[i + 3]
                >= source[i + 5] && source[i + 3] - source[i + 5] == 2 {
                let len: usize = source[i + 8] as usize;
                if len > 0 && len <= n - (i + 9) {
                    let start: usize = i + 9;
                    let end: usize = start + len;
                    assert(sni_candidate(source@, i as int));
                    return (
                        #[verifier::truncate]
                        (start as u32),
                        #[verifier::truncate]
                        (end as u32),
                    );
                }
            }
            i += 1;
        }
        (0, 0)
    }
}

} // verus!
