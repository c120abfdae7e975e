//! Fake payloads: data that looks enough like a real flight to be cached by an
//! inspector, and is sent so that it never reaches the peer.

use crate::bytes::copy_all;
use crate::config::{AuxConfig, Strategy};
use crate::sni::{sni_span, Sni};
use crate::split::{get_split_packet, parts_view, split_parts, split_point};
use crate::text::join3;
use std::marker::PhantomData;
use vstd::prelude::*;
use vstd::utf8::encode_utf8;

verus! {

/// The fake-packet family of strategies, by method.
pub struct FakeD<T> {
    _marker: PhantomData<T>,
}

/// A minimal HTTP request for the host.
pub open spec fn fake_http(host: Seq<char>) -> Seq<char> {
    "GET / HTTP 1.1\nHost: "@ + host + "\nContent-Type: text/html\nContent-Length: 1\na"@
}

/// The buffer with its server name overwritten by `fake`, as far as the shorter
/// of the two reaches.
pub open spec fn sni_overwritten(data: Seq<u8>, fake: Seq<u8>) -> Seq<u8> {
    let span = sni_span(data);
    Seq::new(
        data.len(),
        |j: int|
            if span.0 <= j < span.1 && j - span.0 < fake.len() {
                fake[j - span.0]
            } else {
                data[j]
            },
    )
}

/// The fake payload for `data`: the configured override, else a minimal HTTP
/// request for the configured host, else `data` with its server name
/// overwritten by the configured one.
pub open spec fn fakeified(config: AuxConfig, data: Seq<u8>) -> Seq<u8> {
    match config.fake_packet_options.fake_packet_override_data {
        Some(bytes) => bytes@,
        None => if config.fake_packet_options.fake_packet_send_http {
            encode_utf8(fake_http(config.fake_packet_options.fake_packet_host@))
        } else {
            sni_overwritten(data, encode_utf8(config.fake_packet_options.fake_packet_sni@))
        },
    }
}

/// The packet with its server name overwritten by `fake`.
pub fn overwrite_sni(packet: Vec<u8>, fake: &[u8]) -> (out: Vec<u8>)
    ensures
        out@ == sni_overwritten(packet@, fake@),
{
    let span = Sni::locate(packet.as_slice());
    let mut out = packet;
    let n: usize = out.len();
    let start: usize = span.0 as usize;
    let end: usize = span.1 as usize;
    let mut limit: usize = 0;
    if start < end && start < n {
        limit = end - start;
        if n - start < limit {
            limit = n - start;
        }
        if fake.len() < limit {
            limit = fake.len();
        }
    }
    let mut k: usize = 0;
    while k < limit
        invariant
            n == packet@.len(),
            out@.len() == n,
            k <= limit,
            limit <= fake@.len(),
            limit == 0 || start + limit <= n,
            forall|j: int|
                0 <= j < n ==> out@[j] == if start <= j < start + k {
                    fake@[j - start]
                } else {
                    packet@[j]
                },
        decreases limit - k,
    {
        out[start + k] = fake[k];
        k += 1;
    }
    assert(out@ =~= sni_overwritten(packet@, fake@));
    out
}

impl<T> FakeD<T> {
    /// A minimal HTTP request whose `Host:` header names `host`.
    pub fn get_fake_http(host: String) -> (request: String)
        ensures
            request@ == fake_http(host@),
    {
        join3(
            "GET / HTTP 1.1\nHost: ",
            host.as_str(),
            "\nContent-Type: text/html\nContent-Length: 1\na",
        )
    }

    /// The fake payload that stands for `packet`.
    pub fn get_fake_packet(packet: Vec<u8>, config: &AuxConfig) -> (fake: Vec<u8>)
        ensures
            fake@ == fakeified(*config, packet@),
    {
        match &config.fake_packet_options.fake_packet_override_data {
            Some(data) => copy_all(data.as_slice()),
            None => {
                if config.fake_packet_options.fake_packet_send_http {
                    let request = Self::get_fake_http(
                        config.fake_packet_options.fake_packet_host.clone(),
                    );
                    copy_all(request.as_str().as_bytes())
                } else {
                    overwrite_sni(
                        packet,
                        config.fake_packet_options.fake_packet_sni.as_str().as_bytes(),
                    )
                }
            },
        }
    }

    /// Splits the buffer where the strategy asks.
    pub fn get_split_packet(
        packet_buffer: &[u8],
        strategy: &Strategy,
        sni_data: &(u32, u32),
    ) -> (parts: Vec<Vec<u8>>)
        ensures
            parts_view(parts@) == split_parts(packet_buffer@, split_point(*strategy, *sni_data)),
    {
        get_split_packet(packet_buffer, strategy, sni_data)
    }
}

} // verus!
