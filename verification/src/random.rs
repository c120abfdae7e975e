//! The linear congruential generator behind jitter and random payloads.

use vstd::prelude::*;

verus! {

/// A linear congruential generator over 32 bits.
pub struct Random {
    last_num: u32,
    magic_mul: u32,
    magic_add: u32,
}

/// The state that follows `state`.
pub open spec fn lcg_next(state: u32) -> u32 {
    ((state as int * 1664525 + 1013904223) % 0x1_0000_0000) as u32
}

/// The byte a state gives out: bits 16 to 23.
pub open spec fn lcg_output(state: u32) -> u8 {
    ((state as int / 0x1_0000) % 0x100) as u8
}

/// The state after `n` steps from `seed`.
pub open spec fn lcg_state(seed: u32, n: nat) -> u32
    decreases n,
{
    if n == 0 {
        seed
    } else {
        lcg_next(lcg_state(seed, (n - 1) as nat))
    }
}

/// The first `len` bytes that the generator gives out from `seed`.
pub open spec fn random_bytes(seed: u32, len: nat) -> Seq<u8> {
    Seq::new(len, |i: int| lcg_output(lcg_state(seed, (i + 1) as nat)))
}

/// Multiplying and adding with wrap-around is the step of the generator.
proof fn lemma_lcg_step(x: u32)
    ensures
        vstd::wrapping::u32_specs::wrapping_add(
            vstd::wrapping::u32_specs::wrapping_mul(x, 1664525u32),
            1013904223u32,
        ) == lcg_next(x),
{
    let p: int = x as int * 1664525;
    let q: int = p / 0x1_0000_0000;
    let m: int = p % 0x1_0000_0000;
    vstd::arithmetic::div_mod::lemma_fundamental_div_mod(p, 0x1_0000_0000);
    assert(p == q * 0x1_0000_0000 + m);
    assert(0 <= m < 0x1_0000_0000);
    assert(vstd::wrapping::u32_specs::wrapping_mul(x, 1664525u32) == m);
    if m + 1013904223 >= 0x1_0000_0000 {
        vstd::arithmetic::div_mod::lemma_fundamental_div_mod_converse(
            p + 1013904223,
            0x1_0000_0000,
            q + 1,
            m + 1013904223 - 0x1_0000_0000,
        );
    } else {
        vstd::arithmetic::div_mod::lemma_fundamental_div_mod_converse(
            p + 1013904223,
            0x1_0000_0000,
            q,
            m + 1013904223,
        );
    }
}

impl Random {
    /// The state the generator is in.
    pub closed spec fn state(&self) -> u32 {
        self.last_num
    }

    /// The generator has the multiplier and increment it was made with.
    pub closed spec fn wf(&self) -> bool {
        self.magic_mul == 1664525 && self.magic_add == 1013904223
    }

    /// A generator in the state `initial`.
    pub fn new(initial: u32) -> (r: Self)
        ensures
            r.wf(),
            r.state() == initial,
    {
        Self { last_num: initial, magic_mul: 1664525, magic_add: 1013904223 }
    }

    /// Drops the low 16 bits, which have short periods.
    pub fn clamp_low_bits(&self, num: &u32) -> (r: u32)
        ensures
            r == *num / 0x1_0000,
    {
        let r = *num >> 16;
        assert(*num >> 16 == *num / 0x1_0000) by (bit_vector);
        r
    }

    /// Steps the generator and gives out the next byte.
    pub fn next_rand(&mut self) -> (r: u8)
        requires
            old(self).wf(),
        ensures
            final(self).wf(),
            final(self).state() == lcg_next(old(self).state()),
            r == lcg_output(final(self).state()),
    {
        proof {
            lemma_lcg_step(self.last_num);
        }
        self.last_num = self.last_num.wrapping_mul(self.magic_mul).wrapping_add(self.magic_add);
        let high: u32 = self.clamp_low_bits(&self.last_num);
        let r: u8 = (high % 0x100) as u8;
        r
    }
}

/// `len` bytes from the generator seeded with `seed`.
pub fn make_random_vec(len: usize, seed: u32) -> (out: Vec<u8>)
    ensures
        out@ == random_bytes(seed, len as nat),
{
    let mut rand: Random = Random::new(seed);
    let mut out: Vec<u8> = Vec::new();
    let mut i: usize = 0;
    while i < len
        invariant
            i <= len,
            rand.wf(),
            rand.state() == lcg_state(seed, i as nat),
            out@ == random_bytes(seed, i as nat),
        decreases len - i,
    {
        let byte = rand.next_rand();
        out.push(byte);
        i += 1;
        assert(out@ =~= random_bytes(seed, i as nat));
    }
    out
}

} // verus!
