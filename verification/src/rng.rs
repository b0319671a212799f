//! The xorshift64 pseudo-random generator shared by the agents and the
//! simulated environment.

use vstd::prelude::*;

verus! {

/// Seed of the generator of an epsilon-greedy agent.
pub const EPSILON_GREEDY_SEED: u64 = 42;

/// Seed of the generator of a Thompson sampling agent.
pub const THOMPSON_SEED: u64 = 12345;

/// Seed of the generator of a simulated environment.
pub const ENVIRONMENT_SEED: u64 = 98765;

/// Mask that keeps the low 63 bits of a state.
pub const LOW_63_BITS: u64 = 0x7FFF_FFFF_FFFF_FFFF;

/// One xorshift64 step with shifts 13, 7 and 17.
pub open spec fn xorshift64(x: u64) -> u64 {
    let a = x ^ (x << 13u64);
    let b = a ^ (a >> 7u64);
    b ^ (b << 17u64)
}

/// The draw a state yields: its low 63 bits.
pub open spec fn draw_of(x: u64) -> u64 {
    x & LOW_63_BITS
}

/// A deterministic xorshift64 generator.
#[derive(Debug, Clone)]
pub struct Xorshift64 {
    state: u64,
}

impl Xorshift64 {
    /// The current state.
    pub closed spec fn spec_state(&self) -> u64 {
        self.state
    }

    /// A generator started at `seed`.
    pub fn new(seed: u64) -> (g: Self)
        ensures
            g.spec_state() == seed,
    {
        Xorshift64 { state: seed }
    }

    /// The current state.
    pub fn state(&self) -> (s: u64)
        ensures
            s == self.spec_state(),
    {
        self.state
    }

    /// Advances the generator by one xorshift64 step and returns the new
    /// state's low 63 bits, a value below 2^63.
    pub fn next_bits(&mut self) -> (r: u64)
        ensures
            final(self).spec_state() == xorshift64(old(self).spec_state()),
            r == draw_of(final(self).spec_state()),
            r < 0x8000_0000_0000_0000u64,
            r == final(self).spec_state() % 0x8000_0000_0000_0000u64,
            final(self).spec_state() < 0x8000_0000_0000_0000u64 ==> r == final(self).spec_state(),
            final(self).spec_state() >= 0x8000_0000_0000_0000u64 ==> r + 0x8000_0000_0000_0000u64
                == final(self).spec_state(),
    {
        let mut x = self.state;
        x = x ^ (x << 13u64);
        x = x ^ (x >> 7u64);
        x = x ^ (x << 17u64);
        self.state = x;
        let r = x & LOW_63_BITS;
        proof {
            lemma_draw_clears_top_bit(x);
        }
        r
    }
}

/// The draw of a state is the state with its top bit cleared: the state
/// modulo 2^63. A state below 2^63 is its own draw, and a state at or above
/// 2^63 draws exactly 2^63 less.
pub proof fn lemma_draw_clears_top_bit(x: u64)
    ensures
        draw_of(x) == x % 0x8000_0000_0000_0000u64,
        draw_of(x) < 0x8000_0000_0000_0000u64,
        x < 0x8000_0000_0000_0000u64 ==> draw_of(x) == x,
        x >= 0x8000_0000_0000_0000u64 ==> draw_of(x) + 0x8000_0000_0000_0000u64 == x,
{
    assert(x & 0x7FFF_FFFF_FFFF_FFFFu64 == x % 0x8000_0000_0000_0000u64) by (bit_vector);
    assert(x & 0x7FFF_FFFF_FFFF_FFFFu64 < 0x8000_0000_0000_0000u64) by (bit_vector);
}

/// The step is linear over GF(2): stepping the xor of two states gives the
/// xor of their steps. Together with `lemma_xorshift64_basis` this fixes the
/// step on every state.
pub proof fn lemma_xorshift64_linear(x: u64, y: u64)
    ensures
        xorshift64(x ^ y) == xorshift64(x) ^ xorshift64(y),
{
    assert(xorshift64(x ^ y) == xorshift64(x) ^ xorshift64(y)) by (bit_vector);
}

/// The step on a single bit `k`: shift-xor by 13 to the left, then by 7 to
/// the right, then by 17 to the left.
pub proof fn lemma_xorshift64_basis(k: u64)
    requires
        k < 64,
    ensures
        ({
            let e = 1u64 << k;
            let u = e ^ (e << 13u64);
            let v = u ^ (u >> 7u64);
            xorshift64(e) == v ^ (v << 17u64)
        }),
{
}

/// Undoing the three shift-xors in reverse order gives back the state: the
/// left shift-xor by 17 is undone by xoring the shifts by 17, 34 and 51, the
/// right shift-xor by 7 by xoring the shifts by 7, 14, ..., 63, and the left
/// shift-xor by 13 by xoring the shifts by 13, 26, 39 and 52.
pub proof fn lemma_xorshift64_undo(x: u64)
    ensures
        ({
            let y = xorshift64(x);
            let b = y ^ (y << 17u64) ^ (y << 34u64) ^ (y << 51u64);
            let a = b ^ (b >> 7u64) ^ (b >> 14u64) ^ (b >> 21u64) ^ (b >> 28u64) ^ (b >> 35u64)
                ^ (b >> 42u64) ^ (b >> 49u64) ^ (b >> 56u64) ^ (b >> 63u64);
            a ^ (a << 13u64) ^ (a << 26u64) ^ (a << 39u64) ^ (a << 52u64) == x
        }),
{
    let y = xorshift64(x);
    let p = x ^ (x << 13u64);
    let q = p ^ (p >> 7u64);
    assert(y == q ^ (q << 17u64));
    let b = y ^ (y << 17u64) ^ (y << 34u64) ^ (y << 51u64);
    assert(b == q) by (bit_vector)
        requires
            y == q ^ (q << 17u64),
            b == y ^ (y << 17u64) ^ (y << 34u64) ^ (y << 51u64),
    ;
    let a = b ^ (b >> 7u64) ^ (b >> 14u64) ^ (b >> 21u64) ^ (b >> 28u64) ^ (b >> 35u64) ^ (b
        >> 42u64) ^ (b >> 49u64) ^ (b >> 56u64) ^ (b >> 63u64);
    assert(a == p) by (bit_vector)
        requires
            b == p ^ (p >> 7u64),
            a == b ^ (b >> 7u64) ^ (b >> 14u64) ^ (b >> 21u64) ^ (b >> 28u64) ^ (b >> 35u64) ^ (b
                >> 42u64) ^ (b >> 49u64) ^ (b >> 56u64) ^ (b >> 63u64),
    ;
    assert(a ^ (a << 13u64) ^ (a << 26u64) ^ (a << 39u64) ^ (a << 52u64) == x) by (bit_vector)
        requires
            a == x ^ (x << 13u64),
    ;
}

/// A nonzero state never steps to zero, so a generator seeded with a nonzero
/// value never gets stuck.
pub proof fn lemma_xorshift64_nonzero(x: u64)
    requires
        x != 0,
    ensures
        xorshift64(x) != 0,
{
    let a = x ^ (x << 13u64);
    let b = a ^ (a >> 7u64);
    assert(a != 0) by (bit_vector)
        requires x != 0u64, a == x ^ (x << 13u64);
    assert(b != 0) by (bit_vector)
        requires a != 0u64, b == a ^ (a >> 7u64);
    assert(b ^ (b << 17u64) != 0) by (bit_vector)
        requires b != 0u64;
}

/// Distinct states step to distinct states: the step is a permutation of the
/// 64-bit states.
pub proof fn lemma_xorshift64_injective(x: u64, y: u64)
    requires
        xorshift64(x) == xorshift64(y),
    ensures
        x == y,
{
    let ax = x ^ (x << 13u64);
    let bx = ax ^ (ax >> 7u64);
    let ay = y ^ (y << 13u64);
    let by_ = ay ^ (ay >> 7u64);
    assert(bx == by_) by (bit_vector)
        requires bx ^ (bx << 17u64) == by_ ^ (by_ << 17u64);
    assert(ax == ay) by (bit_vector)
        requires ax ^ (ax >> 7u64) == ay ^ (ay >> 7u64);
    assert(x == y) by (bit_vector)
        requires x ^ (x << 13u64) == y ^ (y << 13u64);
}

} // verus!
