//! The deterministic randomness behind the hand-drawn outlines: a seed
//! taken from a string and a xorshift generator. The outlines themselves
//! are drawn with floating-point numbers outside this crate.
use vstd::prelude::*;
use vstd::string::StringSliceAdditionalSpecFns;

verus! {

/// The polynomial hash (base 31, wrapping) of a byte string.
pub open spec fn poly_hash(bytes: Seq<u8>) -> u64
    decreases bytes.len(),
{
    if bytes.len() == 0 {
        0
    } else {
        poly_hash(bytes.drop_last()).wrapping_mul(31).wrapping_add(bytes.last() as u64)
    }
}

/// The seed of a string: the hash of its UTF-8 bytes, with 0 replaced by 1.
pub open spec fn seed_of(bytes: Seq<u8>) -> u64 {
    if poly_hash(bytes) == 0 {
        1
    } else {
        poly_hash(bytes)
    }
}

/// The seed for the outlines drawn for a string.
pub fn seed_from_str(s: &str) -> (r: u64)
    ensures
        r == seed_of(s.spec_bytes()),
{
    let bytes = s.as_bytes();
    let n = bytes.len();
    let mut h: u64 = 0;
    let mut i: usize = 0;
    assert(bytes@.take(0) =~= Seq::<u8>::empty());
    while i < n
        invariant
            n == bytes@.len(),
            bytes@ == s.spec_bytes(),
            i <= n,
            h == poly_hash(bytes@.take(i as int)),
        decreases n - i,
    {
        proof {
            assert(bytes@.take(i + 1).drop_last() =~= bytes@.take(i as int));
        }
        h = h.wrapping_mul(31).wrapping_add(bytes[i] as u64);
        i = i + 1;
    }
    assert(bytes@.take(n as int) =~= bytes@);
    if h == 0 {
        1
    } else {
        h
    }
}

/// A seed is never 0.
pub proof fn law_seed_nonzero(bytes: Seq<u8>)
    ensures
        seed_of(bytes) != 0,
{
}

/// One xorshift step (shifts 13, 7, 17).
pub open spec fn xorshift(x: u64) -> u64 {
    let a = x ^ (x << 13u64);
    let b = a ^ (a >> 7u64);
    b ^ (b << 17u64)
}

/// A xorshift generator.
pub struct Rng {
    state: u64,
}

impl Rng {
    /// The current state.
    pub closed spec fn state(&self) -> u64 {
        self.state
    }

    /// A generator started from `seed`: its state is `seed + 1`, wrapping.
    pub fn new(seed: u64) -> (r: Rng)
        ensures
            r.state() == seed.wrapping_add(1),
    {
        Rng { state: seed.wrapping_add(1) }
    }

    /// Advances the generator by one step and returns the low 16 bits of
    /// the new state; the outlines use it divided by 65536 as a number in
    /// `[0, 1)`.
    pub fn next_sample(&mut self) -> (r: u32)
        ensures
            final(self).state() == xorshift(old(self).state()),
            r == xorshift(old(self).state()) & 0xFFFF,
            r < 0x10000,
    {
        let x = self.state;
        let a = x ^ (x << 13u64);
        let b = a ^ (a >> 7u64);
        let c = b ^ (b << 17u64);
        self.state = c;
        let low = c & 0xFFFF;
        assert(low < 0x10000) by (bit_vector)
            requires
                low == c & 0xFFFF,
        ;
        low as u32
    }
}

/// The generator never reaches the all-zero state, from which it could not
/// leave, unless it starts there: a step keeps a nonzero state nonzero.
pub proof fn law_xorshift_keeps_nonzero(x: u64)
    requires
        x != 0,
    ensures
        xorshift(x) != 0,
{
    let a = x ^ (x << 13u64);
    let b = a ^ (a >> 7u64);
    let c = b ^ (b << 17u64);
    assert(x != 0 ==> a != 0) by (bit_vector)
        requires
            a == x ^ (x << 13u64),
    ;
    assert(a != 0 ==> b != 0) by (bit_vector)
        requires
            b == a ^ (a >> 7u64),
    ;
    assert(b != 0 ==> c != 0) by (bit_vector)
        requires
            c == b ^ (b << 17u64),
    ;
}

} // verus!
