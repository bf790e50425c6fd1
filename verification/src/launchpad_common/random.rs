//! A seeded source of pseudo-random numbers: four bytes of a 32-byte seed at a time,
//! the seed hashed again with SHA-256 once it is used up.

use vstd::prelude::*;

use crate::launchpad_common::codec::{lemma_be32_round_trip, push_be32, read_be32, spec_be32, spec_be32_at};
use crate::launchpad_common::errors::LaunchpadError;

verus! {

/// The bytes of a seed.
pub const HASH_LEN: usize = 32;

/// The bytes that make one number.
pub const USIZE_BYTES: usize = 4;

/// The SHA-256 digest of some bytes.
pub uninterp spec fn spec_sha256(data: Seq<u8>) -> Seq<u8>;

/// Calls `multiversx_chain_core::std::crypto::sha256`, the framework's SHA-256 (the
/// same function that the chain offers contracts).  The contract claims only that the
/// result is the digest of the input: the same input always gives the same 32 bytes.
#[verifier::external_body]
fn sha256(data: &[u8; 32]) -> (r: [u8; 32])
    ensures
        r@ == spec_sha256(data@),
{
    multiversx_sc::chain_core::std::crypto::sha256(data)
}

/// The number that four bytes encode, most significant byte first.
pub open spec fn spec_be_u32(b0: u8, b1: u8, b2: u8, b3: u8) -> int {
    b0 * 16777216 + b1 * 65536 + b2 * 256 + b3
}

/// The state of the generator: a seed and the position of the next unread byte.
#[derive(Debug, Clone, Copy)]
pub struct Random {
    pub seed: [u8; 32],
    pub index: usize,
}

/// The generator before a number is read: the seed is hashed again when fewer than
/// four bytes are left.
pub open spec fn spec_refreshed(seed: Seq<u8>, index: int) -> (Seq<u8>, int) {
    if index + USIZE_BYTES > HASH_LEN {
        (spec_sha256(seed), 0)
    } else {
        (seed, index)
    }
}

/// The next number of a generator at a seed and position, and where the generator is after it.
pub open spec fn spec_next_from(seed: Seq<u8>, index: int) -> (Seq<u8>, int, int) {
    let (s, i) = spec_refreshed(seed, index);
    (s, i + USIZE_BYTES, spec_be_u32(s[i], s[i + 1], s[i + 2], s[i + 3]))
}

/// The numbers that `k` reads of a generator at a seed and position give, in order, and
/// the seed and position after them.
pub open spec fn spec_draws(seed: Seq<u8>, index: int, k: nat) -> (Seq<int>, Seq<u8>, int)
    decreases k,
{
    if k == 0 {
        (Seq::empty(), seed, index)
    } else {
        let (vs, s, i) = spec_draws(seed, index, (k - 1) as nat);
        let (s2, i2, v) = spec_next_from(s, i);
        (vs.push(v), s2, i2)
    }
}

/// The numbers of a generator depend on its seed and position alone, and reading
/// `a + b` of them is reading `a` and then `b` more from where those left the generator.
pub proof fn lemma_draws_compose(seed: Seq<u8>, index: int, a: nat, b: nat)
    ensures
        ({
            let (va, sa, ia) = spec_draws(seed, index, a);
            let (vb, sb, ib) = spec_draws(sa, ia, b);
            spec_draws(seed, index, a + b) == (va + vb, sb, ib)
        }),
    decreases b,
{
    let (va, sa, ia) = spec_draws(seed, index, a);
    if b == 0 {
        assert(va + Seq::<int>::empty() =~= va);
        assert(a + b == a);
    } else {
        lemma_draws_compose(seed, index, a, (b - 1) as nat);
        let (vb1, sb1, ib1) = spec_draws(sa, ia, (b - 1) as nat);
        let (s2, i2, v) = spec_next_from(sb1, ib1);
        assert((a + b - 1) as nat == a + (b - 1) as nat);
        assert((va + vb1).push(v) =~= va + vb1.push(v));
    }
}

/// The next number of a generator, and the generator after it.
pub open spec fn spec_next_usize(r: Random) -> (Seq<u8>, int, int) {
    spec_next_from(r.seed@, r.index as int)
}

/// A number in `[min, max)` from the next number of a generator; `min` when the range is empty.
pub open spec fn spec_in_range(rand: int, min: usize, max: usize) -> int {
    if min >= max {
        min as int
    } else {
        min + rand % (max - min)
    }
}

impl Random {
    /// A generator that starts at some position of a seed.
    pub fn from_hash(hash: [u8; 32], index: usize) -> (r: Random)
        ensures
            r.seed == hash,
            r.index == index,
    {
        Random { seed: hash, index }
    }

    /// Hashes the seed again and starts from its first byte.
    pub fn hash_seed(&mut self)
        ensures
            final(self).seed@ == spec_sha256(old(self).seed@),
            final(self).index == 0,
    {
        self.seed = sha256(&self.seed);
        self.index = 0;
    }

    /// The next number: four bytes of the seed, most significant first.
    pub fn next_usize(&mut self) -> (r: usize)
        ensures
            ({
                let (seed, index, value) = spec_next_usize(*old(self));
                &&& final(self).seed@ == seed
                &&& final(self).index == index
                &&& r == value
            }),
            r <= u32::MAX,
    {
        if self.index > HASH_LEN - USIZE_BYTES {
            self.hash_seed();
        }
        let i = self.index;
        let b0 = self.seed[i] as usize;
        let b1 = self.seed[i + 1] as usize;
        let b2 = self.seed[i + 2] as usize;
        let b3 = self.seed[i + 3] as usize;
        let rand = b0 * 16777216 + b1 * 65536 + b2 * 256 + b3;
        self.index = i + USIZE_BYTES;
        rand
    }

    /// A number in `[min, max)`; `min` itself when the range is empty.
    pub fn next_usize_in_range(&mut self, min: usize, max: usize) -> (r: usize)
        ensures
            ({
                let (seed, index, value) = spec_next_usize(*old(self));
                &&& final(self).seed@ == seed
                &&& final(self).index == index
                &&& r == spec_in_range(value, min, max)
            }),
            min < max ==> min <= r < max,
            min >= max ==> r == min,
    {
        let rand = self.next_usize();
        if min >= max {
            min
        } else {
            min + rand % (max - min)
        }
    }
}

/// The bytes under which a generator is saved: the seed's length and the seed, then the
/// position, as the contract's codec writes them.
pub open spec fn spec_encode_random(r: Random) -> Seq<u8> {
    spec_be32(32) + r.seed@ + spec_be32(r.index as int)
}

/// The seed and position that some bytes hold; `None` unless they hold a 32-byte seed
/// and a position.
pub open spec fn spec_decode_random(b: Seq<u8>) -> Option<(Seq<u8>, int)> {
    if b.len() != 40 || spec_be32_at(b, 0) != 32 {
        None
    } else {
        Some((b.subrange(4, 36), spec_be32_at(b, 36)))
    }
}

/// A saved generator is read back as it was, when its position fits in 32 bits.
pub proof fn lemma_random_round_trip(r: Random)
    requires
        r.index <= u32::MAX,
    ensures
        spec_decode_random(spec_encode_random(r)) == Some((r.seed@, r.index as int)),
{
    let b = spec_encode_random(r);
    lemma_be32_round_trip(32);
    lemma_be32_round_trip(r.index as int);
    assert(b.subrange(0, 4) =~= spec_be32(32));
    assert(b.subrange(4, 36) =~= r.seed@);
    assert(b.subrange(36, 40) =~= spec_be32(r.index as int));
    assert(spec_be32_at(b, 0) == spec_be32_at(b.subrange(0, 4), 0));
    assert(spec_be32_at(b, 36) == spec_be32_at(b.subrange(36, 40), 0));
}

impl Random {
    /// The bytes under which the generator is saved between calls.
    pub fn encode(&self) -> (r: Vec<u8>)
        ensures
            r@ == spec_encode_random(*self),
    {
        let mut out: Vec<u8> = Vec::new();
        push_be32(&mut out, 32);
        let mut i: usize = 0;
        while i < 32
            invariant
                i <= 32,
                out@ == spec_be32(32) + self.seed@.take(i as int),
            decreases 32 - i,
        {
            out.push(self.seed[i]);
            i = i + 1;
            assert(out@ =~= spec_be32(32) + self.seed@.take(i as int));
        }
        assert(self.seed@.take(32) =~= self.seed@);
        push_be32(&mut out, self.index);
        out
    }

    /// The generator saved under some bytes; refused unless they hold a 32-byte seed and
    /// a position.
    pub fn decode(data: &Vec<u8>) -> (r: Result<Random, LaunchpadError>)
        ensures
            r is Err <==> spec_decode_random(data@) is None,
            r is Err ==> r == Err::<Random, _>(LaunchpadError::InvalidOperationData),
            r matches Ok(rng) ==> spec_decode_random(data@) == Some((rng.seed@, rng.index as int)),
    {
        if data.len() != 40 || read_be32(data, 0) != 32 {
            return Err(LaunchpadError::InvalidOperationData);
        }
        let mut seed: [u8; 32] = [0u8; 32];
        let mut i: usize = 0;
        while i < 32
            invariant
                i <= 32,
                data@.len() == 40,
                forall|j: int| 0 <= j < i ==> seed@[j] == data@[4 + j],
            decreases 32 - i,
        {
            seed[i] = data[4 + i];
            i = i + 1;
        }
        assert(seed@ =~= data@.subrange(4, 36));
        Ok(Random::from_hash(seed, read_be32(data, 36)))
    }
}

} // verus!
