//! The byte format in which the contract's codec writes numbers: four big-endian bytes
//! for a 32-bit number.

use vstd::prelude::*;

verus! {

/// The four big-endian bytes that encode a number, as the contract's codec writes a
/// `usize`: only its lowest 32 bits.
pub open spec fn spec_be32(x: int) -> Seq<u8> {
    seq![((x / 16777216) % 256) as u8, ((x / 65536) % 256) as u8, ((x / 256) % 256) as u8, (x % 256) as u8]
}

/// The number that four big-endian bytes at a position encode.
pub open spec fn spec_be32_at(b: Seq<u8>, at: int) -> int {
    b[at] * 16777216 + b[at + 1] * 65536 + b[at + 2] * 256 + b[at + 3]
}

/// A number read back from its four bytes, when it fits in 32 bits.
pub proof fn lemma_be32_round_trip(x: int)
    requires
        0 <= x <= u32::MAX,
    ensures
        spec_be32_at(spec_be32(x), 0) == x,
{
    let b = spec_be32(x);
    assert(b[0] == (x / 16777216) % 256);
    assert(b[1] == (x / 65536) % 256);
    assert(b[2] == (x / 256) % 256);
    assert(b[3] == x % 256);
    assert(((x / 16777216) % 256) * 16777216 + ((x / 65536) % 256) * 65536 + ((x / 256) % 256) * 256 + x % 256 == x)
        by (nonlinear_arith)
        requires
            0 <= x <= u32::MAX,
    ;
}

/// Appends the four big-endian bytes of a number's lowest 32 bits.
pub fn push_be32(out: &mut Vec<u8>, x: usize)
    ensures
        final(out)@ == old(out)@ + spec_be32(x as int),
{
    out.push(((x / 16777216) % 256) as u8);
    out.push(((x / 65536) % 256) as u8);
    out.push(((x / 256) % 256) as u8);
    out.push((x % 256) as u8);
    assert(final(out)@ =~= old(out)@ + spec_be32(x as int));
}

/// Reads four big-endian bytes.
pub fn read_be32(b: &Vec<u8>, at: usize) -> (r: usize)
    requires
        at + 4 <= b@.len(),
    ensures
        r == spec_be32_at(b@, at as int),
{
    assert(b@.len() == b.len());
    let b0 = b[at] as u64;
    let b1 = b[at + 1] as u64;
    let b2 = b[at + 2] as u64;
    let b3 = b[at + 3] as u64;
    let v: u64 = b0 * 16777216 + b1 * 65536 + b2 * 256 + b3;
    assert(v <= u32::MAX);
    v as usize
}

} // verus!
