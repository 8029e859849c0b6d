//! Little-endian views of unsigned integers as byte sequences.
//!
//! Both wire formats of this core (the instruction buffer and the
//! persisted record) are little-endian throughout. The spec functions
//! here are the single schema shared by the encoder and the decoder;
//! the round-trip lemmas tie the two directions together.

use vstd::prelude::*;
use vstd::arithmetic::div_mod::{lemma_fundamental_div_mod, lemma_div_denominator, lemma_mod_bound};

verus! {

/// The value of a 2-byte little-endian window.
pub open spec fn le16_of(s: Seq<u8>) -> int
    recommends
        s.len() == 2,
{
    s[0] + 0x100 * s[1]
}

/// The value of a 4-byte little-endian window.
pub open spec fn le32_of(s: Seq<u8>) -> int
    recommends
        s.len() == 4,
{
    s[0] + 0x100 * s[1] + 0x10000 * s[2] + 0x1000000 * s[3]
}

/// The 2-byte little-endian encoding of a 16-bit value.
pub open spec fn u16_le(x: int) -> Seq<u8>
    recommends
        0 <= x < 0x10000,
{
    seq![(x % 0x100) as u8, ((x / 0x100) % 0x100) as u8]
}

/// The 4-byte little-endian encoding of a 32-bit value.
pub open spec fn u32_le(x: int) -> Seq<u8>
    recommends
        0 <= x < 0x1_0000_0000,
{
    seq![
        (x % 0x100) as u8,
        ((x / 0x100) % 0x100) as u8,
        ((x / 0x10000) % 0x100) as u8,
        ((x / 0x1000000) % 0x100) as u8,
    ]
}

/// The 8-byte little-endian encoding of a 64-bit value.
pub open spec fn u64_le(x: int) -> Seq<u8>
    recommends
        0 <= x < 0x1_0000_0000_0000_0000,
{
    seq![
        (x % 0x100) as u8,
        ((x / 0x100) % 0x100) as u8,
        ((x / 0x10000) % 0x100) as u8,
        ((x / 0x1000000) % 0x100) as u8,
        ((x / 0x1_0000_0000) % 0x100) as u8,
        ((x / 0x100_0000_0000) % 0x100) as u8,
        ((x / 0x1_0000_0000_0000) % 0x100) as u8,
        ((x / 0x100_0000_0000_0000) % 0x100) as u8,
    ]
}

/// Appends the 2-byte little-endian encoding of `x`.
pub fn push_u16_le(v: &mut Vec<u8>, x: u16)
    ensures
        final(v)@ == old(v)@ + u16_le(x as int),
{
    v.push((x % 0x100) as u8);
    v.push(((x / 0x100) % 0x100) as u8);
    proof {
        assert(v@ =~= old(v)@ + u16_le(x as int));
    }
}

/// Appends the 4-byte little-endian encoding of `x`.
pub fn push_u32_le(v: &mut Vec<u8>, x: u32)
    ensures
        final(v)@ == old(v)@ + u32_le(x as int),
{
    v.push((x % 0x100) as u8);
    v.push(((x / 0x100) % 0x100) as u8);
    v.push(((x / 0x10000) % 0x100) as u8);
    v.push(((x / 0x1000000) % 0x100) as u8);
    proof {
        assert(v@ =~= old(v)@ + u32_le(x as int));
    }
}

/// Appends the 8-byte little-endian encoding of `x`.
pub fn push_u64_le(v: &mut Vec<u8>, x: u64)
    ensures
        final(v)@ == old(v)@ + u64_le(x as int),
{
    v.push((x % 0x100) as u8);
    v.push(((x / 0x100) % 0x100) as u8);
    v.push(((x / 0x10000) % 0x100) as u8);
    v.push(((x / 0x1000000) % 0x100) as u8);
    v.push(((x / 0x1_0000_0000) % 0x100) as u8);
    v.push(((x / 0x100_0000_0000) % 0x100) as u8);
    v.push(((x / 0x1_0000_0000_0000) % 0x100) as u8);
    v.push(((x / 0x100_0000_0000_0000) % 0x100) as u8);
    proof {
        assert(v@ =~= old(v)@ + u64_le(x as int));
    }
}

/// Appends all bytes of `b`.
pub fn push_bytes(v: &mut Vec<u8>, b: &Vec<u8>)
    ensures
        final(v)@ == old(v)@ + b@,
{
    proof {
        assert(v@ =~= old(v)@ + b@.subrange(0, 0));
    }
    let mut i: usize = 0;
    while i < b.len()
        invariant
            i <= b.len(),
            v@ == old(v)@ + b@.subrange(0, i as int),
        decreases b.len() - i,
    {
        v.push(b[i]);
        i = i + 1;
        proof {
            assert(v@ =~= old(v)@ + b@.subrange(0, i as int));
        }
    }
    proof {
        assert(v@ =~= old(v)@ + b@);
    }
}

/// Reading back the 2-byte little-endian encoding yields the value.
pub proof fn lemma_u16_le_round(x: int)
    requires
        0 <= x < 0x10000,
    ensures
        u16_le(x).len() == 2,
        le16_of(u16_le(x)) == x,
{
    lemma_fundamental_div_mod(x, 0x100);
    lemma_mod_bound(x, 0x100);
    lemma_mod_bound(x / 0x100, 0x100);
    assert(x / 0x100 < 0x100) by {
        lemma_fundamental_div_mod(x, 0x100);
    };
}

/// Reading back the 4-byte little-endian encoding yields the value.
pub proof fn lemma_u32_le_round(x: int)
    requires
        0 <= x < 0x1_0000_0000,
    ensures
        u32_le(x).len() == 4,
        le32_of(u32_le(x)) == x,
{
    lemma_mod_bound(x, 0x100);
    lemma_mod_bound(x / 0x100, 0x100);
    lemma_mod_bound(x / 0x10000, 0x100);
    lemma_mod_bound(x / 0x1000000, 0x100);
    lemma_fundamental_div_mod(x, 0x100);
    lemma_fundamental_div_mod(x / 0x100, 0x100);
    lemma_fundamental_div_mod(x / 0x10000, 0x100);
    lemma_div_denominator(x, 0x100, 0x100);
    lemma_div_denominator(x, 0x10000, 0x100);
    assert(x / 0x1000000 < 0x100) by {
        lemma_fundamental_div_mod(x, 0x1000000);
        lemma_mod_bound(x, 0x1000000);
    };
}

} // verus!
