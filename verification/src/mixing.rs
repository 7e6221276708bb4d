//! The bijection between sequence numbers and identifier values.
//!
//! Sequence numbers are handed out in increasing order. The value an
//! identifier exposes is its sequence number multiplied by an odd constant
//! modulo 2^64, which hides the order without giving up distinctness:
//! multiplication by an odd number permutes the 64-bit words, and the only
//! word it sends to zero is zero itself.

use vstd::prelude::*;

verus! {

/// Multiplier that turns a sequence number into an identifier value.
pub const SEQ2ID: u64 = 6848199123282258749;

/// Multiplier that turns an identifier value back into its sequence number:
/// the inverse of [`SEQ2ID`] modulo 2^64.
pub const ID2SEQ: u64 = 0x1337_fe4415;

/// The identifier value of a sequence number: its product with [`SEQ2ID`],
/// reduced modulo 2^64.
pub open spec fn mixed(seq: u64) -> u64 {
    ((seq as int * SEQ2ID as int) % 0x1_0000_0000_0000_0000) as u64
}

/// The sequence number behind an identifier value: its product with
/// [`ID2SEQ`], reduced modulo 2^64.
pub open spec fn unmixed(id: u64) -> u64 {
    ((id as int * ID2SEQ as int) % 0x1_0000_0000_0000_0000) as u64
}

/// Both multipliers are odd, and their product is 1 modulo 2^64.
pub proof fn lemma_multipliers_are_inverse()
    ensures
        SEQ2ID % 2 == 1,
        ID2SEQ % 2 == 1,
        (SEQ2ID as int * ID2SEQ as int) % 0x1_0000_0000_0000_0000 == 1,
{
    assert(SEQ2ID as int * ID2SEQ as int == 30643689842 * 0x1_0000_0000_0000_0000 + 1);
}

/// Unmixing a mixed word gives the word back, for every 64-bit word.
pub proof fn lemma_unmix_inverts_mix(x: u64)
    ensures
        unmixed(mixed(x)) == x,
{
    assert(unmixed(mixed(x)) == x) by (bit_vector);
}

/// Mixing an unmixed word gives the word back, for every 64-bit word.
pub proof fn lemma_mix_inverts_unmix(x: u64)
    ensures
        mixed(unmixed(x)) == x,
{
    assert(mixed(unmixed(x)) == x) by (bit_vector);
}

/// Different words mix to different words.
pub proof fn lemma_mix_is_injective(a: u64, b: u64)
    requires
        a != b,
    ensures
        mixed(a) != mixed(b),
{
    lemma_unmix_inverts_mix(a);
    lemma_unmix_inverts_mix(b);
}

/// Different words unmix to different words.
pub proof fn lemma_unmix_is_injective(a: u64, b: u64)
    requires
        a != b,
    ensures
        unmixed(a) != unmixed(b),
{
    lemma_mix_inverts_unmix(a);
    lemma_mix_inverts_unmix(b);
}

/// Zero mixes to zero, and no other word does.
pub proof fn lemma_mix_keeps_zero_apart(x: u64)
    ensures
        mixed(0) == 0,
        x != 0 ==> mixed(x) != 0,
        unmixed(0) == 0,
        x != 0 ==> unmixed(x) != 0,
{
    assert(mixed(0) == 0);
    assert(unmixed(0) == 0);
    if x != 0 {
        lemma_mix_is_injective(x, 0);
        lemma_unmix_is_injective(x, 0);
    }
}

/// Turns a sequence number into the identifier value that stands for it.
pub fn mix(seq: u64) -> (id: u64)
    ensures
        id == mixed(seq),
        unmixed(id) == seq,
        id == 0 <==> seq == 0,
{
    proof {
        lemma_unmix_inverts_mix(seq);
        lemma_mix_keeps_zero_apart(seq);
    }
    seq.wrapping_mul(SEQ2ID)
}

/// Recovers the sequence number that an identifier value stands for.
pub fn unmix(id: u64) -> (seq: u64)
    ensures
        seq == unmixed(id),
        mixed(seq) == id,
        seq == 0 <==> id == 0,
{
    proof {
        lemma_mix_inverts_unmix(id);
        lemma_mix_keeps_zero_apart(id);
    }
    id.wrapping_mul(ID2SEQ)
}

} // verus!
