//! Reading the randomness producer's output. Every payout rule consumes the
//! low 16 bytes of the 64-byte random value as one little-endian integer.

use vstd::prelude::*;

use vstd::arithmetic::power::{lemma_pow_increases, pow};

verus! {

/// The unsigned integer a byte sequence encodes little-endian.
pub open spec fn le_bytes_to_nat(s: Seq<u8>) -> nat
    decreases s.len(),
{
    if s.len() == 0 {
        0
    } else {
        s[0] as nat + 256 * le_bytes_to_nat(s.drop_first())
    }
}

/// A little-endian value is bounded by 256 to the number of its bytes.
pub proof fn lemma_le_bytes_to_nat_bound(s: Seq<u8>)
    ensures
        le_bytes_to_nat(s) < pow(256, s.len()),
    decreases s.len(),
{
    reveal(pow);
    if s.len() == 0 {
    } else {
        lemma_le_bytes_to_nat_bound(s.drop_first());
    }
}

/// 16 little-endian bytes fill the whole 128-bit range and nothing more.
proof fn lemma_pow_256_16()
    ensures
        pow(256, 16) == 0x100000000000000000000000000000000,
{
    vstd::arithmetic::power2::lemma2_to64();
    vstd::arithmetic::power2::lemma_pow2_adds(64, 64);
    vstd::arithmetic::power2::lemma_pow2(8);
    vstd::arithmetic::power2::lemma_pow2(128);
    vstd::arithmetic::power::lemma_pow_multiplies(2, 8, 16);
}

/// The random number a fulfilled bet's 64-byte random value yields: its low
/// 16 bytes as one little-endian integer.
pub open spec fn rand_value_of(beta: Seq<u8>) -> nat {
    le_bytes_to_nat(beta.take(16))
}

/// Reads the low 16 bytes of the random value as a little-endian integer.
pub fn rand_number_from_beta(beta: &[u8; 64]) -> (r: u128)
    ensures
        r == rand_value_of(beta@),
{
    let mut acc: u128 = 0;
    let mut i: usize = 16;
    while i > 0
        invariant
            i <= 16,
            acc == le_bytes_to_nat(beta@.subrange(i as int, 16)),
        decreases i,
    {
        i = i - 1;
        proof {
            let tail = beta@.subrange(i + 1, 16);
            lemma_le_bytes_to_nat_bound(tail);
            lemma_pow_increases(256, tail.len(), 15);
            vstd::arithmetic::power::lemma_pow1(256);
            vstd::arithmetic::power::lemma_pow_adds(256, 1, 15);
            lemma_pow_256_16();
            assert(beta@.subrange(i as int, 16).drop_first() =~= tail);
        }
        acc = acc * 256 + (beta[i] as u128);
    }
    proof {
        assert(beta@.subrange(0, 16) =~= beta@.take(16));
    }
    acc
}

} // verus!
