//! Pure bit-extraction helpers used by the estimator, plus the hash wrapper.

use vstd::arithmetic::div_mod::{lemma_basic_div, lemma_div_nonincreasing, lemma_multiply_divide_lt};
use vstd::arithmetic::power2::{lemma2_to64, lemma_pow2_adds, lemma_pow2_pos, pow2};
use vstd::prelude::*;

verus! {

/// The `n` most-significant bits of `v`, as an integer in `[0, 2^n)`.
pub open spec fn spec_top_bits(v: u32, n: u32) -> u32
    recommends
        n <= 32,
{
    (v as nat / pow2((32 - n) as nat)) as u32
}

/// The `n` least-significant bits of `v`, i.e. `v` modulo `2^n`.
pub open spec fn spec_bottom_bits(v: u32, n: u32) -> u32
    recommends
        n <= 32,
{
    (v as nat % pow2(n as nat)) as u32
}

/// The top `n` bits of a 32-bit value are its quotient by `2^(32-n)`, which
/// always fits below `2^n`.
pub proof fn lemma_top_bits_bound(v: u32, n: u32)
    requires
        n <= 32,
    ensures
        spec_top_bits(v, n) == v as nat / pow2((32 - n) as nat),
        spec_top_bits(v, n) < pow2(n as nat),
{
    let s = (32 - n) as nat;
    lemma_pow2_pos(s);
    lemma_pow2_pos(n as nat);
    lemma_pow2_adds(s, n as nat);
    lemma2_to64();
    assert(pow2(32) == 0x100000000);
    assert((v as int) < (pow2(s) as int) * (pow2(n as nat) as int));
    lemma_multiply_divide_lt(v as int, pow2(s) as int, pow2(n as nat) as int);
    lemma_div_nonincreasing(v as int, pow2(s) as int);
}

/// Return `n` big endian (most significant) bits of a `value`.
pub fn n_be_bits(value: &u32, n: &u32) -> (r: u32)
    requires
        *n <= 32,
    ensures
        r == spec_top_bits(*value, *n),
        r < pow2(*n as nat),
{
    proof {
        lemma_top_bits_bound(*value, *n);
    }
    if *n == 0 {
        proof {
            lemma2_to64();
            lemma_basic_div(*value as int, pow2(32) as int);
        }
        0
    } else {
        let shift_amount: u32 = 32 - *n;
        proof {
            vstd::bits::lemma_u32_shr_is_div(*value, shift_amount);
        }
        *value >> shift_amount
    }
}

/// Return `n` least endian bits of a `value`.
pub fn n_le_bits(value: &u32, n: &u32) -> (r: u32)
    requires
        *n <= 32,
    ensures
        r == spec_bottom_bits(*value, *n),
        r < pow2(*n as nat),
{
    if *n == 32 {
        proof {
            lemma2_to64();
            assert(*value as nat % pow2(32) == *value as nat) by {
                vstd::arithmetic::div_mod::lemma_small_mod(*value as nat, pow2(32));
            }
        }
        *value
    } else {
        proof {
            vstd::bits::lemma_u32_pow2_no_overflow(*n as nat);
            vstd::bits::lemma_u32_shl_is_mul(1u32, *n);
            vstd::bits::lemma_u32_low_bits_mask_is_mod(*value, *n as nat);
            lemma_pow2_pos(*n as nat);
            vstd::arithmetic::div_mod::lemma_mod_bound(*value as int, pow2(*n as nat) as int);
        }
        let bitmask: u32 = (1u32 << *n) - 1;
        *value & bitmask
    }
}

/// Return a 32 bit hash of a `value`.
///
/// Relies on hash32's `Murmur3Hasher`: the value hashes itself into the
/// default-seeded hasher through its `std::hash::Hash` implementation, and
/// `finish32` returns the 32-bit MurmurHash3 digest of those bytes.
#[verifier::external_body]
pub fn hash_value_32<T: std::hash::Hash>(value: &T) -> u32 {
    let mut hasher = hash32::Murmur3Hasher::default();
    value.hash(&mut hasher);
    hash32::Hasher::finish32(&hasher)
}

/// Calculate number of registers based on `index_bits`.
///
/// The count is `2^index_bits`; index widths at or above the platform's
/// `usize` width cannot be represented and are reported as an overflow.
pub fn registers_from_bits(index_bits: &u8) -> (r: Result<usize, crate::HllError>)
    ensures
        (*index_bits as u32) < usize::BITS ==> (r matches Ok(m) && m == pow2(
            *index_bits as nat,
        )),
        (*index_bits as u32) >= usize::BITS ==> r == Err::<usize, crate::HllError>(
            crate::HllError::Overflow,
        ),
{
    if (*index_bits as u32) < usize::BITS {
        proof {
            vstd::bits::lemma_usize_pow2_no_overflow(*index_bits as nat);
            vstd::bits::lemma_usize_shl_is_mul(1usize, *index_bits as usize);
        }
        Ok(1usize << (*index_bits as usize))
    } else {
        Err(crate::HllError::Overflow)
    }
}

} // verus!
