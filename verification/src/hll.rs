//! The HyperLogLog estimator: a register array indexed by the top bits of a
//! 32-bit hash, where each register keeps the maximum rank seen for its bucket.

use crate::helpers;
use crate::helpers::{lemma_top_bits_bound, spec_bottom_bits, spec_top_bits};
use crate::HllError;
use vstd::arithmetic::div_mod::{lemma_basic_div, lemma_mod_bound};
use vstd::arithmetic::power2::{lemma_pow2_pos, lemma_pow2_strictly_increases, pow2};
use vstd::bits::lemma_u32_shr_is_div;
use vstd::prelude::*;
use vstd::std_specs::bits::{axiom_u32_trailing_zeros, u32_trailing_zeros};

verus! {

/// The register an incoming hash lands in: the top `index_bits` bits of the
/// hash, read as an index into the register array.
pub open spec fn spec_register_index(hash: u32, index_bits: u8) -> int
    recommends
        4 <= index_bits <= 16,
{
    spec_top_bits(hash, index_bits as u32) as int
}

/// The rank an incoming hash contributes: one more than the number of trailing
/// zero bits of the hash's bottom `32 - index_bits` bits. When those bits are
/// all zero the rank is defined as `32 - index_bits + 1`, the largest value a
/// zero-run measurement over that many bits can take.
pub open spec fn spec_rank(hash: u32, index_bits: u8) -> u8
    recommends
        4 <= index_bits <= 16,
{
    let remainder = spec_bottom_bits(hash, (32 - index_bits) as u32);
    if remainder == 0 {
        (33 - index_bits) as u8
    } else {
        (u32_trailing_zeros(remainder) + 1) as u8
    }
}

/// A nonzero value below `2^k` has fewer than `k` trailing zero bits.
proof fn lemma_trailing_zeros_below(x: u32, k: nat)
    requires
        x != 0,
        k <= 32,
        x < pow2(k),
    ensures
        u32_trailing_zeros(x) < k,
{
    axiom_u32_trailing_zeros(x);
    let tz = u32_trailing_zeros(x);
    if tz >= k {
        if k < tz {
            lemma_pow2_strictly_increases(k, tz as nat);
        }
        lemma_u32_shr_is_div(x, tz);
        lemma_basic_div(x as int, pow2(tz as nat) as int);
        assert((x >> tz) & 1u32 == 1u32);
        assert(0u32 & 1u32 == 0u32) by (bit_vector);
    }
}

/// A rank is always between 1 and the largest zero-run measurement the
/// non-index bits allow, `32 - index_bits + 1`.
pub proof fn lemma_rank_bound(hash: u32, index_bits: u8)
    requires
        4 <= index_bits <= 16,
    ensures
        1 <= spec_rank(hash, index_bits) <= 33 - index_bits,
{
    let n = ((32 - index_bits) as u32) as nat;
    lemma_pow2_pos(n);
    vstd::bits::lemma_u32_pow2_no_overflow(n);
    lemma_mod_bound(hash as int, pow2(n) as int);
    let remainder = spec_bottom_bits(hash, (32 - index_bits) as u32);
    if remainder != 0 {
        lemma_trailing_zeros_below(remainder, n);
        axiom_u32_trailing_zeros(remainder);
    }
}

/// The register state after one hash is added: the register the hash lands in
/// is raised to the hash's rank if that rank is larger, and every other
/// register is left as it is.
pub open spec fn spec_add_hash(s: Seq<u8>, index_bits: u8, hash: u32) -> Seq<u8>
    recommends
        4 <= index_bits <= 16,
        s.len() == pow2(index_bits as nat),
{
    let i = spec_register_index(hash, index_bits);
    let rank = spec_rank(hash, index_bits);
    if s[i] < rank {
        s.update(i, rank)
    } else {
        s
    }
}

/// The register state after a whole sequence of hashes is added, one at a time.
pub open spec fn spec_add_hashes(s: Seq<u8>, index_bits: u8, hashes: Seq<u32>) -> Seq<u8>
    recommends
        4 <= index_bits <= 16,
        s.len() == pow2(index_bits as nat),
    decreases hashes.len(),
{
    if hashes.len() == 0 {
        s
    } else {
        spec_add_hashes(spec_add_hash(s, index_bits, hashes[0]), index_bits, hashes.skip(1))
    }
}

#[derive(Debug)]
pub struct HyperLogLog {
    pub register: Vec<u8>,
    pub index_bits: u8,
}

impl HyperLogLog {
    /// A well-formed estimator: a supported index width, exactly
    /// `2^index_bits` registers, and every register holding a rank the
    /// non-index bits could actually have produced.
    pub open spec fn wf(&self) -> bool {
        &&& 4 <= self.index_bits <= 16
        &&& self.register@.len() == pow2(self.index_bits as nat)
        &&& forall|i: int|
            0 <= i < self.register@.len() ==> self.register@[i] <= 33 - self.index_bits
    }

    /// Create a new HyperLogLog(HLL) set with first `index_bits` used as
    /// register indexes. Index widths outside `4..=16` are rejected with
    /// `InvalidPrecision` carrying the rejected value; on success every
    /// register starts at zero.
    pub fn new(index_bits: u8) -> (r: Result<HyperLogLog, HllError>)
        ensures
            4 <= index_bits <= 16 ==> (r matches Ok(h) && h.wf() && h.index_bits == index_bits
                && h.register@ == Seq::new(pow2(index_bits as nat), |i: int| 0u8)),
            !(4 <= index_bits <= 16) ==> r == Err::<HyperLogLog, HllError>(
                HllError::InvalidPrecision(index_bits),
            ),
    {
        if index_bits < 4 || index_bits > 16 {
            return Err(HllError::InvalidPrecision(index_bits));
        }
        let m: usize = match helpers::registers_from_bits(&index_bits) {
            Ok(m) => m,
            Err(e) => {
                return Err(e);
            },
        };
        let mut register: Vec<u8> = Vec::new();
        let mut i: usize = 0;
        while i < m
            invariant
                i <= m,
                register@.len() == i,
                forall|j: int| 0 <= j < i ==> register@[j] == 0u8,
            decreases m - i,
        {
            register.push(0u8);
            i = i + 1;
        }
        proof {
            assert(register@ =~= Seq::new(pow2(index_bits as nat), |i: int| 0u8));
        }
        Ok(HyperLogLog { register, index_bits })
    }

    /// The number of registers, `2^index_bits`.
    pub fn register_count(&self) -> (m: usize)
        requires
            self.wf(),
        ensures
            m == pow2(self.index_bits as nat),
    {
        self.register.len()
    }

    /// Add one already-hashed element: raise the register the hash lands in to
    /// the hash's rank, if that rank is larger.
    pub fn add_hash(&mut self, hash: u32)
        requires
            old(self).wf(),
        ensures
            final(self).wf(),
            final(self).index_bits == old(self).index_bits,
            final(self).register@ == spec_add_hash(
                old(self).register@,
                old(self).index_bits,
                hash,
            ),
    {
        let index_bits_u32: u32 = self.index_bits as u32;
        let register_index_u32: u32 = helpers::n_be_bits(&hash, &index_bits_u32);
        proof {
            lemma_top_bits_bound(hash, index_bits_u32);
        }
        let register_index: usize = register_index_u32 as usize;
        // Count trailing zeros in remaining bits
        let non_index: u32 = helpers::n_le_bits(&hash, &(32 - index_bits_u32));
        proof {
            axiom_u32_trailing_zeros(non_index);
            lemma_rank_bound(hash, self.index_bits);
        }
        let zeros: u8 = if non_index == 0 {
            33 - self.index_bits
        } else {
            (non_index.trailing_zeros() as u8) + 1
        };
        if zeros > self.register[register_index] {
            self.register.set(register_index, zeros);
        }
    }

    /// Add a new hashable element to the set.
    ///
    /// The element's 32-bit hash picks one register and may raise it to the
    /// hash's rank; no register is ever lowered, and the index width and
    /// register count never change.
    pub fn add<T: std::hash::Hash>(&mut self, value: &T)
        requires
            old(self).wf(),
        ensures
            final(self).wf(),
            final(self).index_bits == old(self).index_bits,
            exists|h: u32|
                final(self).register@ == spec_add_hash(
                    old(self).register@,
                    old(self).index_bits,
                    h,
                ),
            final(self).register@.len() == old(self).register@.len(),
            forall|i: int|
                0 <= i < old(self).register@.len() ==> old(self).register@[i]
                    <= final(self).register@[i],
    {
        let hash: u32 = helpers::hash_value_32(value);
        proof {
            lemma_add_hash_monotonic(self.register@, self.index_bits, hash);
        }
        self.add_hash(hash);
    }
}

/// Every register is left untouched or raised by an add, and the register
/// count never changes: registers are monotone in time.
pub proof fn lemma_add_hash_monotonic(s: Seq<u8>, index_bits: u8, hash: u32)
    requires
        4 <= index_bits <= 16,
        s.len() == pow2(index_bits as nat),
    ensures
        spec_add_hash(s, index_bits, hash).len() == s.len(),
        forall|i: int| 0 <= i < s.len() ==> s[i] <= spec_add_hash(s, index_bits, hash)[i],
{
    lemma_top_bits_bound(hash, index_bits as u32);
}

/// Adding the same hash twice leaves exactly the register state that adding it
/// once leaves: an add is idempotent.
pub proof fn lemma_add_hash_idempotent(s: Seq<u8>, index_bits: u8, hash: u32)
    requires
        4 <= index_bits <= 16,
        s.len() == pow2(index_bits as nat),
    ensures
        spec_add_hash(spec_add_hash(s, index_bits, hash), index_bits, hash) == spec_add_hash(
            s,
            index_bits,
            hash,
        ),
{
    lemma_top_bits_bound(hash, index_bits as u32);
}

/// Registers are monotone over any sequence of adds: after any further stream
/// of hashes, every register is at least what it was before.
pub proof fn lemma_add_hashes_monotonic(s: Seq<u8>, index_bits: u8, hashes: Seq<u32>)
    requires
        4 <= index_bits <= 16,
        s.len() == pow2(index_bits as nat),
    ensures
        spec_add_hashes(s, index_bits, hashes).len() == s.len(),
        forall|i: int| 0 <= i < s.len() ==> s[i] <= spec_add_hashes(s, index_bits, hashes)[i],
    decreases hashes.len(),
{
    if hashes.len() > 0 {
        lemma_add_hash_monotonic(s, index_bits, hashes[0]);
        let s1 = spec_add_hash(s, index_bits, hashes[0]);
        lemma_add_hashes_monotonic(s1, index_bits, hashes.skip(1));
    }
}

impl Default for HyperLogLog {
    /// Creates a HyperLogLog with 4 bits as `index_bits`.
    fn default() -> (r: Self)
        ensures
            r.wf(),
            r.index_bits == 4,
            r.register@ == Seq::new(pow2(4), |i: int| 0u8),
    {
        match Self::new(4) {
            Ok(h) => h,
            Err(_) => HyperLogLog { register: Vec::new(), index_bits: 4 },
        }
    }
}

} // verus!
