//! The two key-wrapper hash strategies over a 128-bit payload.
//!
//! Both wrappers carry one 128-bit payload, compare by structural equality of
//! the payload, and hash it to the XOR of its two 64-bit halves. They differ
//! only in which hash-table integration point they are meant for: `U128Wrap`
//! for a table that skips re-mixing of already-well-distributed integer keys,
//! `U128Wrap2` for a general-purpose table driven by the single-word
//! accumulator `U128Wrap2Hash`.

use vstd::prelude::*;

verus! {

/// The XOR of the two 64-bit halves of a 128-bit value.
pub open spec fn xor_fold_spec(x: u128) -> u64 {
    ((x >> 64) as u64) ^ (x as u64)
}

/// Folds a 128-bit value to 64 bits: high half XOR low half.
pub fn xor_fold(x: u128) -> (r: u64)
    ensures
        r == xor_fold_spec(x),
{
    proof {
        assert((x >> 64) <= 0xffff_ffff_ffff_ffff) by (bit_vector);
    }
    let hi: u64 = (x >> 64) as u64;
    let lo: u64 = #[verifier::truncate] (x as u64);
    hi ^ lo
}

/// A 128-bit key for a table that trusts the key's own hash distribution.
#[derive(PartialEq, Eq, Structural, Clone, Copy)]
pub struct U128Wrap(pub u128);

impl U128Wrap {
    /// The 64-bit hash this wrapper feeds to its table: the XOR fold.
    pub fn hash_value(&self) -> (r: u64)
        ensures
            r == xor_fold_spec(self.0),
    {
        xor_fold(self.0)
    }
}

impl From<u128> for U128Wrap {
    fn from(value: u128) -> (r: U128Wrap) {
        U128Wrap(value)
    }
}

impl vstd::std_specs::convert::FromSpecImpl<u128> for U128Wrap {
    open spec fn obeys_from_spec() -> bool {
        true
    }

    open spec fn from_spec(t: u128) -> U128Wrap {
        U128Wrap(t)
    }
}

impl From<U128Wrap> for u128 {
    fn from(value: U128Wrap) -> (r: u128) {
        value.0
    }
}

impl vstd::std_specs::convert::FromSpecImpl<U128Wrap> for u128 {
    open spec fn obeys_from_spec() -> bool {
        true
    }

    open spec fn from_spec(t: U128Wrap) -> u128 {
        t.0
    }
}

/// A 128-bit key for a general-purpose table paired with `U128Wrap2Hash`.
#[derive(PartialEq, Eq, Structural, Clone, Copy)]
pub struct U128Wrap2(pub u128);

impl U128Wrap2 {
    /// The 64-bit hash this wrapper writes into its accumulator: the XOR fold.
    pub fn hash_value(&self) -> (r: u64)
        ensures
            r == xor_fold_spec(self.0),
    {
        xor_fold(self.0)
    }
}

impl From<u128> for U128Wrap2 {
    fn from(value: u128) -> (r: U128Wrap2) {
        U128Wrap2(value)
    }
}

impl vstd::std_specs::convert::FromSpecImpl<u128> for U128Wrap2 {
    open spec fn obeys_from_spec() -> bool {
        true
    }

    open spec fn from_spec(t: u128) -> U128Wrap2 {
        U128Wrap2(t)
    }
}

impl From<U128Wrap2> for u128 {
    fn from(value: U128Wrap2) -> (r: u128) {
        value.0
    }
}

impl vstd::std_specs::convert::FromSpecImpl<U128Wrap2> for u128 {
    open spec fn obeys_from_spec() -> bool {
        true
    }

    open spec fn from_spec(t: U128Wrap2) -> u128 {
        t.0
    }
}

/// The single-word hash accumulator behind `U128Wrap2`.
///
/// It keeps the last 64-bit word written and reports it unmixed. It is valid
/// only for keys hashed as a single 64-bit word; it has no byte-sequence
/// entry point here, because that use is a fatal misuse by design.
pub struct U128Wrap2Hash(pub u64);

impl Default for U128Wrap2Hash {
    /// A fresh accumulator holds zero.
    fn default() -> (r: U128Wrap2Hash)
        ensures
            r.0 == 0,
    {
        U128Wrap2Hash(0)
    }
}

impl U128Wrap2Hash {
    /// Records the word as the whole hash state.
    pub fn write_u64(&mut self, u: u64)
        ensures
            final(self).0 == u,
    {
        self.0 = u;
    }

    /// Reports the last word written, with no further mixing.
    pub fn finish(&self) -> (r: u64)
        ensures
            r == self.0,
    {
        self.0
    }
}

/// The two wrapper strategies agree: on one payload both hash to the same
/// XOR fold, and the wrappers are equal exactly when the other strategy's
/// wrappers over the same payloads are.
pub proof fn lemma_wrapper_strategies_agree(x: u128, y: u128)
    ensures
        xor_fold_spec(U128Wrap(x).0) == xor_fold_spec(U128Wrap2(x).0),
        (U128Wrap(x) == U128Wrap(y)) <==> (U128Wrap2(x) == U128Wrap2(y)),
        (U128Wrap(x) == U128Wrap(y)) <==> x == y,
{
}

/// Payloads that differ in only one half fold to different hashes: an XOR
/// cancellation needs both halves to change.
pub proof fn lemma_lone_half_change_changes_fold(x: u128, y: u128)
    requires
        x != y,
        (x >> 64) == (y >> 64) || (x as u64) == (y as u64),
    ensures
        xor_fold_spec(x) != xor_fold_spec(y),
{
    assert(x != y && ((x >> 64) == (y >> 64) || (x as u64) == (y as u64))
        ==> ((x >> 64) as u64) ^ (x as u64) != ((y >> 64) as u64) ^ (y as u64)) by (bit_vector);
}

} // verus!
