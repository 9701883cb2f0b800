//! Homomorphic evaluation of the AES-128 block cipher in CTR mode.
//!
//! Two engines compute the cipher over encrypted bytes: an arithmetic one
//! over word-level ciphertexts with an oblivious table lookup for the
//! substitution step, and a boolean one over bit-sliced ciphertexts with an
//! explicit logic-gate circuit for it. Both are verified against the single
//! mathematical model in [`model`], so their agreement with each other and
//! with the cleartext cipher is proved, not sampled.
use vstd::prelude::*;

pub mod arith_ct;
pub mod bool_ct;
pub mod circuit;
pub mod fhaes;
pub mod fhaes_boolean;
pub mod laws;
pub mod reference;
pub mod model;
pub mod sbox;
pub mod utils;

verus! {

/// Sum of two machine-word counts.
pub fn add(left: usize, right: usize) -> (r: usize)
    requires
        left + right <= usize::MAX,
    ensures
        r == left + right,
{
    left + right
}

} // verus!
