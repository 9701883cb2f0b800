//! Laws of the construction, stated once over the model that every engine
//! is verified against: the MixColumns standard form, the agreement of
//! parallel and sequential CTR evaluation, the counter stamping, and the
//! counter's 256-block capacity.
use vstd::prelude::*;

verus! {

use vstd::arithmetic::div_mod::lemma_hoist_over_denominator;
use vstd::arithmetic::div_mod::lemma_mod_multiples_vanish;

use crate::model::ctr_encrypt_spec;
use crate::model::ctr_iv;
use crate::model::ctr_keystream;
use crate::model::mix_byte;
use crate::model::xor_block_spec;
use crate::model::xtime;

/// MixColumns exactness against the standard GF(2^8) reference transform:
/// each output byte of the column is `2•b_r ⊕ 3•b_(r+1) ⊕ b_(r+2) ⊕
/// b_(r+3)`, with `2•x = xtime(x)` and `3•x = xtime(x) ⊕ x`.
pub proof fn lemma_mix_byte_standard_form(s: Seq<u8>, j: int)
    requires
        s.len() == 16,
        0 <= j < 16,
    ensures
        mix_byte(s, j) == ((xtime(s[4 * (j / 4) + j % 4]) ^ (xtime(
            s[4 * (j / 4) + (j % 4 + 1) % 4],
        ) ^ s[4 * (j / 4) + (j % 4 + 1) % 4])) ^ s[4 * (j / 4) + (j % 4 + 2) % 4]) ^ s[4 * (j / 4)
            + (j % 4 + 3) % 4],
{
    let a = xtime(s[4 * (j / 4) + j % 4]);
    let b = s[4 * (j / 4) + (j % 4 + 3) % 4];
    let c = s[4 * (j / 4) + (j % 4 + 2) % 4];
    let d = xtime(s[4 * (j / 4) + (j % 4 + 1) % 4]);
    let e = s[4 * (j / 4) + (j % 4 + 1) % 4];
    assert((((a ^ b) ^ c) ^ d) ^ e == ((a ^ (d ^ e)) ^ c) ^ b) by (bit_vector);
}

/// CTR mode evaluated strictly in block order: each step appends the next
/// block's result to the previous ones.
pub open spec fn ctr_encrypt_seq_spec(ks: Seq<u8>, iv: Seq<u8>, blocks: Seq<Seq<u8>>) -> Seq<
    Seq<u8>,
>
    decreases blocks.len(),
{
    if blocks.len() == 0 {
        Seq::empty()
    } else {
        ctr_encrypt_seq_spec(ks, iv, blocks.drop_last()).push(
            xor_block_spec(blocks.last(), ctr_keystream(ks, iv, blocks.len() - 1)),
        )
    }
}

/// Parallel/sequential equivalence: the per-index fan-out of CTR mode and
/// the strictly sequential evaluation produce the same result for every
/// block index. Both engines' batch drivers are specified against
/// `ctr_encrypt_spec`, so this ties them to the sequential order as well.
pub proof fn lemma_ctr_parallel_matches_sequential(ks: Seq<u8>, iv: Seq<u8>, blocks: Seq<Seq<u8>>)
    ensures
        ctr_encrypt_spec(ks, iv, blocks) == ctr_encrypt_seq_spec(ks, iv, blocks),
    decreases blocks.len(),
{
    if blocks.len() == 0 {
        assert(ctr_encrypt_spec(ks, iv, blocks) =~= ctr_encrypt_seq_spec(ks, iv, blocks));
    } else {
        lemma_ctr_parallel_matches_sequential(ks, iv, blocks.drop_last());
        assert(ctr_encrypt_spec(ks, iv, blocks) =~= ctr_encrypt_seq_spec(
            ks,
            iv,
            blocks.drop_last(),
        ).push(xor_block_spec(blocks.last(), ctr_keystream(ks, iv, blocks.len() - 1))));
    }
}

/// Counter material that carries the two nibbles of the block index stamps
/// the IV exactly as the per-index CTR specification does.
pub proof fn lemma_counter_material_stamps_ctr_iv(iv: Seq<u8>, c1: u8, c2: u8, i: int)
    requires
        c1 == (i % 16) as u8,
        c2 == ((i / 16) % 16) as u8,
    ensures
        iv.update(15, c1).update(14, c2) == ctr_iv(iv, i),
{
}

/// Counter capacity boundary: block indices 256 apart derive the same
/// modified IV, hence the same keystream block — the two-nibble counter at
/// byte offsets 15 and 14 wraps after 256 blocks by construction.
pub proof fn lemma_counter_wraps_after_256(ks: Seq<u8>, iv: Seq<u8>, i: int)
    requires
        0 <= i,
    ensures
        ctr_iv(iv, i + 256) == ctr_iv(iv, i),
        ctr_keystream(ks, iv, i + 256) == ctr_keystream(ks, iv, i),
{
    lemma_mod_multiples_vanish(16, i, 16);
    assert((i + 256) % 16 == i % 16);
    lemma_hoist_over_denominator(i, 16, 16);
    assert((i + 256) / 16 == i / 16 + 16);
    lemma_mod_multiples_vanish(1, i / 16, 16);
    assert(((i + 256) / 16) % 16 == (i / 16) % 16);
}

} // verus!
