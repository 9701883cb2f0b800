//! The all-cleartext reference path: the block cipher by way of the `aes`
//! crate, and CTR mode around it, against the same model as the engines.
use vstd::prelude::*;

verus! {

use crate::fhaes::blocks16_view;
use crate::model::aes_block_spec;
use crate::model::ctr_encrypt_spec;
use crate::model::ctr_iv;
use crate::model::key_expansion_spec;
use crate::model::xor_block_spec;

/// Relies on `aes::Aes128::encrypt_block`: the AES-128 block encryption of
/// FIPS 197, which `aes_block_spec` over the expanded key states byte for
/// byte.
#[verifier::external_body]
pub fn cleartext_aes(key: [u8; 16], input: [u8; 16]) -> (r: [u8; 16])
    ensures
        r@ == aes_block_spec(key_expansion_spec(key@), input@),
{
    let key_arr = aes::cipher::Array::from(key);
    let mut block_arr = aes::cipher::Array::from(input);
    let cipher = <aes::Aes128 as aes::cipher::KeyInit>::new(&key_arr);
    <aes::Aes128 as aes::cipher::BlockCipherEncrypt>::encrypt_block(&cipher, &mut block_arr);
    block_arr.0
}

/// Cleartext CTR mode over the reference cipher: every block, block 0
/// included, is encrypted under the IV stamped with that block's two
/// counter nibbles at byte offsets 15 and 14; the counter wraps silently
/// after 256 blocks.
pub fn cleartext_ctr(key: [u8; 16], blocks: Vec<[u8; 16]>, iv: [u8; 16]) -> (r: Vec<[u8; 16]>)
    ensures
        r@.len() == blocks@.len(),
        blocks16_view(r@) == ctr_encrypt_spec(
            key_expansion_spec(key@),
            iv@,
            blocks16_view(blocks@),
        ),
{
    let ghost iv0 = iv@;
    let mut iv = iv;
    let num_blocks = blocks.len();
    let mut results: Vec<[u8; 16]> = Vec::new();
    let mut i: usize = 0;
    while i < num_blocks
        invariant
            i <= num_blocks,
            num_blocks == blocks@.len(),
            iv0.len() == 16,
            forall|m: int| 0 <= m < 14 ==> iv@[m] == iv0[m],
            results@.len() == i,
            forall|m: int| 0 <= m < i ==> (#[trigger] results@[m])@ == xor_block_spec(
                blocks@[m]@,
                aes_block_spec(key_expansion_spec(key@), ctr_iv(iv0, m)),
            ),
        decreases num_blocks - i,
    {
        let cnt = (i % 256) as u8;
        iv[15] = cnt & 0xf;
        iv[14] = (cnt >> 4u8) & 0xf;
        proof {
            assert((((i % 256) as u8) & 0xf) == (((i % 16) as u8)) && ((((i
                % 256) as u8) >> 4u8) & 0xf) == ((((i / 16) % 16) as u8))) by (bit_vector);
            assert(iv@ =~= ctr_iv(iv0, i as int));
        }
        let c_n = cleartext_aes(key, iv);
        let mut r_n = [0u8; 16];
        let mut j: usize = 0;
        while j < 16
            invariant
                j <= 16,
                i < blocks@.len(),
                c_n@.len() == 16,
                forall|m: int| 0 <= m < j ==> r_n@[m] == (blocks@[i as int]@[m] ^ c_n@[m]),
            decreases 16 - j,
        {
            r_n[j] = blocks[i][j] ^ c_n[j];
            j = j + 1;
        }
        proof {
            assert(r_n@ =~= xor_block_spec(blocks@[i as int]@, c_n@));
        }
        results.push(r_n);
        i = i + 1;
    }
    proof {
        assert(blocks16_view(results@) =~= ctr_encrypt_spec(
            key_expansion_spec(key@),
            iv0,
            blocks16_view(blocks@),
        ));
    }
    results
}

} // verus!
