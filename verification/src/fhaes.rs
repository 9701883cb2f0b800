//! The word-level arithmetic cipher engine: each byte of state is one
//! eight-bit homomorphic integer, the substitution step is an oblivious
//! lookup against the fixed table, and the other transforms are homomorphic
//! XORs, shifts and a multiply-by-bit.
//!
//! The engine also carries the cleartext cipher over the same ten-round
//! driver, verified against the same model, which is what ties the
//! homomorphic results to the reference cipher.
use vstd::prelude::*;

verus! {

use vstd::pervasive::unreached;

use crate::arith_ct::FheByte;
use crate::arith_ct::bytes_plain;
use crate::arith_ct::bytes_trivial;
use crate::arith_ct::fhe_dup;
use crate::arith_ct::fhe_match;
use crate::arith_ct::fhe_scalar_mul;
use crate::arith_ct::fhe_shl;
use crate::arith_ct::fhe_shr;
use crate::arith_ct::fhe_trivial;
use crate::arith_ct::fhe_xor;
use crate::arith_ct::lookup_entry;
use crate::arith_ct::match_entries;
use crate::arith_ct::matcher_new;
use crate::arith_ct::unique_inputs;
use crate::model::add_round_key_spec;
use crate::model::aes_block_spec;
use crate::model::aes_round;
use crate::model::aes_rounds;
use crate::model::ctr_iv;
use crate::model::lemma_xor_zero;
use crate::model::mix_byte;
use crate::model::mix_columns_spec;
use crate::model::shift_rows_spec;
use crate::model::sub_bytes_spec;
use crate::model::xor_block_spec;
use crate::model::xtime;
use crate::sbox::sbox;
use crate::sbox::sbox_lookup;
use crate::utils::xor_blocks;

/// The canonical substitution pairs: entry `i` maps `i` to its substitute.
pub open spec fn sbox_entries() -> Seq<(u8, u8)> {
    Seq::new(256, |i: int| ((i as u8), sbox(i as u8)))
}

/// First-match lookup in a table whose earlier entries miss the key finds
/// entry `j`.
proof fn lemma_lookup_indexed(s: Seq<(u8, u8)>, k: u8, j: int)
    requires
        0 <= j < s.len(),
        s[j].0 == k,
        forall|i: int| 0 <= i < j ==> s[i].0 != k,
    ensures
        lookup_entry(s, k) == s[j].1,
    decreases j,
{
    if j == 0 {
    } else {
        lemma_lookup_indexed(s.drop_first(), k, j - 1);
    }
}

/// The canonical table has unique inputs and looks every byte up to its
/// substitute.
proof fn lemma_sbox_entries(k: u8)
    ensures
        unique_inputs(sbox_entries()),
        lookup_entry(sbox_entries(), k) == sbox(k),
{
    assert(unique_inputs(sbox_entries()));
    lemma_lookup_indexed(sbox_entries(), k, k as int);
}

/// The 16-byte views of a sequence of clear blocks.
pub open spec fn blocks16_view(s: Seq<[u8; 16]>) -> Seq<Seq<u8>> {
    Seq::new(s.len(), |i: int| s[i]@)
}

/// Every encrypted block of the batch holds sixteen bytes.
pub open spec fn fblocks_wf(bs: Seq<Vec<FheByte>>) -> bool {
    forall|i: int| 0 <= i < bs.len() ==> (#[trigger] bs[i])@.len() == 16
}

/// The plaintext blocks of an encrypted batch.
pub open spec fn fblocks_plain(bs: Seq<Vec<FheByte>>) -> Seq<Seq<u8>> {
    Seq::new(bs.len(), |i: int| bytes_plain(bs[i]@))
}

/// Whether every byte of every block is a trivial encryption.
pub open spec fn fblocks_trivial(bs: Seq<Vec<FheByte>>) -> bool {
    forall|i: int| 0 <= i < bs.len() ==> bytes_trivial((#[trigger] bs[i])@)
}

/// The arithmetic cipher engine: a cleartext round-key schedule for the
/// reference path, the encrypted schedule for the homomorphic path, and the
/// oblivious substitution table.
pub struct AES {
    aes_key: [u8; 176],
    aes_key_fhe: Vec<FheByte>,
    sbox_fhe: tfhe::MatchValues<u8>,
}

impl AES {
    /// A well-formed engine holds a 176-byte encrypted schedule and the
    /// canonical substitution table.
    pub closed spec fn wf(self) -> bool {
        &&& self.aes_key_fhe@.len() == 176
        &&& match_entries(self.sbox_fhe) == sbox_entries()
    }

    /// The cleartext round-key schedule.
    pub closed spec fn clear_key(self) -> Seq<u8> {
        self.aes_key@
    }

    /// The encrypted round-key schedule.
    pub closed spec fn fhe_key_seq(self) -> Seq<FheByte> {
        self.aes_key_fhe@
    }

    /// The plaintext of the encrypted round-key schedule.
    pub closed spec fn fhe_key_plain(self) -> Seq<u8> {
        bytes_plain(self.aes_key_fhe@)
    }

    /// Whether the whole encrypted schedule is trivial.
    pub closed spec fn fhe_key_trivial(self) -> bool {
        bytes_trivial(self.aes_key_fhe@)
    }

    /// The substitution pairs held by the oblivious table.
    pub closed spec fn table_entries(self) -> Seq<(u8, u8)> {
        match_entries(self.sbox_fhe)
    }

    /// Build an engine around an encrypted round-key schedule. The
    /// substitution table is built once here; its 256 inputs are distinct,
    /// so its construction cannot be refused. The cleartext schedule starts
    /// zeroed until `set_aes_key` supplies it.
    pub fn new(aes_key: Vec<FheByte>) -> (r: AES)
        requires
            aes_key@.len() == 176,
        ensures
            r.wf(),
            r.fhe_key_seq() == aes_key@,
            r.clear_key() == Seq::new(176, |i: int| 0u8),
    {
        let mut sbox_vec: Vec<(u8, u8)> = Vec::new();
        let mut i: usize = 0;
        while i < 256
            invariant
                i <= 256,
                sbox_vec@.len() == i,
                forall|j: int| 0 <= j < i ==> sbox_vec@[j] == (((j as u8), sbox(j as u8))),
            decreases 256 - i,
        {
            let x = i as u8;
            sbox_vec.push((x, sbox_lookup(x)));
            i = i + 1;
        }
        proof {
            assert(sbox_vec@ =~= sbox_entries());
            lemma_sbox_entries(0);
        }
        let matcher = match matcher_new(sbox_vec) {
            Ok(m) => m,
            Err(_) => unreached(),
        };
        let r = AES { aes_key: [0u8; 176], aes_key_fhe: aes_key, sbox_fhe: matcher };
        proof {
            assert(r.clear_key() =~= Seq::new(176, |j: int| 0u8));
        }
        r
    }

    /// Install the cleartext round-key schedule (the expanded key, not the
    /// 16-byte cipher key).
    pub fn set_aes_key(&mut self, aes_key: [u8; 176])
        ensures
            final(self).clear_key() == aes_key@,
            final(self).fhe_key_seq() == old(self).fhe_key_seq(),
            final(self).table_entries() == old(self).table_entries(),
            final(self).wf() == old(self).wf(),
    {
        self.aes_key = aes_key;
    }

    /// Install the encrypted round-key schedule (the expanded key, not the
    /// 16-byte cipher key).
    pub fn set_aes_key_fhe(&mut self, aes_key: Vec<FheByte>)
        requires
            aes_key@.len() == 176,
        ensures
            final(self).fhe_key_seq() == aes_key@,
            final(self).clear_key() == old(self).clear_key(),
            final(self).table_entries() == old(self).table_entries(),
            old(self).wf() ==> final(self).wf(),
    {
        self.aes_key_fhe = aes_key;
    }

    // ------------------------------------------------------------------
    // The cleartext reference path
    // ------------------------------------------------------------------

    /// Cleartext AddRoundKey against the installed schedule.
    pub fn add_round_key(&self, block: [u8; 16], round_no: usize) -> (r: [u8; 16])
        requires
            round_no <= 10,
        ensures
            r@ == add_round_key_spec(block@, self.clear_key(), round_no as int),
    {
        let mut result = [0u8; 16];
        let mut i: usize = 0;
        while i < 16
            invariant
                i <= 16,
                round_no <= 10,
                forall|j: int| 0 <= j < i ==> result@[j] == (block@[j] ^ self.clear_key()[16
                    * round_no + j]),
            decreases 16 - i,
        {
            let key_idx = round_no * 16 + i;
            result[i] = block[i] ^ self.aes_key[key_idx];
            i = i + 1;
        }
        assert(result@ =~= add_round_key_spec(block@, self.clear_key(), round_no as int));
        result
    }

    /// Cleartext SubBytes through the fixed table.
    pub fn sub_bytes(&self, block: [u8; 16]) -> (r: [u8; 16])
        ensures
            r@ == sub_bytes_spec(block@),
    {
        let mut result = [0u8; 16];
        let mut i: usize = 0;
        while i < 16
            invariant
                i <= 16,
                forall|j: int| 0 <= j < i ==> result@[j] == sbox(block@[j]),
            decreases 16 - i,
        {
            result[i] = sbox_lookup(block[i]);
            i = i + 1;
        }
        assert(result@ =~= sub_bytes_spec(block@));
        result
    }

    /// Cleartext ShiftRows: the pure row rotation.
    pub fn shift_rows(&self, block: [u8; 16]) -> (r: [u8; 16])
        ensures
            r@ == shift_rows_spec(block@),
    {
        let mut result = [0u8; 16];
        let mut j: usize = 0;
        while j < 16
            invariant
                j <= 16,
                forall|m: int| 0 <= m < j ==> result@[m] == block@[(m % 4) + 4 * ((m / 4 + m % 4)
                    % 4)],
            decreases 16 - j,
        {
            let row = j % 4;
            let col = j / 4;
            result[j] = block[row + 4 * ((col + row) % 4)];
            j = j + 1;
        }
        assert(result@ =~= shift_rows_spec(block@));
        result
    }

    /// Cleartext MixColumns through `xtime` and the MDS combination.
    pub fn mix_columns(&self, block: [u8; 16]) -> (r: [u8; 16])
        ensures
            r@ == mix_columns_spec(block@),
    {
        let mut result = [0u8; 16];
        let mut column: usize = 0;
        while column < 4
            invariant
                column <= 4,
                forall|m: int| 0 <= m < 4 * column ==> result@[m] == mix_byte(block@, m),
            decreases 4 - column,
        {
            let mut b = [0u8; 4];
            let mut k: usize = 0;
            while k < 4
                invariant
                    k <= 4,
                    column < 4,
                    forall|m: int| 0 <= m < k ==> b@[m] == xtime(block@[4 * column + m]),
                decreases 4 - k,
            {
                let x = block[4 * column + k];
                let h = x & 0x80;
                let mut d = x << 1u8;
                if h == 0x80 {
                    d = d ^ 0x1b;
                }
                b[k] = d;
                k = k + 1;
            }
            result[4 * column] = b[0] ^ block[3 + 4 * column] ^ block[2 + 4 * column] ^ b[1]
                ^ block[1 + 4 * column];
            result[1 + 4 * column] = b[1] ^ block[4 * column] ^ block[3 + 4 * column] ^ b[2]
                ^ block[2 + 4 * column];
            result[2 + 4 * column] = b[2] ^ block[1 + 4 * column] ^ block[4 * column] ^ b[3]
                ^ block[3 + 4 * column];
            result[3 + 4 * column] = b[3] ^ block[2 + 4 * column] ^ block[1 + 4 * column] ^ b[0]
                ^ block[4 * column];
            proof {
                let c = column as int;
                assert(result@[4 * c] == mix_byte(block@, 4 * c));
                assert(result@[4 * c + 1] == mix_byte(block@, 4 * c + 1));
                assert(result@[4 * c + 2] == mix_byte(block@, 4 * c + 2));
                assert(result@[4 * c + 3] == mix_byte(block@, 4 * c + 3));
            }
            column = column + 1;
        }
        assert(result@ =~= mix_columns_spec(block@));
        result
    }

    /// Cleartext encryption of one block: the fixed ten-round driver.
    pub fn encrypt_one_block(&self, block: [u8; 16]) -> (r: [u8; 16])
        ensures
            r@ == aes_block_spec(self.clear_key(), block@),
    {
        let mut state = self.add_round_key(block, 0);
        let ghost start = state@;
        let mut t: usize = 0;
        while t < 9
            invariant
                t <= 9,
                state@.len() == 16,
                state@ == aes_rounds(start, self.clear_key(), t as int),
            decreases 9 - t,
        {
            state = self.sub_bytes(state);
            state = self.shift_rows(state);
            state = self.mix_columns(state);
            state = self.add_round_key(state, t + 1);
            proof {
                assert(state@ == aes_round(
                    aes_rounds(start, self.clear_key(), t as int),
                    self.clear_key(),
                    t + 1,
                ));
            }
            t = t + 1;
        }
        state = self.sub_bytes(state);
        state = self.shift_rows(state);
        state = self.add_round_key(state, 10);
        state
    }

    /// Cleartext CTR mode: every block, block 0 included, is encrypted
    /// under the IV stamped with that block's two counter nibbles at byte
    /// offsets 15 and 14. Only 256 distinct counter values exist, so the
    /// counter wraps silently after 256 blocks, as in the homomorphic
    /// drivers.
    pub fn encrypt_ctr_mode(&self, blocks: Vec<[u8; 16]>, iv: [u8; 16]) -> (r: Vec<[u8; 16]>)
        ensures
            r@.len() == blocks@.len(),
            blocks16_view(r@) == crate::model::ctr_encrypt_spec(
                self.clear_key(),
                iv@,
                blocks16_view(blocks@),
            ),
    {
        let ghost iv0 = iv@;
        let mut iv = iv;
        let num_blocks = blocks.len();
        let mut results: Vec<[u8; 16]> = Vec::new();
        let mut i: usize = 0;
        while i < num_blocks
            invariant
                i <= num_blocks,
                num_blocks == blocks@.len(),
                iv0.len() == 16,
                forall|m: int| 0 <= m < 14 ==> iv@[m] == iv0[m],
                results@.len() == i,
                forall|m: int| 0 <= m < i ==> (#[trigger] results@[m])@ == xor_block_spec(
                    blocks@[m]@,
                    aes_block_spec(self.clear_key(), ctr_iv(iv0, m)),
                ),
            decreases num_blocks - i,
        {
            let cnt = (i % 256) as u8;
            iv[15] = cnt & 0xf;
            iv[14] = (cnt >> 4u8) & 0xf;
            proof {
                assert((((i % 256) as u8) & 0xf) == (((i % 16) as u8)) && ((((i
                    % 256) as u8) >> 4u8) & 0xf) == ((((i / 16) % 16) as u8))) by (bit_vector);
                assert(iv@ =~= ctr_iv(iv0, i as int));
            }
            let c_n = self.encrypt_one_block(iv);
            let mut r_n = [0u8; 16];
            let mut j: usize = 0;
            while j < 16
                invariant
                    j <= 16,
                    i < blocks@.len(),
                    c_n@.len() == 16,
                    forall|m: int| 0 <= m < j ==> r_n@[m] == (blocks@[i as int]@[m] ^ c_n@[m]),
                decreases 16 - j,
            {
                r_n[j] = blocks[i][j] ^ c_n[j];
                j = j + 1;
            }
            proof {
                assert(r_n@ =~= xor_block_spec(blocks@[i as int]@, c_n@));
            }
            results.push(r_n);
            i = i + 1;
        }
        proof {
            assert(blocks16_view(results@) =~= crate::model::ctr_encrypt_spec(
                self.clear_key(),
                iv0,
                blocks16_view(blocks@),
            ));
        }
        results
    }

    // ------------------------------------------------------------------
    // The homomorphic path
    // ------------------------------------------------------------------

    /// One oblivious substitution: the encrypted byte is looked up against
    /// the table without being revealed.
    fn sub_byte_fhe(&self, b: &FheByte) -> (r: FheByte)
        requires
            self.wf(),
        ensures
            r.plain_byte() == sbox(b.plain_byte()),
            b.is_trivial() ==> r.is_trivial(),
    {
        match fhe_match(b, &self.sbox_fhe) {
            Ok(v) => {
                proof {
                    lemma_sbox_entries(b.plain_byte());
                }
                v
            },
            Err(_) => unreached(),
        }
    }

    /// Homomorphic AddRoundKey against the encrypted schedule.
    pub fn add_round_key_fhe(&self, block: &Vec<FheByte>, round_no: usize) -> (r: Vec<FheByte>)
        requires
            self.wf(),
            block@.len() == 16,
            round_no <= 10,
        ensures
            r@.len() == 16,
            bytes_plain(r@) == add_round_key_spec(
                bytes_plain(block@),
                self.fhe_key_plain(),
                round_no as int,
            ),
            bytes_trivial(block@) && self.fhe_key_trivial() ==> bytes_trivial(r@),
    {
        let mut result: Vec<FheByte> = Vec::new();
        let mut i: usize = 0;
        while i < 16
            invariant
                i <= 16,
                self.wf(),
                block@.len() == 16,
                round_no <= 10,
                result@.len() == i,
                forall|j: int| 0 <= j < i ==> (#[trigger] result@[j]).plain_byte()
                    == (block@[j].plain_byte() ^ self.fhe_key_plain()[16 * round_no + j]),
                forall|j: int| 0 <= j < i ==> (block@[j].is_trivial()
                    && self.fhe_key_seq()[16 * round_no + j].is_trivial() ==> (
                #[trigger] result@[j]).is_trivial()),
            decreases 16 - i,
        {
            let key_idx = round_no * 16 + i;
            result.push(fhe_xor(&block[i], &self.aes_key_fhe[key_idx]));
            i = i + 1;
        }
        proof {
            assert(bytes_plain(result@) =~= add_round_key_spec(
                bytes_plain(block@),
                self.fhe_key_plain(),
                round_no as int,
            ));
        }
        result
    }

    /// The substitution step over the whole state; the sixteen lookups are
    /// independent and run in parallel.
    pub fn sub_bytes_fhe(&self, block: &Vec<FheByte>) -> (r: Vec<FheByte>)
        requires
            self.wf(),
            block@.len() == 16,
        ensures
            r@.len() == 16,
            bytes_plain(r@) == sub_bytes_spec(bytes_plain(block@)),
            bytes_trivial(block@) ==> bytes_trivial(r@),
    {
        let r = par_sub_bytes_fhe(self, block);
        proof {
            assert(bytes_plain(r@) =~= sub_bytes_spec(bytes_plain(block@)));
        }
        r
    }

    /// The row rotation: a pure permutation of ciphertext handles.
    pub fn shift_rows_fhe(&self, block: &Vec<FheByte>) -> (r: Vec<FheByte>)
        requires
            block@.len() == 16,
        ensures
            r@.len() == 16,
            bytes_plain(r@) == shift_rows_spec(bytes_plain(block@)),
            bytes_trivial(block@) ==> bytes_trivial(r@),
    {
        let mut result: Vec<FheByte> = Vec::new();
        let mut j: usize = 0;
        while j < 16
            invariant
                j <= 16,
                block@.len() == 16,
                result@.len() == j,
                forall|m: int| 0 <= m < j ==> (#[trigger] result@[m]).plain_byte() == block@[(m
                    % 4) + 4 * ((m / 4 + m % 4) % 4)].plain_byte(),
                forall|m: int| 0 <= m < j ==> (bytes_trivial(block@) ==> (
                #[trigger] result@[m]).is_trivial()),
            decreases 16 - j,
        {
            let row = j % 4;
            let col = j / 4;
            let src = row + 4 * ((col + row) % 4);
            result.push(fhe_dup(&block[src]));
            j = j + 1;
        }
        proof {
            assert(bytes_plain(result@) =~= shift_rows_spec(bytes_plain(block@)));
        }
        result
    }

    /// Double one encrypted byte in GF(2^8): shift left, extract the top
    /// bit, and fold the reduction constant in by multiplying it with that
    /// bit — no branch ever sees the bit's value.
    fn double_fhe(&self, x: &FheByte) -> (r: FheByte)
        ensures
            r.plain_byte() == xtime(x.plain_byte()),
            x.is_trivial() ==> r.is_trivial(),
    {
        let h = fhe_shr(x, 7);
        let sh = fhe_shl(x, 1);
        let hm = fhe_scalar_mul(&h, 0x1b);
        let d = fhe_xor(&sh, &hm);
        proof {
            let v = x.plain_byte();
            assert((v & 0x80 == 0x80 ==> v >> 7u8 == 1) && (v & 0x80 != 0x80 ==> v >> 7u8 == 0))
                by (bit_vector);
            if v & 0x80 == 0x80 {
                assert(hm.plain_byte() == 0x1b);
            } else {
                assert(hm.plain_byte() == 0);
                lemma_xor_zero(v << 1u8);
            }
        }
        d
    }

    /// Homomorphic MixColumns: every byte doubled, each column combined
    /// through the MDS matrix by homomorphic XORs.
    pub fn mix_columns_fhe(&self, block: &Vec<FheByte>) -> (r: Vec<FheByte>)
        requires
            block@.len() == 16,
        ensures
            r@.len() == 16,
            bytes_plain(r@) == mix_columns_spec(bytes_plain(block@)),
            bytes_trivial(block@) ==> bytes_trivial(r@),
    {
        let mut doubled: Vec<FheByte> = Vec::new();
        let mut i: usize = 0;
        while i < 16
            invariant
                i <= 16,
                block@.len() == 16,
                doubled@.len() == i,
                forall|j: int| 0 <= j < i ==> (#[trigger] doubled@[j]).plain_byte() == xtime(
                    block@[j].plain_byte(),
                ),
                forall|j: int| 0 <= j < i ==> (block@[j].is_trivial() ==> (
                #[trigger] doubled@[j]).is_trivial()),
            decreases 16 - i,
        {
            doubled.push(self.double_fhe(&block[i]));
            i = i + 1;
        }
        let mut result: Vec<FheByte> = Vec::new();
        let mut j: usize = 0;
        while j < 16
            invariant
                j <= 16,
                block@.len() == 16,
                doubled@.len() == 16,
                forall|m: int| 0 <= m < 16 ==> (#[trigger] doubled@[m]).plain_byte() == xtime(
                    block@[m].plain_byte(),
                ),
                forall|m: int| 0 <= m < 16 ==> (block@[m].is_trivial() ==> (
                #[trigger] doubled@[m]).is_trivial()),
                result@.len() == j,
                forall|m: int| 0 <= m < j ==> (#[trigger] result@[m]).plain_byte() == mix_byte(
                    bytes_plain(block@),
                    m,
                ),
                forall|m: int| 0 <= m < j ==> (bytes_trivial(block@) ==> (
                #[trigger] result@[m]).is_trivial()),
            decreases 16 - j,
        {
            let row = j % 4;
            let col = j / 4;
            let t1 = fhe_xor(&doubled[4 * col + row], &block[4 * col + (row + 3) % 4]);
            let t2 = fhe_xor(&t1, &block[4 * col + (row + 2) % 4]);
            let t3 = fhe_xor(&t2, &doubled[4 * col + (row + 1) % 4]);
            let out = fhe_xor(&t3, &block[4 * col + (row + 1) % 4]);
            proof {
                assert(out.plain_byte() == mix_byte(bytes_plain(block@), j as int));
            }
            result.push(out);
            j = j + 1;
        }
        proof {
            assert(bytes_plain(result@) =~= mix_columns_spec(bytes_plain(block@)));
        }
        result
    }

    /// Homomorphic encryption of one block: the fixed ten-round driver.
    pub fn encrypt_one_block_fhe(&self, block: Vec<FheByte>) -> (r: Vec<FheByte>)
        requires
            self.wf(),
            block@.len() == 16,
        ensures
            r@.len() == 16,
            bytes_plain(r@) == aes_block_spec(self.fhe_key_plain(), bytes_plain(block@)),
            bytes_trivial(block@) && self.fhe_key_trivial() ==> bytes_trivial(r@),
    {
        let mut state = self.add_round_key_fhe(&block, 0);
        let ghost start = bytes_plain(state@);
        let ghost triv0 = bytes_trivial(state@);
        let mut t: usize = 0;
        while t < 9
            invariant
                t <= 9,
                self.wf(),
                state@.len() == 16,
                bytes_plain(state@) == aes_rounds(start, self.fhe_key_plain(), t as int),
                triv0 && self.fhe_key_trivial() ==> bytes_trivial(state@),
            decreases 9 - t,
        {
            state = self.sub_bytes_fhe(&state);
            state = self.shift_rows_fhe(&state);
            state = self.mix_columns_fhe(&state);
            state = self.add_round_key_fhe(&state, t + 1);
            proof {
                assert(bytes_plain(state@) == aes_round(
                    aes_rounds(start, self.fhe_key_plain(), t as int),
                    self.fhe_key_plain(),
                    t + 1,
                ));
            }
            t = t + 1;
        }
        state = self.sub_bytes_fhe(&state);
        state = self.shift_rows_fhe(&state);
        state = self.add_round_key_fhe(&state, 10);
        state
    }

    /// One CTR-mode block: the two counter nibbles of index `i` are
    /// trivially encrypted into IV byte offsets 15 and 14, the result is
    /// encrypted, and the keystream is XORed into the plaintext block.
    fn ctr_block_fhe(&self, block: &Vec<FheByte>, iv: &Vec<FheByte>, i: usize) -> (r: Vec<FheByte>)
        requires
            self.wf(),
            block@.len() == 16,
            iv@.len() == 16,
        ensures
            r@.len() == 16,
            bytes_plain(r@) == xor_block_spec(
                bytes_plain(block@),
                aes_block_spec(self.fhe_key_plain(), ctr_iv(bytes_plain(iv@), i as int)),
            ),
            bytes_trivial(block@) && bytes_trivial(iv@) && self.fhe_key_trivial()
                ==> bytes_trivial(r@),
    {
        proof {
            let n = i as int;
            assert((i & 0xf) < 16 && (i & 0xf) as u8 == (i as int % 16) as u8 && ((i
                >> 4usize) & 0xf) as u8 == ((i as int / 16) % 16) as u8) by (bit_vector);
        }
        let c1 = fhe_trivial((i & 0xf) as u8);
        let c2 = fhe_trivial(((i >> 4usize) & 0xf) as u8);
        let mut current_iv: Vec<FheByte> = Vec::new();
        let mut j: usize = 0;
        while j < 16
            invariant
                j <= 16,
                iv@.len() == 16,
                c1.plain_byte() == (i as int % 16) as u8,
                c2.plain_byte() == ((i as int / 16) % 16) as u8,
                c1.is_trivial(),
                c2.is_trivial(),
                current_iv@.len() == j,
                forall|m: int| 0 <= m < j ==> (#[trigger] current_iv@[m]).plain_byte()
                    == ctr_iv(bytes_plain(iv@), i as int)[m],
                forall|m: int| 0 <= m < j ==> (bytes_trivial(iv@) ==> (
                #[trigger] current_iv@[m]).is_trivial()),
            decreases 16 - j,
        {
            if j == 15 {
                current_iv.push(fhe_dup(&c1));
            } else if j == 14 {
                current_iv.push(fhe_dup(&c2));
            } else {
                current_iv.push(fhe_dup(&iv[j]));
            }
            j = j + 1;
        }
        proof {
            assert(bytes_plain(current_iv@) =~= ctr_iv(bytes_plain(iv@), i as int));
        }
        let c_n = self.encrypt_one_block_fhe(current_iv);
        xor_blocks(block, &c_n)
    }

    /// CTR-mode encryption of a batch of encrypted blocks, each
    /// independently and in parallel: block `i` is XORed with the
    /// encryption of the IV stamped with the two counter nibbles of `i`.
    /// Only 256 distinct counter values exist, so indices 256 apart reuse
    /// the same keystream; this capacity bound is part of the construction.
    pub fn encrypt_ctr_mode_fhe(&self, blocks: Vec<Vec<FheByte>>, iv: Vec<FheByte>) -> (r: Vec<
        Vec<FheByte>,
    >)
        requires
            self.wf(),
            fblocks_wf(blocks@),
            iv@.len() == 16,
        ensures
            r@.len() == blocks@.len(),
            fblocks_wf(r@),
            fblocks_plain(r@) == crate::model::ctr_encrypt_spec(
                self.fhe_key_plain(),
                bytes_plain(iv@),
                fblocks_plain(blocks@),
            ),
            fblocks_trivial(blocks@) && bytes_trivial(iv@) && self.fhe_key_trivial()
                ==> fblocks_trivial(r@),
    {
        let r = par_ctr_blocks_fhe(self, &blocks, &iv);
        proof {
            assert(fblocks_plain(r@) =~= crate::model::ctr_encrypt_spec(
                self.fhe_key_plain(),
                bytes_plain(iv@),
                fblocks_plain(blocks@),
            ));
        }
        r
    }
}

/// Relies on rayon's order-preserving parallel map over the slice: each
/// byte is handed to the verified oblivious substitution independently and
/// the results are collected in index order.
#[verifier::external_body]
fn par_sub_bytes_fhe(aes: &AES, block: &Vec<FheByte>) -> (r: Vec<FheByte>)
    requires
        aes.wf(),
    ensures
        r@.len() == block@.len(),
        forall|i: int| 0 <= i < block@.len() ==> (#[trigger] r@[i]).plain_byte() == sbox(
            block@[i].plain_byte(),
        ),
        forall|i: int| 0 <= i < block@.len() ==> (block@[i].is_trivial() ==> (
        #[trigger] r@[i]).is_trivial()),
{
    rayon::iter::ParallelIterator::collect(rayon::iter::ParallelIterator::map(
        rayon::iter::IntoParallelRefIterator::par_iter(block),
        |x: &FheByte| aes.sub_byte_fhe(x),
    ))
}

/// Relies on rayon's order-preserving parallel map over the block indices:
/// each index is handed to the verified per-block CTR step and the results
/// are collected in index order.
#[verifier::external_body]
fn par_ctr_blocks_fhe(aes: &AES, blocks: &Vec<Vec<FheByte>>, iv: &Vec<FheByte>) -> (r: Vec<
    Vec<FheByte>,
>)
    requires
        aes.wf(),
        fblocks_wf(blocks@),
        iv@.len() == 16,
    ensures
        r@.len() == blocks@.len(),
        fblocks_wf(r@),
        forall|i: int| 0 <= i < blocks@.len() ==> bytes_plain((#[trigger] r@[i])@)
            == xor_block_spec(
            bytes_plain(blocks@[i]@),
            aes_block_spec(aes.fhe_key_plain(), ctr_iv(bytes_plain(iv@), i)),
        ),
        forall|i: int| 0 <= i < blocks@.len() ==> (bytes_trivial(blocks@[i]@) && bytes_trivial(
            iv@,
        ) && aes.fhe_key_trivial() ==> bytes_trivial((#[trigger] r@[i])@)),
{
    rayon::iter::ParallelIterator::collect(rayon::iter::ParallelIterator::map(
        rayon::iter::IntoParallelIterator::into_par_iter(0..blocks.len()),
        |i: usize| aes.ctr_block_fhe(&blocks[i], iv, i),
    ))
}

} // verus!
