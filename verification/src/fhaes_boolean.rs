//! The bit-sliced boolean cipher engine: every byte of state is eight
//! boolean ciphertexts, the substitution step is the explicit logic-gate
//! circuit, and the other transforms are gate-level XORs, shifts and
//! multiplexers.
use vstd::prelude::*;

verus! {

use crate::bool_ct::AesBit;
use crate::bool_ct::bit_and;
use crate::bool_ct::bit_decrypt;
use crate::bool_ct::bit_dup;
use crate::bool_ct::bit_xnor;
use crate::bool_ct::bit_xor;
use crate::circuit::lemma_sbox_circuit_exact;
use crate::circuit::sbox_circuit;
use crate::model::add_round_key_spec;
use crate::model::aes_block_spec;
use crate::model::aes_round;
use crate::model::aes_rounds;
use crate::model::bit;
use crate::model::byte_of_bits;
use crate::model::lemma_bits_of_byte_of_bits;
use crate::model::mix_byte;
use crate::model::mix_columns_spec;
use crate::model::shift_rows_spec;
use crate::model::sub_bytes_spec;
use crate::model::lemma_shift_of_bits;
use crate::model::lemma_top_bit;
use crate::model::lemma_xor_regroup;
use crate::model::lemma_xor_zero;
use crate::model::xor_block_spec;
use crate::model::xtime;
use crate::sbox::sbox;
use crate::utils::mix_mux_gate;
use crate::utils::xor_aes_byte;
use crate::utils::xor_aes_byte_blocks;

/// One byte of cipher state in the bit-sliced representation: exactly eight
/// boolean ciphertexts, bit 0 the least significant.
pub struct AesByte {
    bits: Vec<AesBit>,
}

/// The plaintext byte values of a sequence of bit-sliced bytes.
pub open spec fn bytes_value(s: Seq<AesByte>) -> Seq<u8> {
    Seq::new(s.len(), |i: int| s[i].value())
}

/// Every byte of the sequence holds exactly eight bits.
pub open spec fn bytes_wf(s: Seq<AesByte>) -> bool {
    forall|i: int| 0 <= i < s.len() ==> s[i].wf()
}

impl AesByte {
    /// A well-formed byte holds exactly eight bit ciphertexts.
    pub closed spec fn wf(self) -> bool {
        self.bits@.len() == 8
    }

    /// The ordered bit ciphertexts.
    pub closed spec fn bits_seq(self) -> Seq<AesBit> {
        self.bits@
    }

    /// Plaintext of bit `i`, 0 the least significant.
    pub closed spec fn bit_at(self, i: int) -> bool {
        self.bits@[i].plain_bit()
    }

    /// The plaintext byte this bit-sliced byte encrypts.
    pub closed spec fn value(self) -> u8 {
        byte_of_bits(
            self.bit_at(0),
            self.bit_at(1),
            self.bit_at(2),
            self.bit_at(3),
            self.bit_at(4),
            self.bit_at(5),
            self.bit_at(6),
            self.bit_at(7),
        )
    }

    /// Wrap eight bit ciphertexts, least significant first.
    pub fn new(input_bits: Vec<AesBit>) -> (r: AesByte)
        requires
            input_bits@.len() == 8,
        ensures
            r.wf(),
            r.bits_seq() == input_bits@,
            forall|i: int| 0 <= i < 8 ==> r.bit_at(i) == input_bits@[i].plain_bit(),
    {
        AesByte { bits: input_bits }
    }

    /// A copy holding the same eight bits.
    pub fn dup(&self) -> (r: AesByte)
        requires
            self.wf(),
        ensures
            r.wf(),
            r.bits_seq() == self.bits_seq(),
            r.value() == self.value(),
    {
        let mut bits: Vec<AesBit> = Vec::new();
        let mut i: usize = 0;
        while i < 8
            invariant
                i <= 8,
                self.wf(),
                bits@.len() == i,
                forall|j: int| 0 <= j < i ==> bits@[j] == self.bits_seq()[j],
            decreases 8 - i,
        {
            bits.push(bit_dup(&self.bits[i]));
            i = i + 1;
        }
        let r = AesByte { bits };
        proof {
            assert(r.bits_seq() =~= self.bits_seq());
        }
        r
    }

    /// The ordered bit ciphertexts, as a fresh vector.
    pub fn get_bits(&self) -> (r: Vec<AesBit>)
        requires
            self.wf(),
        ensures
            r@ == self.bits_seq(),
            r@.len() == 8,
            forall|i: int| 0 <= i < 8 ==> r@[i].plain_bit() == self.bit_at(i),
    {
        let copy = self.dup();
        let AesByte { bits } = copy;
        bits
    }

    /// The most significant bit's ciphertext.
    pub fn top_bit(&self) -> (r: AesBit)
        requires
            self.wf(),
        ensures
            r.plain_bit() == self.bit_at(7),
    {
        bit_dup(&self.bits[7])
    }

    /// Shift the bits up one position: the top bit is dropped and the
    /// caller-supplied bit enters at position 0.
    pub fn shift_left(&self, f: &AesBit) -> (r: AesByte)
        requires
            self.wf(),
        ensures
            r.wf(),
            r.bit_at(0) == f.plain_bit(),
            forall|i: int| 1 <= i < 8 ==> r.bit_at(i) == self.bit_at(i - 1),
    {
        let mut result_bits: Vec<AesBit> = Vec::new();
        result_bits.push(bit_dup(f));
        let mut i: usize = 0;
        while i < 7
            invariant
                i <= 7,
                self.wf(),
                result_bits@.len() == i + 1,
                result_bits@[0].plain_bit() == f.plain_bit(),
                forall|j: int| 1 <= j < i + 1 ==> result_bits@[j].plain_bit() == self.bit_at(j - 1),
            decreases 7 - i,
        {
            result_bits.push(bit_dup(&self.bits[i]));
            i = i + 1;
        }
        AesByte { bits: result_bits }
    }

    /// Decrypt the eight bits with the holder's secret key and reassemble
    /// the byte; for test and debug use, not part of the evaluation path.
    pub fn decrypt(&self, client_key: &tfhe::boolean::client_key::ClientKey) -> (r: u8)
        requires
            self.wf(),
        ensures
            r == self.value(),
    {
        let b0 = bit_decrypt(client_key, &self.bits[0]);
        let b1 = bit_decrypt(client_key, &self.bits[1]);
        let b2 = bit_decrypt(client_key, &self.bits[2]);
        let b3 = bit_decrypt(client_key, &self.bits[3]);
        let b4 = bit_decrypt(client_key, &self.bits[4]);
        let b5 = bit_decrypt(client_key, &self.bits[5]);
        let b6 = bit_decrypt(client_key, &self.bits[6]);
        let b7 = bit_decrypt(client_key, &self.bits[7]);
        let mut result: u8 = 0;
        if b0 { result = result + 1; }
        if b1 { result = result + 2; }
        if b2 { result = result + 4; }
        if b3 { result = result + 8; }
        if b4 { result = result + 16; }
        if b5 { result = result + 32; }
        if b6 { result = result + 64; }
        if b7 { result = result + 128; }
        result
    }

    /// The substitution step on one bit-sliced byte: the fixed logic
    /// circuit, reproduced wire for wire and proven equal to the table on
    /// every byte.
    #[verifier::rlimit(100)]
    pub fn sbox(&self, server_key: &tfhe::boolean::server_key::ServerKey) -> (r: AesByte)
        requires
            self.wf(),
        ensures
            r.wf(),
            r.value() == sbox(self.value()),
    {
        let sk = server_key;
        let u0 = bit_dup(&self.bits[7]);
        let u1 = bit_dup(&self.bits[6]);
        let u2 = bit_dup(&self.bits[5]);
        let u3 = bit_dup(&self.bits[4]);
        let u4 = bit_dup(&self.bits[3]);
        let u5 = bit_dup(&self.bits[2]);
        let u6 = bit_dup(&self.bits[1]);
        let u7 = bit_dup(&self.bits[0]);
        let t1 = bit_xor(sk, &u3, &u5);
        let t2 = bit_xor(sk, &u0, &u6);
        let t3 = bit_xor(sk, &u0, &u3);
        let t4 = bit_xor(sk, &u0, &u5);
        let t5 = bit_xor(sk, &u1, &u2);
        let t6 = bit_xor(sk, &t5, &u7);
        let t7 = bit_xor(sk, &t6, &u3);
        let t8 = bit_xor(sk, &t2, &t1);
        let t9 = bit_xor(sk, &t6, &u0);
        let t10 = bit_xor(sk, &t6, &u6);
        let t11 = bit_xor(sk, &t10, &t4);
        let t12 = bit_xor(sk, &u4, &t8);
        let t13 = bit_xor(sk, &t12, &u5);
        let t14 = bit_xor(sk, &t12, &u1);
        let t15 = bit_xor(sk, &t13, &u7);
        let t16 = bit_xor(sk, &t13, &t5);
        let t17 = bit_xor(sk, &t14, &t3);
        let t18 = bit_xor(sk, &u7, &t17);
        let t19 = bit_xor(sk, &t16, &t17);
        let t20 = bit_xor(sk, &t16, &t4);
        let t21 = bit_xor(sk, &t5, &t17);
        let t22 = bit_xor(sk, &t2, &t21);
        let t23 = bit_xor(sk, &u0, &t21);
        let t24 = bit_and(sk, &t8, &t13);
        let t25 = bit_and(sk, &t11, &t15);
        let t26 = bit_xor(sk, &t25, &t24);
        let t27 = bit_and(sk, &t7, &u7);
        let t28 = bit_xor(sk, &t27, &t24);
        let t29 = bit_and(sk, &t2, &t21);
        let t30 = bit_and(sk, &t10, &t6);
        let t31 = bit_xor(sk, &t30, &t29);
        let t32 = bit_and(sk, &t9, &t18);
        let t33 = bit_xor(sk, &t32, &t29);
        let t34 = bit_and(sk, &t3, &t17);
        let t35 = bit_and(sk, &t1, &t19);
        let t36 = bit_xor(sk, &t35, &t34);
        let t37 = bit_and(sk, &t4, &t16);
        let t38 = bit_xor(sk, &t37, &t34);
        let t39 = bit_xor(sk, &t26, &t14);
        let t40 = bit_xor(sk, &t28, &t38);
        let t41 = bit_xor(sk, &t31, &t36);
        let t42 = bit_xor(sk, &t33, &t38);
        let t43 = bit_xor(sk, &t39, &t36);
        let t44 = bit_xor(sk, &t40, &t20);
        let t45 = bit_xor(sk, &t41, &t22);
        let t46 = bit_xor(sk, &t42, &t23);
        let t47 = bit_xor(sk, &t43, &t44);
        let t48 = bit_and(sk, &t43, &t45);
        let t49 = bit_xor(sk, &t46, &t48);
        let t50 = bit_and(sk, &t47, &t49);
        let t51 = bit_xor(sk, &t50, &t44);
        let t52 = bit_xor(sk, &t45, &t46);
        let t53 = bit_xor(sk, &t44, &t48);
        let t54 = bit_and(sk, &t53, &t52);
        let t55 = bit_xor(sk, &t54, &t46);
        let t56 = bit_xor(sk, &t45, &t55);
        let t57 = bit_xor(sk, &t49, &t55);
        let t58 = bit_and(sk, &t46, &t57);
        let t59 = bit_xor(sk, &t58, &t56);
        let t60 = bit_xor(sk, &t49, &t58);
        let t61 = bit_and(sk, &t51, &t60);
        let t62 = bit_xor(sk, &t47, &t61);
        let t63 = bit_xor(sk, &t62, &t59);
        let t64 = bit_xor(sk, &t51, &t55);
        let t65 = bit_xor(sk, &t51, &t62);
        let t66 = bit_xor(sk, &t55, &t59);
        let t67 = bit_xor(sk, &t64, &t63);
        let t68 = bit_and(sk, &t66, &t13);
        let t69 = bit_and(sk, &t59, &t15);
        let t70 = bit_and(sk, &t55, &u7);
        let t71 = bit_and(sk, &t65, &t21);
        let t72 = bit_and(sk, &t62, &t6);
        let t73 = bit_and(sk, &t51, &t18);
        let t74 = bit_and(sk, &t64, &t17);
        let t75 = bit_and(sk, &t67, &t19);
        let t76 = bit_and(sk, &t63, &t16);
        let t77 = bit_and(sk, &t66, &t8);
        let t78 = bit_and(sk, &t59, &t11);
        let t79 = bit_and(sk, &t55, &t7);
        let t80 = bit_and(sk, &t65, &t2);
        let t81 = bit_and(sk, &t62, &t10);
        let t82 = bit_and(sk, &t51, &t9);
        let t83 = bit_and(sk, &t64, &t3);
        let t84 = bit_and(sk, &t67, &t1);
        let t85 = bit_and(sk, &t63, &t4);
        let t86 = bit_xor(sk, &t83, &t84);
        let t87 = bit_xor(sk, &t78, &t86);
        let t88 = bit_xor(sk, &t77, &t87);
        let t89 = bit_xor(sk, &t68, &t70);
        let t90 = bit_xor(sk, &t69, &t68);
        let t91 = bit_xor(sk, &t71, &t72);
        let t92 = bit_xor(sk, &t80, &t89);
        let t93 = bit_xor(sk, &t75, &t91);
        let t94 = bit_xor(sk, &t76, &t92);
        let t95 = bit_xor(sk, &t93, &t94);
        let t96 = bit_xor(sk, &t91, &t90);
        let t97 = bit_xor(sk, &t71, &t73);
        let t98 = bit_xor(sk, &t81, &t86);
        let t99 = bit_xor(sk, &t89, &t97);
        let s3 = bit_xor(sk, &t88, &t96);
        let t100 = bit_xor(sk, &t74, &t93);
        let t101 = bit_xor(sk, &t82, &t95);
        let t102 = bit_xor(sk, &t98, &t99);
        let s7 = bit_xnor(sk, &t80, &t102);
        let t103 = bit_xor(sk, &t83, &t100);
        let t104 = bit_xor(sk, &t87, &t79);
        let s0 = bit_xor(sk, &t88, &t100);
        let s6 = bit_xnor(sk, &t95, &t102);
        let s4 = bit_xor(sk, &t99, &s3);
        let s1 = bit_xnor(sk, &s3, &t100);
        let t105 = bit_xor(sk, &t101, &t103);
        let s2 = bit_xnor(sk, &t105, &t85);
        let s5 = bit_xor(sk, &t104, &t101);
        let mut result_bits: Vec<AesBit> = Vec::new();
        result_bits.push(s7);
        result_bits.push(s6);
        result_bits.push(s5);
        result_bits.push(s4);
        result_bits.push(s3);
        result_bits.push(s2);
        result_bits.push(s1);
        result_bits.push(s0);
        let r = AesByte { bits: result_bits };
        proof {
            let v = self.value();
            lemma_bits_of_byte_of_bits(
                self.bit_at(0),
                self.bit_at(1),
                self.bit_at(2),
                self.bit_at(3),
                self.bit_at(4),
                self.bit_at(5),
                self.bit_at(6),
                self.bit_at(7),
            );
            assert(r.value() == sbox_circuit(v));
            lemma_sbox_circuit_exact(v);
        }
        r
    }
}

/// A bit-sliced byte's value is the byte assembled from its eight bits.
pub proof fn lemma_value_bits(b: AesByte)
    ensures
        b.value() == byte_of_bits(
            b.bit_at(0),
            b.bit_at(1),
            b.bit_at(2),
            b.bit_at(3),
            b.bit_at(4),
            b.bit_at(5),
            b.bit_at(6),
            b.bit_at(7),
        ),
{
}


/// Every block of the batch is sixteen well-formed bit-sliced bytes.
pub open spec fn blocks_wf(bs: Seq<Vec<AesByte>>) -> bool {
    forall|i: int| 0 <= i < bs.len() ==> (#[trigger] bs[i])@.len() == 16 && bytes_wf(bs[i]@)
}

/// The plaintext blocks of a batch.
pub open spec fn blocks_value(bs: Seq<Vec<AesByte>>) -> Seq<Seq<u8>> {
    Seq::new(bs.len(), |i: int| bytes_value(bs[i]@))
}

/// The bit-sliced boolean cipher engine: the encrypted round-key schedule,
/// the evaluation capability, and trivial true and false bits for injecting
/// constants into the boolean circuits.
pub struct AesBoolean {
    aes_key_fhe: Vec<AesByte>,
    server_key: tfhe::boolean::server_key::ServerKey,
    true_bit: AesBit,
    false_bit: AesBit,
}

impl AesBoolean {
    /// A well-formed engine holds the full 176-byte schedule and faithful
    /// constant bits.
    pub closed spec fn wf(self) -> bool {
        &&& self.aes_key_fhe@.len() == 176
        &&& bytes_wf(self.aes_key_fhe@)
        &&& self.true_bit.plain_bit() == true
        &&& self.false_bit.plain_bit() == false
    }

    /// The plaintext of the encrypted round-key schedule.
    pub closed spec fn key_plain(self) -> Seq<u8> {
        bytes_value(self.aes_key_fhe@)
    }

    /// Build an engine from an encrypted schedule, the evaluation key, and
    /// trivial encryptions of true and false.
    pub fn new(
        aes_key: Vec<AesByte>,
        key: tfhe::boolean::server_key::ServerKey,
        t: AesBit,
        f: AesBit,
    ) -> (r: AesBoolean)
        requires
            aes_key@.len() == 176,
            bytes_wf(aes_key@),
            t.plain_bit() == true,
            f.plain_bit() == false,
        ensures
            r.wf(),
            r.key_plain() == bytes_value(aes_key@),
    {
        AesBoolean { aes_key_fhe: aes_key, server_key: key, true_bit: t, false_bit: f }
    }

    /// XOR the state with round key `round_no`, bit for bit.
    pub fn add_round_key_fhe(&self, block: &Vec<AesByte>, round_no: usize) -> (r: Vec<AesByte>)
        requires
            self.wf(),
            block@.len() == 16,
            bytes_wf(block@),
            round_no <= 10,
        ensures
            r@.len() == 16,
            bytes_wf(r@),
            bytes_value(r@) == add_round_key_spec(
                bytes_value(block@),
                self.key_plain(),
                round_no as int,
            ),
    {
        let mut result: Vec<AesByte> = Vec::new();
        let mut i: usize = 0;
        while i < 16
            invariant
                i <= 16,
                self.wf(),
                block@.len() == 16,
                bytes_wf(block@),
                round_no <= 10,
                result@.len() == i,
                forall|j: int| 0 <= j < i ==> (#[trigger] result@[j]).wf() && result@[j].value()
                    == (block@[j].value() ^ self.key_plain()[16 * round_no + j]),
            decreases 16 - i,
        {
            let key_idx = round_no * 16 + i;
            result.push(xor_aes_byte(&self.server_key, &block[i], &self.aes_key_fhe[key_idx]));
            i = i + 1;
        }
        proof {
            assert(bytes_value(result@) =~= add_round_key_spec(
                bytes_value(block@),
                self.key_plain(),
                round_no as int,
            ));
        }
        result
    }

    /// The substitution step over the whole state; the sixteen circuit
    /// evaluations are independent and run in parallel.
    pub fn sub_bytes_fhe(&self, block: &Vec<AesByte>) -> (r: Vec<AesByte>)
        requires
            self.wf(),
            block@.len() == 16,
            bytes_wf(block@),
        ensures
            r@.len() == 16,
            bytes_wf(r@),
            bytes_value(r@) == sub_bytes_spec(bytes_value(block@)),
    {
        let r = par_sub_bytes(&self.server_key, block);
        proof {
            assert(bytes_value(r@) =~= sub_bytes_spec(bytes_value(block@)));
        }
        r
    }

    /// The row rotation: a pure permutation of byte handles.
    pub fn shift_rows_fhe(&self, block: &Vec<AesByte>) -> (r: Vec<AesByte>)
        requires
            self.wf(),
            block@.len() == 16,
            bytes_wf(block@),
        ensures
            r@.len() == 16,
            bytes_wf(r@),
            bytes_value(r@) == shift_rows_spec(bytes_value(block@)),
    {
        let mut result: Vec<AesByte> = Vec::new();
        let mut j: usize = 0;
        while j < 16
            invariant
                j <= 16,
                block@.len() == 16,
                bytes_wf(block@),
                result@.len() == j,
                forall|m: int| 0 <= m < j ==> (#[trigger] result@[m]).wf() && result@[m].value()
                    == block@[(m % 4) + 4 * ((m / 4 + m % 4) % 4)].value(),
            decreases 16 - j,
        {
            let row = j % 4;
            let col = j / 4;
            let src = row + 4 * ((col + row) % 4);
            result.push(block[src].dup());
            j = j + 1;
        }
        proof {
            assert(bytes_value(result@) =~= shift_rows_spec(bytes_value(block@)));
        }
        result
    }

    /// Double one bit-sliced byte in GF(2^8): shift the bits up and fold the
    /// reduction constant in behind the multiplexer on the dropped top bit.
    fn double_fhe(&self, x: &AesByte) -> (r: AesByte)
        requires
            self.wf(),
            x.wf(),
        ensures
            r.wf(),
            r.value() == xtime(x.value()),
    {
        let h = x.top_bit();
        let shifted = x.shift_left(&self.false_bit);
        let mux = mix_mux_gate(&self.server_key, &h, &self.true_bit, &self.false_bit);
        let d = xor_aes_byte(&self.server_key, &shifted, &mux);
        proof {
            let v = x.value();
            lemma_bits_of_byte_of_bits(
                x.bit_at(0), x.bit_at(1), x.bit_at(2), x.bit_at(3),
                x.bit_at(4), x.bit_at(5), x.bit_at(6), x.bit_at(7),
            );
            lemma_shift_of_bits(
                x.bit_at(0), x.bit_at(1), x.bit_at(2), x.bit_at(3),
                x.bit_at(4), x.bit_at(5), x.bit_at(6), x.bit_at(7),
            );
            assert(shifted.value() == byte_of_bits(
                false,
                x.bit_at(0), x.bit_at(1), x.bit_at(2), x.bit_at(3),
                x.bit_at(4), x.bit_at(5), x.bit_at(6),
            ));
            assert(shifted.value() == v << 1u8);
            lemma_top_bit(v);
            if x.bit_at(7) {
                assert(d.value() == (v << 1u8) ^ 0x1b);
            } else {
                lemma_xor_zero(v << 1u8);
                assert(d.value() == v << 1u8);
            }
        }
        d
    }

    /// The column mixing: every byte doubled, then each column combined
    /// through the MDS matrix by whole-byte XORs.
    pub fn mix_columns_fhe(&self, block: &Vec<AesByte>) -> (r: Vec<AesByte>)
        requires
            self.wf(),
            block@.len() == 16,
            bytes_wf(block@),
        ensures
            r@.len() == 16,
            bytes_wf(r@),
            bytes_value(r@) == mix_columns_spec(bytes_value(block@)),
    {
        let mut doubled: Vec<AesByte> = Vec::new();
        let mut i: usize = 0;
        while i < 16
            invariant
                i <= 16,
                self.wf(),
                block@.len() == 16,
                bytes_wf(block@),
                doubled@.len() == i,
                forall|j: int| 0 <= j < i ==> (#[trigger] doubled@[j]).wf() && doubled@[j].value()
                    == xtime(block@[j].value()),
            decreases 16 - i,
        {
            doubled.push(self.double_fhe(&block[i]));
            i = i + 1;
        }
        let mut result: Vec<AesByte> = Vec::new();
        let mut j: usize = 0;
        while j < 16
            invariant
                j <= 16,
                self.wf(),
                block@.len() == 16,
                bytes_wf(block@),
                doubled@.len() == 16,
                bytes_wf(doubled@),
                forall|m: int| 0 <= m < 16 ==> (#[trigger] doubled@[m]).value() == xtime(
                    block@[m].value(),
                ),
                result@.len() == j,
                forall|m: int| 0 <= m < j ==> (#[trigger] result@[m]).wf() && result@[m].value()
                    == mix_byte(bytes_value(block@), m),
            decreases 16 - j,
        {
            let row = j % 4;
            let col = j / 4;
            let t1 = xor_aes_byte(&self.server_key, &doubled[4 * col + row], &block[4 * col + (row
                + 3) % 4]);
            let t2 = xor_aes_byte(&self.server_key, &t1, &block[4 * col + (row + 2) % 4]);
            let t3 = xor_aes_byte(&self.server_key, &doubled[4 * col + (row + 1) % 4], &block[4
                * col + (row + 1) % 4]);
            let out = xor_aes_byte(&self.server_key, &t2, &t3);
            proof {
                let s = bytes_value(block@);
                let jj = j as int;
                let c = jj / 4;
                let rw = jj % 4;
                lemma_xor_regroup(
                    xtime(s[4 * c + rw]),
                    s[4 * c + (rw + 3) % 4],
                    s[4 * c + (rw + 2) % 4],
                    xtime(s[4 * c + (rw + 1) % 4]),
                    s[4 * c + (rw + 1) % 4],
                );
                assert(out.value() == mix_byte(s, jj));
            }
            result.push(out);
            j = j + 1;
        }
        proof {
            assert(bytes_value(result@) =~= mix_columns_spec(bytes_value(block@)));
        }
        result
    }

    /// Encrypt one sixteen-byte block: whitening, nine full rounds, and the
    /// final round without MixColumns.
    pub fn encrypt_one_block_fhe(&self, block: Vec<AesByte>) -> (r: Vec<AesByte>)
        requires
            self.wf(),
            block@.len() == 16,
            bytes_wf(block@),
        ensures
            r@.len() == 16,
            bytes_wf(r@),
            bytes_value(r@) == aes_block_spec(self.key_plain(), bytes_value(block@)),
    {
        let mut state = self.add_round_key_fhe(&block, 0);
        let ghost start = bytes_value(state@);
        let mut t: usize = 0;
        while t < 9
            invariant
                t <= 9,
                self.wf(),
                state@.len() == 16,
                bytes_wf(state@),
                bytes_value(state@) == aes_rounds(start, self.key_plain(), t as int),
            decreases 9 - t,
        {
            state = self.sub_bytes_fhe(&state);
            state = self.shift_rows_fhe(&state);
            state = self.mix_columns_fhe(&state);
            state = self.add_round_key_fhe(&state, t + 1);
            proof {
                assert(bytes_value(state@) == aes_round(
                    aes_rounds(start, self.key_plain(), t as int),
                    self.key_plain(),
                    t + 1,
                ));
            }
            t = t + 1;
        }
        state = self.sub_bytes_fhe(&state);
        state = self.shift_rows_fhe(&state);
        state = self.add_round_key_fhe(&state, 10);
        state
    }

    /// One CTR-mode block: stamp the two counter nibbles into the IV at
    /// byte offsets 15 and 14, encrypt it, and XOR the keystream into the
    /// plaintext block.
    fn ctr_block(
        &self,
        block: &Vec<AesByte>,
        iv: &Vec<AesByte>,
        c1: &AesByte,
        c2: &AesByte,
    ) -> (r: Vec<AesByte>)
        requires
            self.wf(),
            block@.len() == 16,
            bytes_wf(block@),
            iv@.len() == 16,
            bytes_wf(iv@),
            c1.wf(),
            c2.wf(),
        ensures
            r@.len() == 16,
            bytes_wf(r@),
            bytes_value(r@) == xor_block_spec(
                bytes_value(block@),
                aes_block_spec(
                    self.key_plain(),
                    bytes_value(iv@).update(15, c1.value()).update(14, c2.value()),
                ),
            ),
    {
        let mut current_iv: Vec<AesByte> = Vec::new();
        let mut j: usize = 0;
        while j < 16
            invariant
                j <= 16,
                iv@.len() == 16,
                bytes_wf(iv@),
                c1.wf(),
                c2.wf(),
                current_iv@.len() == j,
                forall|m: int| 0 <= m < j ==> (#[trigger] current_iv@[m]).wf()
                    && current_iv@[m].value() == bytes_value(iv@).update(
                    15,
                    c1.value(),
                ).update(14, c2.value())[m],
            decreases 16 - j,
        {
            if j == 15 {
                current_iv.push(c1.dup());
            } else if j == 14 {
                current_iv.push(c2.dup());
            } else {
                current_iv.push(iv[j].dup());
            }
            j = j + 1;
        }
        proof {
            assert(bytes_value(current_iv@) =~= bytes_value(iv@).update(15, c1.value()).update(
                14,
                c2.value(),
            ));
        }
        let c_n = self.encrypt_one_block_fhe(current_iv);
        xor_aes_byte_blocks(&self.server_key, block, &c_n)
    }

    /// CTR-mode encryption of a batch of blocks, each independently and in
    /// parallel: block `i` is XORed with the encryption of the IV stamped
    /// with counter material `i`.
    pub fn encrypt_ctr_mode_fhe(
        &self,
        blocks: Vec<Vec<AesByte>>,
        iv: Vec<AesByte>,
        counters_1: Vec<AesByte>,
        counters_2: Vec<AesByte>,
    ) -> (r: Vec<Vec<AesByte>>)
        requires
            self.wf(),
            blocks_wf(blocks@),
            iv@.len() == 16,
            bytes_wf(iv@),
            counters_1@.len() >= blocks@.len(),
            counters_2@.len() >= blocks@.len(),
            bytes_wf(counters_1@),
            bytes_wf(counters_2@),
        ensures
            r@.len() == blocks@.len(),
            blocks_wf(r@),
            forall|i: int| 0 <= i < blocks@.len() ==> bytes_value((#[trigger] r@[i])@)
                == xor_block_spec(
                bytes_value(blocks@[i]@),
                aes_block_spec(
                    self.key_plain(),
                    bytes_value(iv@).update(15, counters_1@[i].value()).update(
                        14,
                        counters_2@[i].value(),
                    ),
                ),
            ),
    {
        par_ctr_blocks(self, &blocks, &iv, &counters_1, &counters_2)
    }
}

/// Relies on rayon's order-preserving parallel map over the slice: the
/// closure applies the verified circuit evaluation to each byte
/// independently, and the results are collected in index order.
#[verifier::external_body]
fn par_sub_bytes(
    server_key: &tfhe::boolean::server_key::ServerKey,
    block: &Vec<AesByte>,
) -> (r: Vec<AesByte>)
    requires
        bytes_wf(block@),
    ensures
        r@.len() == block@.len(),
        bytes_wf(r@),
        forall|i: int| 0 <= i < block@.len() ==> r@[i].value() == sbox(block@[i].value()),
{
    rayon::iter::ParallelIterator::collect(rayon::iter::ParallelIterator::map(
        rayon::iter::IntoParallelRefIterator::par_iter(block),
        |x: &AesByte| x.sbox(server_key),
    ))
}

/// Relies on rayon's order-preserving parallel map over the block indices:
/// each index is handed to the verified per-block CTR step, whose results
/// are collected in index order.
#[verifier::external_body]
fn par_ctr_blocks(
    aes: &AesBoolean,
    blocks: &Vec<Vec<AesByte>>,
    iv: &Vec<AesByte>,
    counters_1: &Vec<AesByte>,
    counters_2: &Vec<AesByte>,
) -> (r: Vec<Vec<AesByte>>)
    requires
        aes.wf(),
        blocks_wf(blocks@),
        iv@.len() == 16,
        bytes_wf(iv@),
        counters_1@.len() >= blocks@.len(),
        counters_2@.len() >= blocks@.len(),
        bytes_wf(counters_1@),
        bytes_wf(counters_2@),
    ensures
        r@.len() == blocks@.len(),
        blocks_wf(r@),
        forall|i: int| 0 <= i < blocks@.len() ==> bytes_value((#[trigger] r@[i])@)
            == xor_block_spec(
            bytes_value(blocks@[i]@),
            aes_block_spec(
                aes.key_plain(),
                bytes_value(iv@).update(15, counters_1@[i].value()).update(
                    14,
                    counters_2@[i].value(),
                ),
            ),
        ),
{
    rayon::iter::ParallelIterator::collect(rayon::iter::ParallelIterator::map(
        rayon::iter::IntoParallelIterator::into_par_iter(0..blocks.len()),
        |i: usize| aes.ctr_block(&blocks[i], iv, &counters_1[i], &counters_2[i]),
    ))
}

} // verus!
