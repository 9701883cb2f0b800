//! Mathematical model of AES-128: the state transforms, the key schedule and
//! the CTR-mode composition, stated over sequences of plain bytes.
//!
//! Both cipher engines (the word-level arithmetic one and the bit-sliced
//! boolean one) are specified against these functions, which is what makes
//! their agreement a theorem rather than a coincidence.
use vstd::prelude::*;

verus! {

use crate::sbox::sbox;

// ----------------------------------------------------------------------------
// Bits and bytes
// ----------------------------------------------------------------------------

/// Bit `i` (0 = least significant) of the byte `v`.
pub open spec fn bit(v: u8, i: int) -> bool
    recommends
        0 <= i < 8,
{
    v >> (i as u8) & 1 == 1
}

/// The byte whose bits, least significant first, are `b0 .. b7`.
pub open spec fn byte_of_bits(
    b0: bool,
    b1: bool,
    b2: bool,
    b3: bool,
    b4: bool,
    b5: bool,
    b6: bool,
    b7: bool,
) -> u8 {
    ((if b0 { 1int } else { 0int }) + (if b1 { 2int } else { 0int }) + (if b2 { 4int } else { 0int })
        + (if b3 { 8int } else { 0int }) + (if b4 { 16int } else { 0int }) + (if b5 {
        32int
    } else {
        0int
    }) + (if b6 { 64int } else { 0int }) + (if b7 { 128int } else { 0int })) as u8
}

/// Reassembling the bits of a byte gives the byte back.
pub proof fn lemma_byte_of_bits_of_byte(v: u8)
    ensures
        byte_of_bits(bit(v, 0), bit(v, 1), bit(v, 2), bit(v, 3), bit(v, 4), bit(v, 5), bit(v, 6), bit(v, 7)) == v,
{
    assert(((if (v >> 0u8 & 1 == 1) { 1int } else { 0int }) + (if (v >> 1u8 & 1 == 1) { 2int } else { 0int })
        + (if (v >> 2u8 & 1 == 1) { 4int } else { 0int }) + (if (v >> 3u8 & 1 == 1) { 8int } else { 0int })
        + (if (v >> 4u8 & 1 == 1) { 16int } else { 0int }) + (if (v >> 5u8 & 1 == 1) { 32int } else { 0int })
        + (if (v >> 6u8 & 1 == 1) { 64int } else { 0int }) + (if (v >> 7u8 & 1 == 1) { 128int } else { 0int }))
        as u8 == v) by (bit_vector);
}

/// Each bit of a byte assembled from eight bits is the corresponding bit.
pub proof fn lemma_bits_of_byte_of_bits(
    b0: bool,
    b1: bool,
    b2: bool,
    b3: bool,
    b4: bool,
    b5: bool,
    b6: bool,
    b7: bool,
)
    ensures
        bit(byte_of_bits(b0, b1, b2, b3, b4, b5, b6, b7), 0) == b0,
        bit(byte_of_bits(b0, b1, b2, b3, b4, b5, b6, b7), 1) == b1,
        bit(byte_of_bits(b0, b1, b2, b3, b4, b5, b6, b7), 2) == b2,
        bit(byte_of_bits(b0, b1, b2, b3, b4, b5, b6, b7), 3) == b3,
        bit(byte_of_bits(b0, b1, b2, b3, b4, b5, b6, b7), 4) == b4,
        bit(byte_of_bits(b0, b1, b2, b3, b4, b5, b6, b7), 5) == b5,
        bit(byte_of_bits(b0, b1, b2, b3, b4, b5, b6, b7), 6) == b6,
        bit(byte_of_bits(b0, b1, b2, b3, b4, b5, b6, b7), 7) == b7,
{
    let v = byte_of_bits(b0, b1, b2, b3, b4, b5, b6, b7);
    assert({
        &&& v >> 0u8 & 1 == 1 <==> b0
        &&& v >> 1u8 & 1 == 1 <==> b1
        &&& v >> 2u8 & 1 == 1 <==> b2
        &&& v >> 3u8 & 1 == 1 <==> b3
        &&& v >> 4u8 & 1 == 1 <==> b4
        &&& v >> 5u8 & 1 == 1 <==> b5
        &&& v >> 6u8 & 1 == 1 <==> b6
        &&& v >> 7u8 & 1 == 1 <==> b7
    }) by (bit_vector)
        requires
            v == (((if b0 { 1int } else { 0int }) + (if b1 { 2int } else { 0int }) + (if b2 { 4int } else { 0int })
                + (if b3 { 8int } else { 0int }) + (if b4 { 16int } else { 0int }) + (if b5 { 32int } else { 0int })
                + (if b6 { 64int } else { 0int }) + (if b7 { 128int } else { 0int })) as u8),
    ;
}

/// XOR of two bytes is the bitwise XOR of their bits.
pub proof fn lemma_xor_of_bits(
    a0: bool, a1: bool, a2: bool, a3: bool, a4: bool, a5: bool, a6: bool, a7: bool,
    b0: bool, b1: bool, b2: bool, b3: bool, b4: bool, b5: bool, b6: bool, b7: bool,
)
    ensures
        byte_of_bits(a0 != b0, a1 != b1, a2 != b2, a3 != b3, a4 != b4, a5 != b5, a6 != b6, a7 != b7)
            == byte_of_bits(a0, a1, a2, a3, a4, a5, a6, a7) ^ byte_of_bits(b0, b1, b2, b3, b4, b5, b6, b7),
{
    let x = byte_of_bits(a0, a1, a2, a3, a4, a5, a6, a7);
    let y = byte_of_bits(b0, b1, b2, b3, b4, b5, b6, b7);
    let z = byte_of_bits(a0 != b0, a1 != b1, a2 != b2, a3 != b3, a4 != b4, a5 != b5, a6 != b6, a7 != b7);
    lemma_bits_of_byte_of_bits(a0, a1, a2, a3, a4, a5, a6, a7);
    lemma_bits_of_byte_of_bits(b0, b1, b2, b3, b4, b5, b6, b7);
    lemma_bits_of_byte_of_bits(a0 != b0, a1 != b1, a2 != b2, a3 != b3, a4 != b4, a5 != b5, a6 != b6, a7 != b7);
    assert(z == x ^ y) by (bit_vector)
        requires
            (x >> 0u8 & 1 == 1 <==> a0) && (x >> 1u8 & 1 == 1 <==> a1) && (x >> 2u8 & 1 == 1 <==> a2)
                && (x >> 3u8 & 1 == 1 <==> a3) && (x >> 4u8 & 1 == 1 <==> a4) && (x >> 5u8 & 1 == 1
                <==> a5) && (x >> 6u8 & 1 == 1 <==> a6) && (x >> 7u8 & 1 == 1 <==> a7),
            (y >> 0u8 & 1 == 1 <==> b0) && (y >> 1u8 & 1 == 1 <==> b1) && (y >> 2u8 & 1 == 1 <==> b2)
                && (y >> 3u8 & 1 == 1 <==> b3) && (y >> 4u8 & 1 == 1 <==> b4) && (y >> 5u8 & 1 == 1
                <==> b5) && (y >> 6u8 & 1 == 1 <==> b6) && (y >> 7u8 & 1 == 1 <==> b7),
            (z >> 0u8 & 1 == 1 <==> (a0 != b0)) && (z >> 1u8 & 1 == 1 <==> (a1 != b1)) && (z >> 2u8 & 1
                == 1 <==> (a2 != b2)) && (z >> 3u8 & 1 == 1 <==> (a3 != b3)) && (z >> 4u8 & 1 == 1
                <==> (a4 != b4)) && (z >> 5u8 & 1 == 1 <==> (a5 != b5)) && (z >> 6u8 & 1 == 1 <==> (a6
                != b6)) && (z >> 7u8 & 1 == 1 <==> (a7 != b7)),
    ;
}

/// Shifting a byte's bits up one position, injecting `false` at the bottom,
/// doubles the byte modulo 256.
pub proof fn lemma_shift_of_bits(
    a0: bool, a1: bool, a2: bool, a3: bool, a4: bool, a5: bool, a6: bool, a7: bool,
)
    ensures
        byte_of_bits(false, a0, a1, a2, a3, a4, a5, a6)
            == byte_of_bits(a0, a1, a2, a3, a4, a5, a6, a7) << 1u8,
{
    let x = byte_of_bits(a0, a1, a2, a3, a4, a5, a6, a7);
    let z = byte_of_bits(false, a0, a1, a2, a3, a4, a5, a6);
    lemma_bits_of_byte_of_bits(a0, a1, a2, a3, a4, a5, a6, a7);
    lemma_bits_of_byte_of_bits(false, a0, a1, a2, a3, a4, a5, a6);
    assert(z == x << 1u8) by (bit_vector)
        requires
            (x >> 0u8 & 1 == 1 <==> a0) && (x >> 1u8 & 1 == 1 <==> a1) && (x >> 2u8 & 1 == 1 <==> a2)
                && (x >> 3u8 & 1 == 1 <==> a3) && (x >> 4u8 & 1 == 1 <==> a4) && (x >> 5u8 & 1 == 1
                <==> a5) && (x >> 6u8 & 1 == 1 <==> a6) && (x >> 7u8 & 1 == 1 <==> a7),
            (z >> 0u8 & 1 == 1 <==> false) && (z >> 1u8 & 1 == 1 <==> a0) && (z >> 2u8 & 1 == 1 <==> a1)
                && (z >> 3u8 & 1 == 1 <==> a2) && (z >> 4u8 & 1 == 1 <==> a3) && (z >> 5u8 & 1 == 1
                <==> a4) && (z >> 6u8 & 1 == 1 <==> a5) && (z >> 7u8 & 1 == 1 <==> a6),
    ;
}

/// XOR with zero is the identity.
pub proof fn lemma_xor_zero(x: u8)
    ensures
        x ^ 0 == x,
{
    assert(x ^ 0 == x) by (bit_vector);
}

/// The top bit of a byte, as a mask test and as a shift.
pub proof fn lemma_top_bit(v: u8)
    ensures
        (v & 0x80 == 0x80) <==> (v >> 7u8 & 1 == 1),
{
    assert((v & 0x80 == 0x80) <==> (v >> 7u8 & 1 == 1)) by (bit_vector);
}

/// Regrouping a five-term XOR: the nested pairing the bit-sliced code uses
/// equals the left-to-right chain of the specification.
pub proof fn lemma_xor_regroup(a: u8, b: u8, c: u8, d: u8, e: u8)
    ensures
        ((a ^ b) ^ c) ^ (d ^ e) == (((a ^ b) ^ c) ^ d) ^ e,
{
    assert(((a ^ b) ^ c) ^ (d ^ e) == (((a ^ b) ^ c) ^ d) ^ e) by (bit_vector);
}

// ----------------------------------------------------------------------------
// The four round transforms
// ----------------------------------------------------------------------------

/// GF(2^8) multiplication by x: shift left, reduced by 0x1b when the top bit
/// of the input was set.
pub open spec fn xtime(b: u8) -> u8 {
    if b & 0x80 == 0x80 {
        (b << 1u8) ^ 0x1b
    } else {
        b << 1u8
    }
}

/// SubBytes: the fixed substitution applied to each of the 16 state bytes.
pub open spec fn sub_bytes_spec(s: Seq<u8>) -> Seq<u8> {
    Seq::new(16, |i: int| sbox(s[i]))
}

/// ShiftRows: row `r` of the column-major 4x4 state is rotated left by `r`.
pub open spec fn shift_rows_spec(s: Seq<u8>) -> Seq<u8> {
    Seq::new(16, |i: int| s[(i % 4) + 4 * ((i / 4 + i % 4) % 4)])
}

/// One output byte of MixColumns: position `r` of column `c` combines the
/// column's bytes through the MDS matrix, written with `xtime`.
pub open spec fn mix_byte(s: Seq<u8>, j: int) -> u8 {
    let c = j / 4;
    let r = j % 4;
    xtime(s[4 * c + r]) ^ s[4 * c + (r + 3) % 4] ^ s[4 * c + (r + 2) % 4] ^ xtime(
        s[4 * c + (r + 1) % 4],
    ) ^ s[4 * c + (r + 1) % 4]
}

/// MixColumns over the whole state.
pub open spec fn mix_columns_spec(s: Seq<u8>) -> Seq<u8> {
    Seq::new(16, |j: int| mix_byte(s, j))
}

/// AddRoundKey: byte-wise XOR with round key `round` of the 176-byte schedule.
pub open spec fn add_round_key_spec(s: Seq<u8>, ks: Seq<u8>, round: int) -> Seq<u8> {
    Seq::new(16, |i: int| s[i] ^ ks[16 * round + i])
}

// ----------------------------------------------------------------------------
// The ten-round block cipher
// ----------------------------------------------------------------------------

/// One middle round: SubBytes, ShiftRows, MixColumns, AddRoundKey(`t`).
pub open spec fn aes_round(s: Seq<u8>, ks: Seq<u8>, t: int) -> Seq<u8> {
    add_round_key_spec(mix_columns_spec(shift_rows_spec(sub_bytes_spec(s))), ks, t)
}

/// Rounds 1 ..= n applied in order to the state `s`.
pub open spec fn aes_rounds(s: Seq<u8>, ks: Seq<u8>, n: int) -> Seq<u8>
    decreases n,
{
    if n <= 0 {
        s
    } else {
        aes_round(aes_rounds(s, ks, n - 1), ks, n)
    }
}

/// AES-128 encryption of one 16-byte block under a 176-byte round-key
/// schedule: whitening, nine full rounds, and the final round without
/// MixColumns.
pub open spec fn aes_block_spec(ks: Seq<u8>, block: Seq<u8>) -> Seq<u8> {
    add_round_key_spec(
        shift_rows_spec(sub_bytes_spec(aes_rounds(add_round_key_spec(block, ks, 0), ks, 9))),
        ks,
        10,
    )
}

// ----------------------------------------------------------------------------
// Key schedule
// ----------------------------------------------------------------------------

/// Round constant for expansion step `j`, `0 <= j < 10`.
pub open spec fn rcon_spec(j: int) -> u8 {
    if j == 0 { 1 }
    else if j == 1 { 2 }
    else if j == 2 { 4 }
    else if j == 3 { 8 }
    else if j == 4 { 16 }
    else if j == 5 { 32 }
    else if j == 6 { 64 }
    else if j == 7 { 128 }
    else if j == 8 { 27 }
    else { 54 }
}

/// Byte `j` of the expanded key schedule for the 16-byte `key`.
///
/// Word `i = j / 4` copies the key for `i < 4`; for `i % 4 == 0` it combines
/// word `i - 4` with the substituted rotation of word `i - 1` and the round
/// constant; otherwise it is the XOR of words `i - 4` and `i - 1`.
pub open spec fn ks_byte(key: Seq<u8>, j: int) -> u8
    decreases j,
{
    if j < 16 {
        key[j]
    } else {
        let i = j / 4;
        let k = j % 4;
        if i % 4 == 0 {
            let core = sbox(ks_byte(key, 4 * (i - 1) + ((k + 1) % 4)));
            if k == 0 {
                ks_byte(key, j - 16) ^ core ^ rcon_spec(i / 4 - 1)
            } else {
                ks_byte(key, j - 16) ^ core
            }
        } else {
            ks_byte(key, j - 16) ^ ks_byte(key, j - 4)
        }
    }
}

/// The full 176-byte expanded schedule.
pub open spec fn key_expansion_spec(key: Seq<u8>) -> Seq<u8> {
    Seq::new(176, |j: int| ks_byte(key, j))
}

/// Left rotation of a four-byte word by one position.
pub open spec fn rot_word_spec(w: Seq<u8>) -> Seq<u8> {
    Seq::new(4, |i: int| w[(i + 1) % 4])
}

/// The substitution applied to each byte of a four-byte word.
pub open spec fn sub_word_spec(w: Seq<u8>) -> Seq<u8> {
    Seq::new(4, |i: int| sbox(w[i]))
}

// ----------------------------------------------------------------------------
// CTR mode
// ----------------------------------------------------------------------------

/// Byte-wise XOR of two 16-byte blocks.
pub open spec fn xor_block_spec(a: Seq<u8>, b: Seq<u8>) -> Seq<u8> {
    Seq::new(16, |i: int| a[i] ^ b[i])
}

/// The modified IV for block index `i`: the low counter nibble at byte 15 and
/// the high counter nibble at byte 14. Only 256 distinct values exist, so the
/// counter wraps after 256 blocks; see `lemma_counter_wraps_after_256`.
pub open spec fn ctr_iv(iv: Seq<u8>, i: int) -> Seq<u8> {
    iv.update(15, (i % 16) as u8).update(14, ((i / 16) % 16) as u8)
}

/// The keystream block for index `i`.
pub open spec fn ctr_keystream(ks: Seq<u8>, iv: Seq<u8>, i: int) -> Seq<u8> {
    aes_block_spec(ks, ctr_iv(iv, i))
}

/// CTR-mode encryption of `blocks`, one output per input, in index order.
pub open spec fn ctr_encrypt_spec(ks: Seq<u8>, iv: Seq<u8>, blocks: Seq<Seq<u8>>) -> Seq<Seq<u8>> {
    Seq::new(blocks.len(), |i: int| xor_block_spec(blocks[i], ctr_keystream(ks, iv, i)))
}

} // verus!
