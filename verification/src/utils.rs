//! Cleartext utilities around the engines: the AES-128 key schedule, and the
//! helpers that lift bytes into the bit-sliced ciphertext representation.
use vstd::prelude::*;

verus! {

use crate::arith_ct::FheByte;
use crate::arith_ct::bytes_plain;
use crate::arith_ct::bytes_trivial;
use crate::arith_ct::fhe_encrypt;
use crate::arith_ct::fhe_trivial;
use crate::arith_ct::fhe_try_decrypt_trivial;
use crate::arith_ct::fhe_xor;
use crate::bool_ct::AesBit;
use crate::bool_ct::bit_dup;
use crate::bool_ct::bit_encrypt;
use crate::bool_ct::bit_mux;
use crate::bool_ct::bit_trivial;
use crate::bool_ct::bit_xor;
use crate::fhaes_boolean::AesByte;
use crate::model::bit;
use crate::model::key_expansion_spec;
use crate::model::lemma_byte_of_bits_of_byte;
use crate::model::lemma_xor_of_bits;
use crate::model::xor_block_spec;
use crate::model::ks_byte;
use crate::model::rcon_spec;
use crate::model::rot_word_spec;
use crate::model::sub_word_spec;
use crate::sbox::sbox;
use crate::sbox::sbox_lookup;

/// Left-rotate a four-byte word by one position.
pub fn rot_word(word: &[u8]) -> (r: [u8; 4])
    requires
        word@.len() == 4,
    ensures
        r@ == rot_word_spec(word@),
{
    let mut result = [0u8; 4];
    let mut i: usize = 0;
    while i < 4
        invariant
            i <= 4,
            word@.len() == 4,
            forall|j: int| 0 <= j < i ==> result@[j] == rot_word_spec(word@)[j],
        decreases 4 - i,
    {
        if i != 3 {
            result[i] = word[i + 1];
        } else {
            result[i] = word[0];
        }
        i = i + 1;
    }
    assert(result@ =~= rot_word_spec(word@));
    result
}

/// Substitute each byte of a four-byte word through the fixed table.
pub fn sub_word(word: &[u8]) -> (r: [u8; 4])
    requires
        word@.len() == 4,
    ensures
        r@ == sub_word_spec(word@),
{
    let mut result = [0u8; 4];
    let mut i: usize = 0;
    while i < 4
        invariant
            i <= 4,
            word@.len() == 4,
            forall|j: int| 0 <= j < i ==> result@[j] == sub_word_spec(word@)[j],
        decreases 4 - i,
    {
        result[i] = sbox_lookup(word[i]);
        i = i + 1;
    }
    assert(result@ =~= sub_word_spec(word@));
    result
}

/// The substituted rotation at the heart of every fourth expansion word.
fn key_expand_core(word: &[u8]) -> (r: [u8; 4])
    requires
        word@.len() == 4,
    ensures
        r@ == sub_word_spec(rot_word_spec(word@)),
{
    let rot_result = rot_word(word);
    let sub_result = sub_word(&rot_result);
    sub_result
}

/// The round constant for expansion step `j`.
fn rcon_byte(j: usize) -> (r: u8)
    requires
        j < 10,
    ensures
        r == rcon_spec(j as int),
{
    if j == 0 { 1 }
    else if j == 1 { 2 }
    else if j == 2 { 4 }
    else if j == 3 { 8 }
    else if j == 4 { 16 }
    else if j == 5 { 32 }
    else if j == 6 { 64 }
    else if j == 7 { 128 }
    else if j == 8 { 27 }
    else { 54 }
}

/// Expand a 16-byte AES-128 key into the 176-byte round-key schedule.
#[verifier::rlimit(100)]
pub fn key_expansion(key: &[u8; 16]) -> (r: [u8; 176])
    ensures
        r@ == key_expansion_spec(key@),
{
    let mut expanded_key = [0u8; 176];
    let mut i: usize = 0;
    while i < 44
        invariant
            i <= 44,
            forall|j: int| 0 <= j < 4 * i ==> expanded_key@[j] == ks_byte(key@, j),
        decreases 44 - i,
    {
        if i < 4 {
            expanded_key[4 * i] = key[4 * i];
            expanded_key[4 * i + 1] = key[4 * i + 1];
            expanded_key[4 * i + 2] = key[4 * i + 2];
            expanded_key[4 * i + 3] = key[4 * i + 3];
        } else if i % 4 == 0 {
            let w = [
                expanded_key[4 * i - 4],
                expanded_key[4 * i - 3],
                expanded_key[4 * i - 2],
                expanded_key[4 * i - 1],
            ];
            let core_result = key_expand_core(&w);
            proof {
                assert forall|k: int| 0 <= k < 4 implies core_result@[k] == sbox(
                    ks_byte(key@, 4 * (i - 1) + ((k + 1) % 4)),
                ) by {
                    assert(rot_word_spec(w@)[k] == w@[(k + 1) % 4]);
                }
            }
            let rc = rcon_byte(i / 4 - 1);
            expanded_key[4 * i] = expanded_key[4 * i - 16] ^ core_result[0] ^ rc;
            expanded_key[4 * i + 1] = expanded_key[4 * i - 15] ^ core_result[1];
            expanded_key[4 * i + 2] = expanded_key[4 * i - 14] ^ core_result[2];
            expanded_key[4 * i + 3] = expanded_key[4 * i - 13] ^ core_result[3];
        } else {
            expanded_key[4 * i] = expanded_key[4 * i - 16] ^ expanded_key[4 * i - 4];
            expanded_key[4 * i + 1] = expanded_key[4 * i - 15] ^ expanded_key[4 * i - 3];
            expanded_key[4 * i + 2] = expanded_key[4 * i - 14] ^ expanded_key[4 * i - 2];
            expanded_key[4 * i + 3] = expanded_key[4 * i - 13] ^ expanded_key[4 * i - 1];
        }
        i = i + 1;
    }
    assert(expanded_key@ =~= key_expansion_spec(key@));
    expanded_key
}

/// An error the library reports to its caller.
#[derive(Clone, Copy, Debug, PartialEq, Eq)]
pub enum AesError {
    /// A ciphertext was decoded that does not hold a trivial encryption.
    DecryptionMismatch,
}

/// Sixteen trivial encryptions of zero: a blank arithmetic-engine block.
pub fn get_trivial_block() -> (r: Vec<FheByte>)
    ensures
        r@.len() == 16,
        forall|i: int| 0 <= i < 16 ==> r@[i].plain_byte() == 0,
        bytes_trivial(r@),
{
    let mut r: Vec<FheByte> = Vec::new();
    let mut i: usize = 0;
    while i < 16
        invariant
            i <= 16,
            r@.len() == i,
            forall|j: int| 0 <= j < i ==> r@[j].plain_byte() == 0,
            forall|j: int| 0 <= j < i ==> r@[j].is_trivial(),
        decreases 16 - i,
    {
        r.push(fhe_trivial(0));
        i = i + 1;
    }
    r
}

/// Lift clear bytes into trivial arithmetic-engine ciphertexts.
pub fn encrypt_trivial_bytes(xs: &[u8]) -> (r: Vec<FheByte>)
    ensures
        r@.len() == xs@.len(),
        bytes_plain(r@) == xs@,
        bytes_trivial(r@),
{
    let mut r: Vec<FheByte> = Vec::new();
    let mut i: usize = 0;
    while i < xs.len()
        invariant
            i <= xs@.len(),
            r@.len() == i,
            forall|j: int| 0 <= j < i ==> r@[j].plain_byte() == xs@[j],
            forall|j: int| 0 <= j < i ==> r@[j].is_trivial(),
        decreases xs@.len() - i,
    {
        r.push(fhe_trivial(xs[i]));
        i = i + 1;
    }
    proof {
        assert(bytes_plain(r@) =~= xs@);
    }
    r
}

/// Lift clear bytes into fresh arithmetic-engine encryptions under the
/// client key.
pub fn encrypt_bytes(ck: &tfhe::ClientKey, xs: &[u8]) -> (r: Vec<FheByte>)
    ensures
        r@.len() == xs@.len(),
        bytes_plain(r@) == xs@,
{
    let mut r: Vec<FheByte> = Vec::new();
    let mut i: usize = 0;
    while i < xs.len()
        invariant
            i <= xs@.len(),
            r@.len() == i,
            forall|j: int| 0 <= j < i ==> r@[j].plain_byte() == xs@[j],
        decreases xs@.len() - i,
    {
        r.push(fhe_encrypt(ck, xs[i]));
        i = i + 1;
    }
    proof {
        assert(bytes_plain(r@) =~= xs@);
    }
    r
}

/// Decode a vector of trivial arithmetic-engine ciphertexts; any
/// non-trivial ciphertext is reported as a decryption mismatch.
pub fn try_decrypt_trivial_bytes(v: &Vec<FheByte>) -> (r: Result<Vec<u8>, AesError>)
    ensures
        bytes_trivial(v@) ==> r is Ok,
        r matches Ok(xs) ==> xs@ == bytes_plain(v@),
{
    let mut out: Vec<u8> = Vec::new();
    let mut i: usize = 0;
    while i < v.len()
        invariant
            i <= v@.len(),
            out@.len() == i,
            forall|j: int| 0 <= j < i ==> out@[j] == v@[j].plain_byte(),
        decreases v@.len() - i,
    {
        match fhe_try_decrypt_trivial(&v[i]) {
            Ok(x) => { out.push(x); },
            Err(_) => { return Err(AesError::DecryptionMismatch); },
        }
        i = i + 1;
    }
    proof {
        assert(out@ =~= bytes_plain(v@));
    }
    Ok(out)
}

/// XOR two sixteen-byte arithmetic-engine blocks, byte for byte.
pub fn xor_blocks(a: &Vec<FheByte>, b: &Vec<FheByte>) -> (r: Vec<FheByte>)
    requires
        a@.len() == 16,
        b@.len() == 16,
    ensures
        r@.len() == 16,
        bytes_plain(r@) == xor_block_spec(bytes_plain(a@), bytes_plain(b@)),
        bytes_trivial(a@) && bytes_trivial(b@) ==> bytes_trivial(r@),
{
    let mut r: Vec<FheByte> = Vec::new();
    let mut i: usize = 0;
    while i < 16
        invariant
            i <= 16,
            a@.len() == 16,
            b@.len() == 16,
            r@.len() == i,
            forall|j: int| 0 <= j < i ==> r@[j].plain_byte() == (a@[j].plain_byte()
                ^ b@[j].plain_byte()),
            forall|j: int|
                0 <= j < i ==> (a@[j].is_trivial() && b@[j].is_trivial()
                    ==> r@[j].is_trivial()),
        decreases 16 - i,
    {
        r.push(fhe_xor(&a[i], &b[i]));
        i = i + 1;
    }
    proof {
        assert(bytes_plain(r@) =~= xor_block_spec(bytes_plain(a@), bytes_plain(b@)));
    }
    r
}

/// XOR two bit-sliced bytes, bit for bit.
pub fn xor_aes_byte(
    server_key: &tfhe::boolean::server_key::ServerKey,
    a: &AesByte,
    b: &AesByte,
) -> (r: AesByte)
    requires
        a.wf(),
        b.wf(),
    ensures
        r.wf(),
        r.value() == (a.value() ^ b.value()),
{
    let a_bits = a.get_bits();
    let b_bits = b.get_bits();
    let mut result_bits: Vec<AesBit> = Vec::new();
    let mut i: usize = 0;
    while i < 8
        invariant
            i <= 8,
            a_bits@.len() == 8,
            b_bits@.len() == 8,
            forall|j: int| 0 <= j < 8 ==> a_bits@[j].plain_bit() == a.bit_at(j),
            forall|j: int| 0 <= j < 8 ==> b_bits@[j].plain_bit() == b.bit_at(j),
            result_bits@.len() == i,
            forall|j: int| 0 <= j < i ==> result_bits@[j].plain_bit() == (a.bit_at(j)
                != b.bit_at(j)),
        decreases 8 - i,
    {
        result_bits.push(bit_xor(server_key, &a_bits[i], &b_bits[i]));
        i = i + 1;
    }
    let r = AesByte::new(result_bits);
    proof {
        crate::fhaes_boolean::lemma_value_bits(*a);
        crate::fhaes_boolean::lemma_value_bits(*b);
        crate::fhaes_boolean::lemma_value_bits(r);
        lemma_xor_of_bits(
            a.bit_at(0), a.bit_at(1), a.bit_at(2), a.bit_at(3),
            a.bit_at(4), a.bit_at(5), a.bit_at(6), a.bit_at(7),
            b.bit_at(0), b.bit_at(1), b.bit_at(2), b.bit_at(3),
            b.bit_at(4), b.bit_at(5), b.bit_at(6), b.bit_at(7),
        );
    }
    r
}

/// The reduction constant 0x1b, injected bit by bit behind the multiplexer
/// condition `h`: the value is 0x1b when `h` holds and 0 otherwise, and no
/// gate reveals which.
pub fn mix_mux_gate(
    server_key: &tfhe::boolean::server_key::ServerKey,
    h: &AesBit,
    t: &AesBit,
    f: &AesBit,
) -> (r: AesByte)
    requires
        t.plain_bit() == true,
        f.plain_bit() == false,
    ensures
        r.wf(),
        r.value() == (if h.plain_bit() { 0x1b } else { 0u8 }),
{
    let mut result_bits: Vec<AesBit> = Vec::new();
    let c0 = bit_dup(f);
    let c1 = bit_dup(f);
    let c2 = bit_dup(f);
    let c3 = bit_mux(server_key, h, t, f);
    let c4 = bit_mux(server_key, h, t, f);
    let c5 = bit_dup(f);
    let c6 = bit_mux(server_key, h, t, f);
    let c7 = bit_mux(server_key, h, t, f);
    result_bits.push(c7);
    result_bits.push(c6);
    result_bits.push(c5);
    result_bits.push(c4);
    result_bits.push(c3);
    result_bits.push(c2);
    result_bits.push(c1);
    result_bits.push(c0);
    let r = AesByte::new(result_bits);
    proof {
        crate::fhaes_boolean::lemma_value_bits(r);
    }
    r
}

/// Lift a clear byte into a bit-sliced encryption under the client key.
pub fn byte_from_u8(client_key: &tfhe::boolean::client_key::ClientKey, input: u8) -> (r: AesByte)
    ensures
        r.wf(),
        r.value() == input,
{
    let mut result_bits: Vec<AesBit> = Vec::new();
    let mut i: usize = 0;
    while i < 8
        invariant
            i <= 8,
            result_bits@.len() == i,
            forall|j: int| 0 <= j < i ==> result_bits@[j].plain_bit() == bit(input, j),
        decreases 8 - i,
    {
        let b = ((input >> (i as u8)) & 1) == 1;
        result_bits.push(bit_encrypt(client_key, b));
        i = i + 1;
    }
    let r = AesByte::new(result_bits);
    proof {
        crate::fhaes_boolean::lemma_value_bits(r);
        lemma_byte_of_bits_of_byte(input);
    }
    r
}

/// Lift a clear byte into a trivial bit-sliced encoding.
pub fn byte_from_u8_trivial(
    server_key: &tfhe::boolean::server_key::ServerKey,
    input: u8,
) -> (r: AesByte)
    ensures
        r.wf(),
        r.value() == input,
{
    let mut result_bits: Vec<AesBit> = Vec::new();
    let mut i: usize = 0;
    while i < 8
        invariant
            i <= 8,
            result_bits@.len() == i,
            forall|j: int| 0 <= j < i ==> result_bits@[j].plain_bit() == bit(input, j),
        decreases 8 - i,
    {
        let b = ((input >> (i as u8)) & 1) == 1;
        result_bits.push(bit_trivial(server_key, b));
        i = i + 1;
    }
    let r = AesByte::new(result_bits);
    proof {
        crate::fhaes_boolean::lemma_value_bits(r);
        lemma_byte_of_bits_of_byte(input);
    }
    r
}

/// XOR two sixteen-byte bit-sliced blocks, byte for byte.
pub fn xor_aes_byte_blocks(
    server_key: &tfhe::boolean::server_key::ServerKey,
    a: &Vec<AesByte>,
    b: &Vec<AesByte>,
) -> (r: Vec<AesByte>)
    requires
        a@.len() == 16,
        b@.len() == 16,
        crate::fhaes_boolean::bytes_wf(a@),
        crate::fhaes_boolean::bytes_wf(b@),
    ensures
        r@.len() == 16,
        crate::fhaes_boolean::bytes_wf(r@),
        crate::fhaes_boolean::bytes_value(r@) == xor_block_spec(
            crate::fhaes_boolean::bytes_value(a@),
            crate::fhaes_boolean::bytes_value(b@),
        ),
{
    let mut r: Vec<AesByte> = Vec::new();
    let mut i: usize = 0;
    while i < 16
        invariant
            i <= 16,
            a@.len() == 16,
            b@.len() == 16,
            crate::fhaes_boolean::bytes_wf(a@),
            crate::fhaes_boolean::bytes_wf(b@),
            r@.len() == i,
            forall|j: int| 0 <= j < i ==> (#[trigger] r@[j]).wf(),
            forall|j: int| 0 <= j < i ==> r@[j].value() == (a@[j].value() ^ b@[j].value()),
        decreases 16 - i,
    {
        r.push(xor_aes_byte(server_key, &a[i], &b[i]));
        i = i + 1;
    }
    proof {
        assert(crate::fhaes_boolean::bytes_value(r@) =~= xor_block_spec(
            crate::fhaes_boolean::bytes_value(a@),
            crate::fhaes_boolean::bytes_value(b@),
        ));
    }
    r
}

/// The per-block counter material for CTR mode: for each block index, the
/// low counter nibble and the high counter nibble, each as a bit-sliced
/// byte encrypted under the client key.
pub fn generate_counters(
    client_key: &tfhe::boolean::client_key::ClientKey,
    num_blocks: u16,
) -> (r: (Vec<AesByte>, Vec<AesByte>))
    ensures
        r.0@.len() == num_blocks,
        r.1@.len() == num_blocks,
        crate::fhaes_boolean::bytes_wf(r.0@),
        crate::fhaes_boolean::bytes_wf(r.1@),
        forall|i: int| 0 <= i < num_blocks ==> r.0@[i].value() == (i % 16) as u8,
        forall|i: int| 0 <= i < num_blocks ==> r.1@[i].value() == ((i / 16) % 16) as u8,
{
    let mut counter1: Vec<AesByte> = Vec::new();
    let mut counter2: Vec<AesByte> = Vec::new();
    let mut x: u16 = 0;
    while x < num_blocks
        invariant
            x <= num_blocks,
            counter1@.len() == x,
            counter2@.len() == x,
            forall|i: int| 0 <= i < x ==> (#[trigger] counter1@[i]).wf(),
            forall|i: int| 0 <= i < x ==> counter1@[i].value() == (i % 16) as u8,
            forall|i: int| 0 <= i < x ==> (#[trigger] counter2@[i]).wf(),
            forall|i: int| 0 <= i < x ==> counter2@[i].value() == ((i / 16) % 16) as u8,
        decreases num_blocks - x,
    {
        proof {
            lemma_u16_nibbles(x);
        }
        counter1.push(byte_from_u8(client_key, (x & 0xf) as u8));
        counter2.push(byte_from_u8(client_key, ((x >> 4u16) & 0xf) as u8));
        x = x + 1;
    }
    (counter1, counter2)
}

/// Trivial counter material, for evaluation over trivial ciphertexts.
pub fn generate_counters_trivial(
    server_key: &tfhe::boolean::server_key::ServerKey,
    num_blocks: u16,
) -> (r: (Vec<AesByte>, Vec<AesByte>))
    ensures
        r.0@.len() == num_blocks,
        r.1@.len() == num_blocks,
        crate::fhaes_boolean::bytes_wf(r.0@),
        crate::fhaes_boolean::bytes_wf(r.1@),
        forall|i: int| 0 <= i < num_blocks ==> r.0@[i].value() == (i % 16) as u8,
        forall|i: int| 0 <= i < num_blocks ==> r.1@[i].value() == ((i / 16) % 16) as u8,
{
    let mut counter1: Vec<AesByte> = Vec::new();
    let mut counter2: Vec<AesByte> = Vec::new();
    let mut x: u16 = 0;
    while x < num_blocks
        invariant
            x <= num_blocks,
            counter1@.len() == x,
            counter2@.len() == x,
            forall|i: int| 0 <= i < x ==> (#[trigger] counter1@[i]).wf(),
            forall|i: int| 0 <= i < x ==> counter1@[i].value() == (i % 16) as u8,
            forall|i: int| 0 <= i < x ==> (#[trigger] counter2@[i]).wf(),
            forall|i: int| 0 <= i < x ==> counter2@[i].value() == ((i / 16) % 16) as u8,
        decreases num_blocks - x,
    {
        proof {
            lemma_u16_nibbles(x);
        }
        counter1.push(byte_from_u8_trivial(server_key, (x & 0xf) as u8));
        counter2.push(byte_from_u8_trivial(server_key, ((x >> 4u16) & 0xf) as u8));
        x = x + 1;
    }
    (counter1, counter2)
}

/// The two counter nibbles of a block index, as modulus and division.
proof fn lemma_u16_nibbles(x: u16)
    ensures
        (x & 0xf) as u8 == (x as int % 16) as u8,
        ((x >> 4u16) & 0xf) as u8 == ((x as int / 16) % 16) as u8,
{
    assert((x & 0xf) as u8 == (x as int % 16) as u8 && ((x >> 4u16) & 0xf) as u8 == ((x as int
        / 16) % 16) as u8) by (bit_vector);
}


} // verus!
