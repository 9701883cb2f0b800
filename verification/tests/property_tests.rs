use fhaes::fhaes::AES;
use fhaes::fhaes_boolean::AesBoolean;
use fhaes::fhaes_boolean::AesByte;
use fhaes::bool_ct::bit_trivial;
use fhaes::reference::cleartext_aes;
use fhaes::reference::cleartext_ctr;
use fhaes::sbox::sbox_lookup;
use fhaes::utils::byte_from_u8_trivial;
use fhaes::utils::encrypt_bytes;
use fhaes::utils::encrypt_trivial_bytes;
use fhaes::utils::generate_counters_trivial;
use fhaes::utils::key_expansion;
use fhaes::utils::try_decrypt_trivial_bytes;
use fhaes::utils::xor_aes_byte_blocks;
use fhaes::utils::AesError;


// Parameters for these tests only: every ciphertext below is a trivial
// encoding, so the key material is never exercised and only the time spent
// generating it matters; small dimensions keep that time negligible.
fn test_parameters() -> tfhe::shortint::ClassicPBSParameters {
    tfhe::shortint::ClassicPBSParameters {
        lwe_dimension: tfhe::core_crypto::prelude::LweDimension(512),
        glwe_dimension: tfhe::core_crypto::prelude::GlweDimension(1),
        polynomial_size: tfhe::core_crypto::prelude::PolynomialSize(512),
        ..tfhe::shortint::parameters::V0_11_PARAM_MESSAGE_2_CARRY_2_KS_PBS_GAUSSIAN_2M64
    }
}

fn boolean_engine(expanded_key: &[u8; 176], server_key: &tfhe::boolean::server_key::ServerKey) -> AesBoolean {
    let mut fhe_key: Vec<AesByte> = Vec::new();
    for x in expanded_key.iter() {
        fhe_key.push(byte_from_u8_trivial(server_key, *x));
    }
    let t = bit_trivial(server_key, true);
    let f = bit_trivial(server_key, false);
    AesBoolean::new(fhe_key, server_key.clone(), t, f)
}

fn trivial_block(server_key: &tfhe::boolean::server_key::ServerKey, bytes: &[u8]) -> Vec<AesByte> {
    let mut out: Vec<AesByte> = Vec::new();
    for x in bytes.iter() {
        out.push(byte_from_u8_trivial(server_key, *x));
    }
    out
}

fn decrypt_block(client_key: &tfhe::boolean::client_key::ClientKey, block: &[AesByte]) -> Vec<u8> {
    let mut out: Vec<u8> = Vec::new();
    for x in block.iter() {
        out.push(x.decrypt(client_key));
    }
    out
}

#[test]
fn sbox_circuit_matches_table_on_all_bytes() {
    let (client_key, server_key) = tfhe::boolean::gen_keys();
    for v in 0..=255u8 {
        let byte = byte_from_u8_trivial(&server_key, v);
        let substituted = byte.sbox(&server_key);
        assert_eq!(substituted.decrypt(&client_key), sbox_lookup(v));
    }
}

#[test]
fn mix_columns_reference_vectors_boolean() {
    let (client_key, server_key) = tfhe::boolean::gen_keys();
    let expanded_key = key_expansion(&[0u8; 16]);
    let engine = boolean_engine(&expanded_key, &server_key);
    let state: [u8; 16] = [
        0xdb, 0x13, 0x53, 0x45, 0xf2, 0x0a, 0x22, 0x5c, 0x01, 0x01, 0x01, 0x01, 0xc6, 0xc6, 0xc6,
        0xc6,
    ];
    let expected: [u8; 16] = [
        0x8e, 0x4d, 0xa1, 0xbc, 0x9f, 0xdc, 0x58, 0x9d, 0x01, 0x01, 0x01, 0x01, 0xc6, 0xc6, 0xc6,
        0xc6,
    ];
    let mixed = engine.mix_columns_fhe(&trivial_block(&server_key, &state));
    assert_eq!(decrypt_block(&client_key, &mixed), expected.to_vec());
}

#[test]
fn cross_implementation_boolean_vs_reference() {
    let key: [u8; 16] = [7, 1, 2, 3, 4, 5, 6, 7, 8, 9, 10, 11, 12, 13, 14, 255];
    let expanded_key = key_expansion(&key);
    let (client_key, server_key) = tfhe::boolean::gen_keys();
    let engine = boolean_engine(&expanded_key, &server_key);
    let mut plain = [0u8; 16];
    for (i, b) in plain.iter_mut().enumerate() {
        *b = (17 * i + 3) as u8;
    }
    let out = engine.encrypt_one_block_fhe(trivial_block(&server_key, &plain));
    let reference = cleartext_aes(key, plain);
    assert_eq!(decrypt_block(&client_key, &out), reference.to_vec());
}

#[test]
fn arith_engines_agree_with_reference() {
    let config = tfhe::ConfigBuilder::with_custom_parameters(test_parameters()).build();
    let key: [u8; 16] = [9, 8, 7, 6, 5, 4, 3, 2, 1, 0, 11, 22, 33, 44, 55, 66];
    let expanded_key = key_expansion(&key);
    let (_client_key, server_key) = tfhe::generate_keys(config);
    rayon::broadcast(|_| tfhe::set_server_key(server_key.clone()));
    tfhe::set_server_key(server_key.clone());
    let mut fhe_aes = AES::new(encrypt_trivial_bytes(&expanded_key));
    fhe_aes.set_aes_key(expanded_key);
    let mut plain = [0u8; 16];
    for (i, b) in plain.iter_mut().enumerate() {
        *b = (31 * i + 1) as u8;
    }
    let reference = cleartext_aes(key, plain);
    assert_eq!(fhe_aes.encrypt_one_block(plain), reference);
    let out = fhe_aes.encrypt_one_block_fhe(encrypt_trivial_bytes(&plain));
    assert_eq!(try_decrypt_trivial_bytes(&out).unwrap(), reference.to_vec());
}

#[test]
fn ctr_parallel_matches_sequential_blocks() {
    let key = [3u8; 16];
    let expanded_key = key_expansion(&key);
    let (client_key, server_key) = tfhe::boolean::gen_keys();
    let engine = boolean_engine(&expanded_key, &server_key);
    let mut iv = [9u8; 16];
    iv[15] = 0;
    iv[14] = 0;
    let mut blocks: Vec<Vec<AesByte>> = Vec::new();
    let mut block_bytes: Vec<[u8; 16]> = Vec::new();
    for n in 0..3u8 {
        let mut bytes = [0u8; 16];
        for (i, b) in bytes.iter_mut().enumerate() {
            *b = n.wrapping_mul(37).wrapping_add(i as u8);
        }
        block_bytes.push(bytes);
        blocks.push(trivial_block(&server_key, &bytes));
    }
    let (counter1, counter2) = generate_counters_trivial(&server_key, 3);
    let parallel = engine.encrypt_ctr_mode_fhe(
        blocks,
        trivial_block(&server_key, &iv),
        counter1,
        counter2,
    );
    for i in 0..3usize {
        let mut stamped = iv;
        stamped[15] = (i & 0xf) as u8;
        stamped[14] = ((i >> 4) & 0xf) as u8;
        let keystream = engine.encrypt_one_block_fhe(trivial_block(&server_key, &stamped));
        let sequential = xor_aes_byte_blocks(
            &server_key,
            &trivial_block(&server_key, &block_bytes[i]),
            &keystream,
        );
        assert_eq!(
            decrypt_block(&client_key, &parallel[i]),
            decrypt_block(&client_key, &sequential)
        );
    }
}

#[test]
fn ctr_counter_wraps_after_256_blocks() {
    let key = [0u8; 16];
    let expanded_key = key_expansion(&key);
    let (client_key, server_key) = tfhe::boolean::gen_keys();
    let engine = boolean_engine(&expanded_key, &server_key);
    let iv = [5u8; 16];
    let zero = [0u8; 16];
    let mut blocks: Vec<Vec<AesByte>> = Vec::new();
    for _ in 0..258usize {
        blocks.push(trivial_block(&server_key, &zero));
    }
    let (counter1, counter2) = generate_counters_trivial(&server_key, 258);
    let out = engine.encrypt_ctr_mode_fhe(
        blocks,
        trivial_block(&server_key, &iv),
        counter1,
        counter2,
    );
    assert_eq!(
        decrypt_block(&client_key, &out[0]),
        decrypt_block(&client_key, &out[256])
    );
    assert_eq!(
        decrypt_block(&client_key, &out[1]),
        decrypt_block(&client_key, &out[257])
    );
}

#[test]
fn cleartext_ctr_known_prefix() {
    let key = [0u8; 16];
    let mut iv = [1u8; 16];
    iv[15] = 0;
    iv[14] = 0;
    iv[13] = 0;
    iv[12] = 0;
    let mut block = [0u8; 16];
    for (i, b) in block.iter_mut().enumerate() {
        *b = i as u8;
    }
    let out = cleartext_ctr(key, vec![block, block], iv);
    assert_eq!(
        out[0].to_vec(),
        vec![163u8, 193, 189, 7, 149, 185, 73, 225, 2, 137, 78, 5, 233, 84, 234, 237]
    );
    assert_eq!(
        out[1].to_vec(),
        vec![200u8, 201, 182, 23, 199, 152, 198, 229, 185, 16, 179, 154, 41, 136, 210, 72]
    );
}

#[test]
fn cleartext_ctr_stamps_every_block_and_wraps() {
    let key = [11u8; 16];
    let mut iv = [2u8; 16];
    iv[15] = 7;
    iv[14] = 9;
    let zero = [0u8; 16];
    let mut blocks: Vec<[u8; 16]> = Vec::new();
    for _ in 0..258usize {
        blocks.push(zero);
    }
    let out = cleartext_ctr(key, blocks, iv);
    let mut stamped = iv;
    stamped[15] = 0;
    stamped[14] = 0;
    assert_eq!(out[0], cleartext_aes(key, stamped));
    assert_eq!(out[0], out[256]);
    assert_eq!(out[1], out[257]);
}

#[test]
fn non_trivial_ciphertext_reports_decryption_mismatch() {
    let config = tfhe::ConfigBuilder::with_custom_parameters(test_parameters()).build();
    let (client_key, server_key) = tfhe::generate_keys(config);
    tfhe::set_server_key(server_key);
    let secret = encrypt_bytes(&client_key, &[42u8]);
    assert_eq!(
        try_decrypt_trivial_bytes(&secret),
        Err(AesError::DecryptionMismatch)
    );
    let open = encrypt_trivial_bytes(&[42u8]);
    assert_eq!(try_decrypt_trivial_bytes(&open), Ok(vec![42u8]));
}

#[test]
fn key_schedule_helpers() {
    assert_eq!(fhaes::utils::rot_word(&[1u8, 2, 3, 4]), [2u8, 3, 4, 1]);
    assert_eq!(
        fhaes::utils::sub_word(&[0u8, 1, 2, 3]),
        [0x63u8, 0x7c, 0x77, 0x7b]
    );
    assert_eq!(sbox_lookup(0x53), 0xed);
}
