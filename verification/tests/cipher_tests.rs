use fhaes::fhaes::AES;
use fhaes::fhaes_boolean::AesBoolean;
use fhaes::fhaes_boolean::AesByte;
use fhaes::bool_ct::bit_trivial;
use fhaes::utils::byte_from_u8_trivial;
use fhaes::utils::encrypt_trivial_bytes;
use fhaes::utils::generate_counters_trivial;
use fhaes::utils::key_expansion;
use fhaes::utils::try_decrypt_trivial_bytes;


// Parameters for these tests only: every ciphertext below is a trivial
// encoding, so the key material is never exercised and only the time spent
// generating it matters; small dimensions keep that time negligible.
fn test_parameters() -> tfhe::shortint::ClassicPBSParameters {
    tfhe::shortint::ClassicPBSParameters {
        lwe_dimension: tfhe::core_crypto::prelude::LweDimension(512),
        glwe_dimension: tfhe::core_crypto::prelude::GlweDimension(1),
        polynomial_size: tfhe::core_crypto::prelude::PolynomialSize(512),
        ..tfhe::shortint::parameters::V0_11_PARAM_MESSAGE_2_CARRY_2_KS_PBS_GAUSSIAN_2M64
    }
}

#[test]
fn it_works() {
    let result = fhaes::add(2, 2);
    assert_eq!(result, 4);
}

#[test]
fn key_expansion_test() {
    let key = [1u8; 16];
    let expected_result = [1, 1, 1, 1, 1, 1, 1, 1, 1, 1, 1, 1, 1, 1, 1, 1,
        124, 125, 125, 125, 125, 124, 124, 124, 124, 125, 125, 125, 125,
        124, 124, 124, 110, 109, 109, 130, 19, 17, 17, 254, 111, 108, 108,
        131, 18, 16, 16, 255, 160, 167, 123, 75, 179, 182, 106, 181, 220,
        218, 6, 54, 206, 202, 22, 201, 220, 224, 166, 192, 111, 86, 204,
        117, 179, 140, 202, 67, 125, 70, 220, 138, 150, 102, 216, 63, 249,
        48, 20, 74, 74, 188, 222, 9, 55, 250, 2, 131, 155, 17, 52, 165, 98,
        33, 32, 239, 40, 157, 254, 230, 31, 103, 252, 101, 94, 161, 121, 101,
        60, 128, 89, 138, 20, 29, 167, 108, 11, 122, 91, 9, 4, 152, 120, 78,
        56, 24, 33, 196, 44, 5, 134, 168, 39, 127, 221, 161, 205, 89, 74, 130,
        245, 65, 107, 70, 217, 68, 237, 238, 254, 59, 48, 79, 25, 93, 206, 57,
        236, 28, 165, 127, 53, 88, 72, 145, 203, 99, 120, 222];
    let expanded_key = key_expansion(&key);
    assert_eq!(expanded_key, expected_result);
}

#[test]
fn aes_encrypt_one_block_fhe() {
    let config = tfhe::ConfigBuilder::with_custom_parameters(test_parameters()).build();
    let key = [0u8; 16];
    let expanded_key = key_expansion(&key);
    let (_client_key, server_key) = tfhe::generate_keys(config);
    rayon::broadcast(|_| tfhe::set_server_key(server_key.clone()));
    tfhe::set_server_key(server_key.clone());
    let fhe_key_aes = encrypt_trivial_bytes(&expanded_key);
    let mut fhe_aes = AES::new(fhe_key_aes);
    let mut block = [0u8; 16];
    for (i, b) in block.iter_mut().enumerate() {
        *b = i as u8;
    }
    let block_enc = encrypt_trivial_bytes(&block);
    fhe_aes.set_aes_key(expanded_key);
    let sub_clear = fhe_aes.encrypt_one_block(block);
    println!("sub clear: {:?}", sub_clear);
    let sub_fhe = try_decrypt_trivial_bytes(&fhe_aes.encrypt_one_block_fhe(block_enc)).unwrap();
    assert_eq!(sub_clear.to_vec(), sub_fhe);
}

#[test]
fn aes_ctr_test() {
    let config = tfhe::ConfigBuilder::with_custom_parameters(test_parameters()).build();
    let key = [0u8; 16];
    let expanded_key = key_expansion(&key);
    let (_client_key, server_key) = tfhe::generate_keys(config);
    rayon::broadcast(|_| tfhe::set_server_key(server_key.clone()));
    tfhe::set_server_key(server_key.clone());
    let fhe_key_aes = encrypt_trivial_bytes(&expanded_key);
    let mut fhe_aes = AES::new(fhe_key_aes);
    let mut iv = [1u8; 16];
    iv[15] = 0u8;
    iv[14] = 0u8;
    iv[13] = 0u8;
    iv[12] = 0u8;
    let iv_fhe = encrypt_trivial_bytes(&iv);
    let mut block = [0u8; 16];
    for (i, b) in block.iter_mut().enumerate() {
        *b = i as u8;
    }
    let block_enc = encrypt_trivial_bytes(&block);
    let block_enc_two = encrypt_trivial_bytes(&block);
    let blocks_fhe = vec![block_enc, block_enc_two];
    let blocks = vec![block, block];

    fhe_aes.set_aes_key(expanded_key);
    let ctr_enc = fhe_aes.encrypt_ctr_mode(blocks, iv);
    let ctr_enc_fhe_raw = fhe_aes.encrypt_ctr_mode_fhe(blocks_fhe, iv_fhe);
    let mut ctr_enc_fhe: Vec<Vec<u8>> = Vec::new();
    for b in ctr_enc_fhe_raw.iter() {
        ctr_enc_fhe.push(try_decrypt_trivial_bytes(b).unwrap());
    }
    println!("Decrypted ciphertext: {:?}", ctr_enc);
    for i in 0..ctr_enc.len() {
        assert_eq!(ctr_enc[i].to_vec(), ctr_enc_fhe[i]);
    }
}

#[test]
fn aes_encrypt_one_block_boolfhe() {
    let key = [0u8; 16];
    let expanded_key = key_expansion(&key);
    let (client_key, server_key) = tfhe::boolean::gen_keys();
    let mut fhe_key_aes: Vec<AesByte> = Vec::new();
    for x in expanded_key.iter() {
        fhe_key_aes.push(byte_from_u8_trivial(&server_key, *x));
    }
    let t = bit_trivial(&server_key, true);
    let f = bit_trivial(&server_key, false);
    let fhe_aes = AesBoolean::new(fhe_key_aes, server_key.clone(), t, f);
    let mut block_enc: Vec<AesByte> = Vec::new();
    for i in 0..16u8 {
        block_enc.push(byte_from_u8_trivial(&server_key, i));
    }
    let out = fhe_aes.encrypt_one_block_fhe(block_enc);
    let mut sub_fhe: Vec<u8> = Vec::new();
    for x in out.iter() {
        sub_fhe.push(x.decrypt(&client_key));
    }
    println!("fhe result bool: {:?}", sub_fhe)
}

#[test]
fn aes_encrypt_ctr_boolfhe() {
    let key = [0u8; 16];
    let expanded_key = key_expansion(&key);
    let (client_key, server_key) = tfhe::boolean::gen_keys();
    let mut fhe_key_aes: Vec<AesByte> = Vec::new();
    for x in expanded_key.iter() {
        fhe_key_aes.push(byte_from_u8_trivial(&server_key, *x));
    }
    let mut iv = [1u8; 16];
    iv[15] = 0u8;
    iv[14] = 0u8;
    iv[13] = 0u8;
    iv[12] = 0u8;

    let mut iv_fhe: Vec<AesByte> = Vec::new();
    for x in iv.iter() {
        iv_fhe.push(byte_from_u8_trivial(&server_key, *x));
    }
    let t = bit_trivial(&server_key, true);
    let f = bit_trivial(&server_key, false);
    let fhe_aes = AesBoolean::new(fhe_key_aes, server_key.clone(), t, f);
    let mut block_enc: Vec<AesByte> = Vec::new();
    let mut block_two: Vec<AesByte> = Vec::new();
    for i in 0..16u8 {
        block_enc.push(byte_from_u8_trivial(&server_key, i));
        block_two.push(byte_from_u8_trivial(&server_key, i));
    }
    let blocks = vec![block_enc, block_two];
    let (counter1, counter2) = generate_counters_trivial(&server_key, 2);
    let encrypted_blocks = fhe_aes.encrypt_ctr_mode_fhe(blocks, iv_fhe, counter1, counter2);
    let mut decoded_encryption: Vec<Vec<u8>> = Vec::new();
    for b in encrypted_blocks.iter() {
        let mut row: Vec<u8> = Vec::new();
        for x in b.iter() {
            row.push(x.decrypt(&client_key));
        }
        decoded_encryption.push(row);
    }
    println!("fhe result bool: {:?}", decoded_encryption);
    assert_eq!(vec![vec![163u8, 193, 189, 7, 149, 185, 73, 225, 2, 137, 78, 5, 233, 84, 234, 237], vec![200u8, 201, 182, 23, 199, 152, 198, 229, 185, 16, 179, 154, 41, 136, 210, 72]], decoded_encryption);
}
