use player_core::des::{
    des_crypt, des_key_setup, generate_sp_tables, inv_ip, ip, sboxbit, three_des_crypt,
    three_des_key_setup, DesMode,
};
use player_core::qdec::TripleQDES;

#[test]
fn test_des_encrypt_decrypt() {
    let key = [0x01, 0x23, 0x45, 0x67, 0x89, 0xAB, 0xCD, 0xEF];
    let plaintext = [0x01, 0x23, 0x45, 0x67, 0x89, 0xAB, 0xCD, 0xEF];

    let encrypt_schedule = des_key_setup(&key, DesMode::Encrypt);
    let decrypt_schedule = des_key_setup(&key, DesMode::Decrypt);

    let ciphertext = des_crypt(&plaintext, &encrypt_schedule);
    let decrypted = des_crypt(&ciphertext, &decrypt_schedule);

    assert_eq!(plaintext, decrypted);
}

#[test]
fn test_three_des() {
    let key = [
        0x01, 0x23, 0x45, 0x67, 0x89, 0xAB, 0xCD, 0xEF, 0xFE, 0xDC, 0xBA, 0x98, 0x76, 0x54, 0x32,
        0x10, 0x89, 0xAB, 0xCD, 0xEF, 0x01, 0x23, 0x45, 0x67,
    ];
    let plaintext = [0x01, 0x23, 0x45, 0x67, 0x89, 0xAB, 0xCD, 0xEF];

    let encrypt_schedule = three_des_key_setup(&key, DesMode::Encrypt);
    let decrypt_schedule = three_des_key_setup(&key, DesMode::Decrypt);

    let mut ciphertext = plaintext;
    three_des_crypt(&mut ciphertext, &encrypt_schedule);

    let mut decrypted = ciphertext;
    three_des_crypt(&mut decrypted, &decrypt_schedule);

    assert_eq!(plaintext, decrypted);
}

#[test]
fn des_ciphertext_differs_from_plaintext() {
    let key = [0x13, 0x34, 0x57, 0x79, 0x9B, 0xBC, 0xDF, 0xF1];
    let plaintext = [0x00, 0x11, 0x22, 0x33, 0x44, 0x55, 0x66, 0x77];
    let schedule = des_key_setup(&key, DesMode::Encrypt);
    let ciphertext = des_crypt(&plaintext, &schedule);
    assert_ne!(plaintext, ciphertext);
}

#[test]
fn ip_and_inv_ip_are_inverses() {
    let blocks = [
        [0u8, 0, 0, 0, 0, 0, 0, 0],
        [0xFF, 0xFF, 0xFF, 0xFF, 0xFF, 0xFF, 0xFF, 0xFF],
        [0x01, 0x23, 0x45, 0x67, 0x89, 0xAB, 0xCD, 0xEF],
        [0x80, 0x00, 0x00, 0x01, 0x7F, 0x10, 0x02, 0x40],
    ];
    for block in blocks.iter() {
        let state = ip(block);
        let back = inv_ip(state);
        assert_eq!(*block, back);
    }
}

#[test]
fn sboxbit_rearranges_six_bits() {
    // 0b101010: outer bits (0b100000 kept, 0b000000 low) select the row,
    // inner bits the column.
    assert_eq!(sboxbit(0b10_1010), 0b10_0101);
    assert_eq!(sboxbit(0), 0);
    assert_eq!(sboxbit(0b11_1111), 0b11_1111);
}

#[test]
fn sp_tables_have_eight_rows_of_64() {
    let tables = generate_sp_tables();
    assert_eq!(tables.len(), 8);
    for row in tables.iter() {
        assert_eq!(row.len(), 64);
    }
}

#[test]
fn triple_qdes_round_trip() {
    let key: Vec<u8> = (0u8..24).collect();
    let enc = TripleQDES::new(&key, false);
    let dec = TripleQDES::new(&key, true);

    let mut block = [0x10, 0x32, 0x54, 0x76, 0x98, 0xBA, 0xDC, 0xFE];
    let original = block;
    enc.crypt_inplace(&mut block);
    assert_ne!(block, original);
    dec.crypt_inplace(&mut block);
    assert_eq!(block, original);
}

#[test]
fn des_key_schedule_reverses_for_decryption() {
    let key = [0x01, 0x23, 0x45, 0x67, 0x89, 0xAB, 0xCD, 0xEF];
    let enc = des_key_setup(&key, DesMode::Encrypt);
    let dec = des_key_setup(&key, DesMode::Decrypt);
    for i in 0..16 {
        assert_eq!(enc[i], dec[15 - i]);
    }
}
