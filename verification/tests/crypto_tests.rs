use savedata_resigner::crypto::{IdCrypto, NONCE_AND_TAG_TOTAL_LENGTH};
use savedata_resigner::errors::ErrorKind;

const ID: &str = "76561197960265728";
const OTHER_ID: &str = "76561197960265999";
const CODE: &str = "SUKHOTHAI";
const NAME: &str = "slot0.bin";

#[test]
fn encrypt_frames_nonce_ciphertext_tag() {
    let plain = b"hello savegame".to_vec();
    let blob = IdCrypto::encrypt_file(&plain, NAME, CODE, ID).unwrap();
    assert_eq!(blob.len(), plain.len() + NONCE_AND_TAG_TOTAL_LENGTH);
}

#[test]
fn round_trip_recovers_plaintext() {
    let plain: Vec<u8> = (0u32..1000).map(|i| (i * 7 % 251) as u8).collect();
    let blob = IdCrypto::encrypt_file(&plain, NAME, CODE, ID).unwrap();
    let back = IdCrypto::decrypt_file(&blob, NAME, CODE, ID).unwrap();
    assert_eq!(back, plain);
}

#[test]
fn round_trip_of_empty_plaintext() {
    let blob = IdCrypto::encrypt_file(&[], NAME, CODE, ID).unwrap();
    assert_eq!(blob.len(), NONCE_AND_TAG_TOTAL_LENGTH);
    let back = IdCrypto::decrypt_file(&blob, NAME, CODE, ID).unwrap();
    assert!(back.is_empty());
}

#[test]
fn decrypt_with_wrong_identity_fails_authentication() {
    let plain = b"secret".to_vec();
    let blob = IdCrypto::encrypt_file(&plain, NAME, CODE, ID).unwrap();
    // One character changed in the identity.
    let r = IdCrypto::decrypt_file(&blob, NAME, CODE, "76561197960265729");
    assert_eq!(r, Err(ErrorKind::AuthenticationFailed));
}

#[test]
fn decrypt_with_wrong_title_code_fails_authentication() {
    let plain = b"secret".to_vec();
    let blob = IdCrypto::encrypt_file(&plain, NAME, CODE, ID).unwrap();
    let r = IdCrypto::decrypt_file(&blob, NAME, "SUKHOTHAJ", ID);
    assert_eq!(r, Err(ErrorKind::AuthenticationFailed));
}

#[test]
fn decrypt_with_wrong_file_name_fails_authentication() {
    let plain = b"secret".to_vec();
    let blob = IdCrypto::encrypt_file(&plain, NAME, CODE, ID).unwrap();
    let r = IdCrypto::decrypt_file(&blob, "slot1.bin", CODE, ID);
    assert_eq!(r, Err(ErrorKind::AuthenticationFailed));
}

#[test]
fn decrypt_of_corrupted_blob_fails_authentication() {
    let plain = b"secret".to_vec();
    let mut blob = IdCrypto::encrypt_file(&plain, NAME, CODE, ID).unwrap();
    let mid = blob.len() / 2;
    blob[mid] ^= 0x01;
    let r = IdCrypto::decrypt_file(&blob, NAME, CODE, ID);
    assert_eq!(r, Err(ErrorKind::AuthenticationFailed));
}

#[test]
fn decrypt_of_short_input_is_malformed() {
    let r = IdCrypto::decrypt_file(&[0u8; 27], NAME, CODE, ID);
    assert_eq!(r, Err(ErrorKind::MalformedInput));
    let r = IdCrypto::decrypt_file(&[], NAME, CODE, ID);
    assert_eq!(r, Err(ErrorKind::MalformedInput));
}

#[test]
fn decrypt_of_garbage_of_full_length_fails_authentication() {
    let r = IdCrypto::decrypt_file(&[0u8; 64], NAME, CODE, ID);
    assert_eq!(r, Err(ErrorKind::AuthenticationFailed));
}

#[test]
fn resign_moves_blob_to_new_identity() {
    let plain = b"progress at level 9".to_vec();
    let blob = IdCrypto::encrypt_file(&plain, NAME, CODE, ID).unwrap();
    let moved = IdCrypto::resign_file(&blob, NAME, CODE, ID, OTHER_ID).unwrap();
    assert_eq!(moved.len(), blob.len());
    // Equal to encrypt-then-decrypt-with-the-new-identity producing back the plaintext.
    let back = IdCrypto::decrypt_file(&moved, NAME, CODE, OTHER_ID).unwrap();
    assert_eq!(back, plain);
    // The old identity no longer opens it.
    assert_eq!(
        IdCrypto::decrypt_file(&moved, NAME, CODE, ID),
        Err(ErrorKind::AuthenticationFailed)
    );
}

#[test]
fn resign_with_wrong_old_identity_fails() {
    let plain = b"progress".to_vec();
    let blob = IdCrypto::encrypt_file(&plain, NAME, CODE, ID).unwrap();
    let r = IdCrypto::resign_file(&blob, NAME, CODE, OTHER_ID, ID);
    assert_eq!(r, Err(ErrorKind::AuthenticationFailed));
}

#[test]
fn resign_of_short_input_is_malformed() {
    let r = IdCrypto::resign_file(&[1u8; 10], NAME, CODE, ID, OTHER_ID);
    assert_eq!(r, Err(ErrorKind::MalformedInput));
}

#[test]
fn decrypts_a_blob_from_an_independent_implementation() {
    // nonce 000102..0b, key = first 16 bytes of SHA-256 of
    // "76561197960265728SUKHOTHAIslot0.bin", associated data the same string.
    let hex = "000102030405060708090a0b02f5bd5caf847910a5afb5c08ac521ead3c4f7a9e44299cd3fc7ef447c90b2b57c512ef064c6";
    let blob: Vec<u8> = (0..hex.len())
        .step_by(2)
        .map(|i| u8::from_str_radix(&hex[i..i + 2], 16).unwrap())
        .collect();
    let back = IdCrypto::decrypt_file(&blob, NAME, CODE, ID).unwrap();
    assert_eq!(back, b"known answer save data".to_vec());
}

#[test]
fn same_triple_always_decrypts_across_fresh_encryptions() {
    // Two encryptions of the same plaintext differ (fresh nonce) but both
    // decrypt under the same derived key.
    let plain = b"determinism of the derived key".to_vec();
    let blob1 = IdCrypto::encrypt_file(&plain, NAME, CODE, ID).unwrap();
    let blob2 = IdCrypto::encrypt_file(&plain, NAME, CODE, ID).unwrap();
    assert_ne!(blob1, blob2);
    assert_eq!(IdCrypto::decrypt_file(&blob1, NAME, CODE, ID).unwrap(), plain);
    assert_eq!(IdCrypto::decrypt_file(&blob2, NAME, CODE, ID).unwrap(), plain);
}
