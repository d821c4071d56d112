use savedata_resigner::app::SaveDataApp;
use savedata_resigner::crypto::IdCrypto;
use sha2::{Digest, Sha256};

/// A deterministic stream of cryptographically random-looking bytes: a
/// SHA-256 chain from a fixed seed.
fn random_bytes(seed: &[u8], total: usize) -> Vec<u8> {
    let mut out: Vec<u8> = Vec::new();
    let mut block = Sha256::digest(seed).to_vec();
    while out.len() < total {
        out.extend_from_slice(&block);
        block = Sha256::digest(&block).to_vec();
    }
    out.truncate(total);
    out
}

#[test]
fn random_buffer_classifies_as_encrypted() {
    let data = random_bytes(b"a", 2000);
    assert!(SaveDataApp::is_file_encrypted(&data));
}

#[test]
fn repeated_ascii_text_classifies_as_not_encrypted() {
    let mut data: Vec<u8> = Vec::new();
    while data.len() < 2000 {
        data.extend_from_slice(b"The quick brown fox jumps over the lazy dog. ");
    }
    data.truncate(2000);
    assert!(!SaveDataApp::is_file_encrypted(&data));
}

#[test]
fn short_buffer_classifies_as_not_encrypted() {
    let data = random_bytes(b"a", 10);
    assert!(!SaveDataApp::is_file_encrypted(&data));
    assert!(!SaveDataApp::is_file_encrypted(&[0xFFu8; 10]));
    assert!(!SaveDataApp::is_file_encrypted(&[]));
}

#[test]
fn fifteen_bytes_are_still_too_short() {
    let data = random_bytes(b"a", 15);
    assert!(!SaveDataApp::is_file_encrypted(&data));
}

#[test]
fn text_head_overrides_a_high_entropy_tail() {
    // The first 16 bytes decode as text, so the buffer counts as plaintext
    // even though the rest is high-entropy.
    let mut data = b"Hello, world!!!!".to_vec();
    data.extend_from_slice(&random_bytes(b"a", 1984));
    assert_eq!(data.len(), 2000);
    assert!(!SaveDataApp::is_file_encrypted(&data));
}

#[test]
fn low_entropy_non_text_classifies_as_not_encrypted() {
    // Not UTF-8 at the start, but a single repeated byte: entropy 0.
    assert!(!SaveDataApp::is_file_encrypted(&[0xFFu8; 2000]));
}

#[test]
fn real_ciphertext_classifies_as_encrypted() {
    let plain = vec![0u8; 2000];
    let blob = IdCrypto::encrypt_file(&plain, "slot0.bin", "MANCUBUS", "76561197960265728").unwrap();
    // The blob may, very rarely, start with 16 bytes that happen to decode as
    // UTF-8; skip the nonce and judge the ciphertext body, whose histogram is
    // what the heuristic is about.
    let body = &blob[..2000];
    let high_entropy = SaveDataApp::is_file_encrypted(body);
    let text_start = std::str::from_utf8(&body[..16]).is_ok();
    assert!(high_entropy || text_start);
}
