//! The per-file authenticated transform: key derivation from
//! (identity, title code, file name), and encrypt / decrypt / resign over a
//! single file's bytes, with the identity bound as associated data.
//!
//! The on-disk blob format is `nonce(12) || ciphertext || tag(16)`, where the
//! ciphertext is as long as the plaintext.

use vstd::prelude::*;
use vstd::slice::slice_subrange;
use vstd::utf8::encode_utf8;
use crate::errors::ErrorKind;
use aes_gcm::aead::{Aead, AeadCore, KeyInit, OsRng, Payload};
use aes_gcm::{Aes128Gcm, Key, Nonce};
use sha2::{Digest, Sha256};

verus! {

/// Length of the random nonce that prefixes every encrypted blob.
pub const NONCE_LENGTH: usize = 12;

/// Length of the authentication tag that ends every encrypted blob.
pub const TAG_LENGTH: usize = 16;

/// The least length an encrypted blob can have: a nonce plus a tag.
pub const NONCE_AND_TAG_TOTAL_LENGTH: usize = NONCE_LENGTH + TAG_LENGTH;

/// The cipher's limit on plaintext and associated-data length, in bytes.
pub const GCM_LENGTH_LIMIT: u64 = 0x10_0000_0000;

/// The SHA-256 digest of a byte sequence: 32 bytes, a function of the input
/// alone. Its value is not modelled here; the trusted wrapper below computes it.
pub uninterp spec fn sha256_of(data: Seq<u8>) -> Seq<u8>;

/// The ciphertext-with-tag that AES-128-GCM produces for a key, nonce,
/// plaintext and associated data. A function of those four alone.
pub uninterp spec fn gcm_seal(key: Seq<u8>, nonce: Seq<u8>, plaintext: Seq<u8>, aad: Seq<u8>) -> Seq<u8>;

/// What AES-128-GCM decryption returns for a key, nonce, ciphertext-with-tag
/// and associated data: the recovered plaintext, or `None` on rejection.
/// A function of those four alone.
pub uninterp spec fn gcm_open(key: Seq<u8>, nonce: Seq<u8>, ciphertext: Seq<u8>, aad: Seq<u8>) -> Option<Seq<u8>>;

/// The UTF-8 bytes of identity, title code and file name, concatenated in that
/// order with no separators. This one byte string is both the key-derivation
/// input and the associated data.
pub open spec fn id_material(user_id: Seq<char>, game_code: Seq<char>, file_name: Seq<char>) -> Seq<u8> {
    encode_utf8(user_id) + encode_utf8(game_code) + encode_utf8(file_name)
}

/// The per-file key: the first 16 bytes of the SHA-256 digest of the
/// key-derivation input.
pub open spec fn derived_key_of(user_id: Seq<char>, game_code: Seq<char>, file_name: Seq<char>) -> Seq<u8> {
    sha256_of(id_material(user_id, game_code, file_name)).take(16)
}

/// The plaintext a blob decrypts to under an identity, title code and file
/// name, or `None` if the blob is too short or the cipher rejects it.
pub open spec fn blob_plaintext(blob: Seq<u8>, file_name: Seq<char>, game_code: Seq<char>, user_id: Seq<char>) -> Option<Seq<u8>> {
    if blob.len() >= NONCE_AND_TAG_TOTAL_LENGTH {
        gcm_open(
            derived_key_of(user_id, game_code, file_name),
            blob.take(NONCE_LENGTH as int),
            blob.skip(NONCE_LENGTH as int),
            id_material(user_id, game_code, file_name),
        )
    } else {
        None
    }
}

/// Relies on sha2::Sha256 (Digest::digest): the 32-byte SHA-256 digest of the
/// input, a function of the input bytes alone.
#[verifier::external_body]
fn sha256(data: &[u8]) -> (r: Vec<u8>)
    ensures
        r@ == sha256_of(data@),
        r@.len() == 32,
{
    Sha256::digest(data).to_vec()
}

/// Relies on aes_gcm::Aes128Gcm (KeyInit::new, Aead::encrypt): seals the
/// plaintext under the key and nonce, authenticating the associated data; the
/// result is a function of the four inputs alone, 16 bytes (the appended tag)
/// longer than the plaintext, and decryption with the same four parameters
/// recovers the plaintext. The call fails exactly when the plaintext or the
/// associated data exceeds the cipher's 2^36-byte limit.
#[verifier::external_body]
fn aead_seal(key: &[u8], nonce: &[u8], plaintext: &[u8], aad: &[u8]) -> (r: Option<Vec<u8>>)
    requires
        key@.len() == 16,
        nonce@.len() == 12,
    ensures
        r matches Some(ct) ==> {
            &&& ct@ == gcm_seal(key@, nonce@, plaintext@, aad@)
            &&& ct@.len() == plaintext@.len() + 16
            &&& gcm_open(key@, nonce@, ct@, aad@) == Some::<Seq<u8>>(plaintext@)
        },
        r is Some <==> (plaintext@.len() <= GCM_LENGTH_LIMIT && aad@.len() <= GCM_LENGTH_LIMIT),
{
    let cipher = Aes128Gcm::new(Key::<Aes128Gcm>::from_slice(key));
    cipher.encrypt(Nonce::from_slice(nonce), Payload { msg: plaintext, aad }).ok()
}

/// Relies on aes_gcm::Aes128Gcm (KeyInit::new, Aead::decrypt): verifies the
/// tag and returns the recovered plaintext, or nothing on rejection; the
/// outcome is a function of the four inputs alone, and a recovered plaintext
/// is 16 bytes (the tag) shorter than the ciphertext-with-tag.
#[verifier::external_body]
fn aead_open(key: &[u8], nonce: &[u8], ciphertext: &[u8], aad: &[u8]) -> (r: Option<Vec<u8>>)
    requires
        key@.len() == 16,
        nonce@.len() == 12,
    ensures
        match r {
            Some(pt) => gcm_open(key@, nonce@, ciphertext@, aad@) == Some::<Seq<u8>>(pt@)
                && pt@.len() + 16 == ciphertext@.len(),
            None => gcm_open(key@, nonce@, ciphertext@, aad@) is None,
        },
{
    let cipher = Aes128Gcm::new(Key::<Aes128Gcm>::from_slice(key));
    cipher.decrypt(Nonce::from_slice(nonce), Payload { msg: ciphertext, aad }).ok()
}

/// Relies on aes_gcm (AeadCore::generate_nonce over aead::OsRng): 12 bytes
/// from the operating system's cryptographic random number generator. Nothing
/// is promised of their values; every encryption draws a fresh nonce.
#[verifier::external_body]
fn fresh_nonce() -> (r: Vec<u8>)
    ensures
        r@.len() == 12,
{
    Aes128Gcm::generate_nonce(&mut OsRng).to_vec()
}

/// Stateless authenticated-transform operations over single files' bytes.
pub struct IdCrypto;

impl IdCrypto {
    /// The UTF-8 bytes of identity, title code and file name concatenated:
    /// the key-derivation input, and equally the associated data.
    fn material(user_id: &str, game_code: &str, file_name: &str) -> (r: Vec<u8>)
        ensures
            r@ == id_material(user_id@, game_code@, file_name@),
    {
        let mut material: Vec<u8> = Vec::new();
        material.extend_from_slice(user_id.as_bytes());
        material.extend_from_slice(game_code.as_bytes());
        material.extend_from_slice(file_name.as_bytes());
        material
    }

    /// Derive the per-file 128-bit key from identity, title code and file
    /// name. Deterministic: the same triple always yields the same key.
    fn derive_key(user_id: &str, game_code: &str, file_name: &str) -> (r: Vec<u8>)
        ensures
            r@ == derived_key_of(user_id@, game_code@, file_name@),
            r@.len() == 16,
    {
        let material = Self::material(user_id, game_code, file_name);
        let mut digest = sha256(material.as_slice());
        digest.truncate(16);
        digest
    }

    /// Encrypt a file's bytes: derive the key, draw a fresh random nonce, seal
    /// with the identity, title code and file name bound as associated data,
    /// and frame the result as `nonce || ciphertext || tag`. Succeeds on every
    /// input within the cipher's length limit, and the blob decrypts back to
    /// the plaintext under the same identity, title code and file name.
    pub fn encrypt_file(input_data: &[u8], file_name: &str, game_code: &str, user_id: &str) -> (r: Result<Vec<u8>, ErrorKind>)
        ensures
            r matches Ok(blob) ==> {
                &&& blob@.len() == input_data@.len() + NONCE_AND_TAG_TOTAL_LENGTH
                &&& blob@.skip(NONCE_LENGTH as int) == gcm_seal(
                    derived_key_of(user_id@, game_code@, file_name@),
                    blob@.take(NONCE_LENGTH as int),
                    input_data@,
                    id_material(user_id@, game_code@, file_name@),
                )
                &&& blob_plaintext(blob@, file_name@, game_code@, user_id@) == Some::<Seq<u8>>(input_data@)
            },
            r is Ok <==> (input_data@.len() <= GCM_LENGTH_LIMIT
                && id_material(user_id@, game_code@, file_name@).len() <= GCM_LENGTH_LIMIT),
            r matches Err(e) ==> e == ErrorKind::EncryptionFailed,
    {
        let key = Self::derive_key(user_id, game_code, file_name);
        let aad = Self::material(user_id, game_code, file_name);
        let nonce = fresh_nonce();
        match aead_seal(key.as_slice(), nonce.as_slice(), input_data, aad.as_slice()) {
            Some(ciphertext) => {
                let mut blob: Vec<u8> = Vec::new();
                blob.extend_from_slice(nonce.as_slice());
                blob.extend_from_slice(ciphertext.as_slice());
                proof {
                    assert(blob@.take(NONCE_LENGTH as int) =~= nonce@);
                    assert(blob@.skip(NONCE_LENGTH as int) =~= ciphertext@);
                }
                Ok(blob)
            },
            None => Err(ErrorKind::EncryptionFailed),
        }
    }

    /// Decrypt a blob: reject anything shorter than a nonce plus a tag as
    /// malformed, split off the nonce, derive the key and associated data
    /// exactly as encryption does, and open. Returns the plaintext exactly
    /// when the cipher accepts the blob under this identity, title code and
    /// file name; a failed tag check is reported as `AuthenticationFailed`
    /// with nothing about which part disagreed.
    pub fn decrypt_file(input_data: &[u8], file_name: &str, game_code: &str, user_id: &str) -> (r: Result<Vec<u8>, ErrorKind>)
        ensures
            r matches Ok(pt) ==> {
                &&& blob_plaintext(input_data@, file_name@, game_code@, user_id@) == Some::<Seq<u8>>(pt@)
                &&& pt@.len() + NONCE_AND_TAG_TOTAL_LENGTH == input_data@.len()
            },
            r is Ok <==> blob_plaintext(input_data@, file_name@, game_code@, user_id@) is Some,
            r == Err::<Vec<u8>, ErrorKind>(ErrorKind::MalformedInput) <==> input_data@.len() < NONCE_AND_TAG_TOTAL_LENGTH,
            r == Err::<Vec<u8>, ErrorKind>(ErrorKind::AuthenticationFailed) <==> {
                &&& input_data@.len() >= NONCE_AND_TAG_TOTAL_LENGTH
                &&& blob_plaintext(input_data@, file_name@, game_code@, user_id@) is None
            },
    {
        if input_data.len() < NONCE_AND_TAG_TOTAL_LENGTH {
            return Err(ErrorKind::MalformedInput);
        }
        let nonce_bytes = slice_subrange(input_data, 0, NONCE_LENGTH);
        let ciphertext_with_tag = slice_subrange(input_data, NONCE_LENGTH, input_data.len());
        let key = Self::derive_key(user_id, game_code, file_name);
        let aad = Self::material(user_id, game_code, file_name);
        match aead_open(key.as_slice(), nonce_bytes, ciphertext_with_tag, aad.as_slice()) {
            Some(plaintext) => Ok(plaintext),
            None => Err(ErrorKind::AuthenticationFailed),
        }
    }

    /// Transfer a blob from one identity to another: decrypt under the old
    /// identity, and on success re-encrypt the recovered plaintext under the
    /// new one. Any decrypt failure propagates unchanged; nothing partial is
    /// ever returned. The result decrypts under the new identity to exactly
    /// what the input decrypts to under the old one.
    pub fn resign_file(input_data: &[u8], file_name: &str, game_code: &str, old_user_id: &str, new_user_id: &str) -> (r: Result<Vec<u8>, ErrorKind>)
        ensures
            r matches Ok(blob) ==> {
                &&& blob@.len() == input_data@.len()
                &&& blob_plaintext(input_data@, file_name@, game_code@, old_user_id@) is Some
                &&& blob_plaintext(blob@, file_name@, game_code@, new_user_id@)
                    == blob_plaintext(input_data@, file_name@, game_code@, old_user_id@)
            },
            r is Ok <==> {
                &&& blob_plaintext(input_data@, file_name@, game_code@, old_user_id@) is Some
                &&& input_data@.len() <= GCM_LENGTH_LIMIT + NONCE_AND_TAG_TOTAL_LENGTH
                &&& id_material(new_user_id@, game_code@, file_name@).len() <= GCM_LENGTH_LIMIT
            },
            r == Err::<Vec<u8>, ErrorKind>(ErrorKind::MalformedInput) <==> input_data@.len() < NONCE_AND_TAG_TOTAL_LENGTH,
            r == Err::<Vec<u8>, ErrorKind>(ErrorKind::AuthenticationFailed) <==> {
                &&& input_data@.len() >= NONCE_AND_TAG_TOTAL_LENGTH
                &&& blob_plaintext(input_data@, file_name@, game_code@, old_user_id@) is None
            },
            r == Err::<Vec<u8>, ErrorKind>(ErrorKind::EncryptionFailed) <==> {
                &&& blob_plaintext(input_data@, file_name@, game_code@, old_user_id@) is Some
                &&& !(input_data@.len() <= GCM_LENGTH_LIMIT + NONCE_AND_TAG_TOTAL_LENGTH
                    && id_material(new_user_id@, game_code@, file_name@).len() <= GCM_LENGTH_LIMIT)
            },
    {
        match Self::decrypt_file(input_data, file_name, game_code, old_user_id) {
            Ok(decrypted) => Self::encrypt_file(decrypted.as_slice(), file_name, game_code, new_user_id),
            Err(e) => Err(e),
        }
    }
}

} // verus!
