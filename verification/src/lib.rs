//! Re-encrypts per-user binary save files so they can be moved between
//! player identities, or converted between their encrypted-at-rest form and
//! plaintext, for a fixed small set of supported titles.
//!
//! The core is the per-file authenticated-transform pipeline: a key derived
//! from (identity, title code, file name), AES-128-GCM with the same triple
//! bound as associated data, a framing of `nonce || ciphertext || tag` on
//! disk, an entropy heuristic that warns before double-encryption, a
//! collector that picks the recognized save files out of a directory walk,
//! and a batch runner that transforms the collection file by file, aborting
//! on the first failure. File and screen work stays with the caller.

pub mod errors;
pub mod crypto;
pub mod identity;
pub mod files;
pub mod entropy;
pub mod app;
pub mod batch;
