//! Cryptographic primitives over opaque byte chunks: authenticated
//! encryption (XChaCha20-Poly1305), content hashing, keyed hashing and key
//! derivation (BLAKE3).
mod bytes;
pub mod encryption;
pub mod error;
pub mod generation;
pub mod hashing;

pub use encryption::{decrypt_chunk, encrypt_chunk};
pub use error::{CryptoError, Field, KEY_LEN, NONCE_LEN, TAG_LEN};
pub use generation::{generate_key, generate_nonce};
pub use hashing::{derive_key, hash_chunk, hash_chunk_keyed};
