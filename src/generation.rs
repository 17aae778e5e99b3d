use crate::error::{KEY_LEN, NONCE_LEN};
use chacha20poly1305::aead::{AeadCore, KeyInit, OsRng};
use chacha20poly1305::XChaCha20Poly1305;
use vstd::prelude::*;

verus! {

/// Relies on `KeyInit::generate_key` for `XChaCha20Poly1305` with `aead::OsRng`:
/// a 32-byte key filled from the operating system's secure random source
/// (which panics only when that source itself fails).
#[verifier::external_body]
fn os_random_key() -> (r: Vec<u8>)
    ensures
        r@.len() == KEY_LEN,
{
    XChaCha20Poly1305::generate_key(&mut OsRng).to_vec()
}

/// Relies on `AeadCore::generate_nonce` for `XChaCha20Poly1305` with
/// `aead::OsRng`: a 24-byte nonce filled from the operating system's secure
/// random source (which panics only when that source itself fails).
#[verifier::external_body]
fn os_random_nonce() -> (r: Vec<u8>)
    ensures
        r@.len() == NONCE_LEN,
{
    XChaCha20Poly1305::generate_nonce(&mut OsRng).to_vec()
}

/// A fresh 32-byte key drawn from a cryptographically secure random source.
pub fn generate_key() -> (r: Vec<u8>)
    ensures
        r@.len() == KEY_LEN,
{
    os_random_key()
}

/// A fresh 24-byte nonce drawn from a cryptographically secure random source.
pub fn generate_nonce() -> (r: Vec<u8>)
    ensures
        r@.len() == NONCE_LEN,
{
    os_random_nonce()
}

} // verus!
