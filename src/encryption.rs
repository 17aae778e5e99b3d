use crate::error::{
    check_key_nonce, key_nonce_error, outcome_view, CryptoError, Field, KEY_LEN, NONCE_LEN,
    TAG_LEN,
};
use crate::bytes::fixed_bytes;
use chacha20poly1305::aead::{Aead, KeyInit};
use chacha20poly1305::{XChaCha20Poly1305, XNonce};
use vstd::prelude::*;

verus! {

/// The longest message, in bytes, that the cipher's keystream covers: 64-byte
/// blocks numbered by a 32-bit counter that stops at `u32::MAX`, less block 0,
/// which keys Poly1305; that leaves `64 * (2^32 - 2)` bytes.
pub const MAX_MESSAGE_LEN: u64 = 274877906816;

/// Whether a message of `len` bytes fits within the cipher's keystream.
pub open spec fn fits_keystream(len: nat) -> bool {
    len <= MAX_MESSAGE_LEN as nat
}

/// XChaCha20-Poly1305 encryption, without associated data, of `plaintext`
/// under `key` and `nonce`: the ciphertext followed by its tag.
pub uninterp spec fn xchacha_seal(key: Seq<u8>, nonce: Seq<u8>, plaintext: Seq<u8>) -> Seq<u8>;

/// XChaCha20-Poly1305 decryption, without associated data, of `sealed` under
/// `key` and `nonce`: the plaintext when the tag authenticates, else `None`.
pub uninterp spec fn xchacha_open(key: Seq<u8>, nonce: Seq<u8>, sealed: Seq<u8>) -> Option<Seq<u8>>;

#[verifier::external_type_specification]
#[verifier::external_body]
pub struct ExAeadError(chacha20poly1305::Error);

/// Relies on `Aead::encrypt` for `XChaCha20Poly1305` (aead 0.5, chacha20poly1305 0.10):
/// on a message that the keystream covers it succeeds and returns the
/// encrypted message with the 16-byte tag appended, which `Aead::decrypt`
/// turns back into the message under the same key and nonce. A longer message
/// makes the keystream run out, and `apply_keystream` panics.
#[verifier::external_body]
fn seal(key: &[u8; KEY_LEN], nonce: &[u8; NONCE_LEN], plaintext: &[u8]) -> (r: Result<
    Vec<u8>,
    chacha20poly1305::Error,
>)
    requires
        fits_keystream(plaintext@.len()),
    ensures
        r is Ok,
        r is Ok ==> r->Ok_0@ == xchacha_seal(key@, nonce@, plaintext@),
        r is Ok ==> r->Ok_0@.len() == plaintext@.len() + TAG_LEN,
        r is Ok ==> xchacha_open(key@, nonce@, r->Ok_0@) == Some(plaintext@),
{
    XChaCha20Poly1305::new(&(*key).into()).encrypt(&XNonce::from(*nonce), plaintext)
}

/// Relies on `Aead::decrypt` for `XChaCha20Poly1305` (aead 0.5, chacha20poly1305 0.10):
/// it fails on input shorter than the 16-byte tag and when the tag does not
/// authenticate; otherwise it returns the message without its tag, and the
/// input is exactly that message sealed under the same key and nonce (the tag
/// was checked against the given body). A body that the keystream does not
/// cover makes `apply_keystream` panic once the tag authenticates.
#[verifier::external_body]
fn open(key: &[u8; KEY_LEN], nonce: &[u8; NONCE_LEN], sealed: &[u8]) -> (r: Result<
    Vec<u8>,
    chacha20poly1305::Error,
>)
    requires
        sealed@.len() >= TAG_LEN ==> fits_keystream((sealed@.len() - TAG_LEN) as nat),
    ensures
        r is Ok <==> xchacha_open(key@, nonce@, sealed@) is Some,
        r is Ok ==> r->Ok_0@ == xchacha_open(key@, nonce@, sealed@)->0,
        sealed@.len() < TAG_LEN ==> r is Err,
        r is Ok ==> r->Ok_0@.len() + TAG_LEN == sealed@.len(),
        r is Ok ==> xchacha_seal(key@, nonce@, r->Ok_0@) == sealed@,
{
    XChaCha20Poly1305::new(&(*key).into()).decrypt(&XNonce::from(*nonce), sealed)
}

/// What `encrypt_chunk` owes for a plaintext, key and nonce.
pub open spec fn encrypt_outcome(data: Seq<u8>, key: Seq<u8>, nonce: Seq<u8>) -> Result<
    Seq<u8>,
    CryptoError,
> {
    match key_nonce_error(key, nonce) {
        Some(e) => Err(e),
        None => if fits_keystream(data.len()) {
            Ok(xchacha_seal(key, nonce, data))
        } else {
            Err(CryptoError::EncryptionFailure)
        },
    }
}

/// What `decrypt_chunk` owes for a ciphertext, key and nonce.
pub open spec fn decrypt_outcome(data: Seq<u8>, key: Seq<u8>, nonce: Seq<u8>) -> Result<
    Seq<u8>,
    CryptoError,
> {
    match key_nonce_error(key, nonce) {
        Some(e) => Err(e),
        None => if data.len() >= TAG_LEN && !fits_keystream((data.len() - TAG_LEN) as nat) {
            Err(CryptoError::DecryptionFailure)
        } else {
            match xchacha_open(key, nonce, data) {
                Some(p) => Ok(p),
                None => Err(CryptoError::DecryptionFailure),
            }
        },
    }
}

/// Encrypts `data` under a 32-byte `key` and a 24-byte `nonce`, returning the
/// ciphertext followed by its 16-byte authentication tag.
///
/// The nonce must never repeat for the same key; that is the caller's duty.
/// The result decrypts back to `data` under the same key and nonce. A
/// plaintext longer than `MAX_MESSAGE_LEN` fails with `EncryptionFailure`.
pub fn encrypt_chunk(data: Vec<u8>, key: Vec<u8>, nonce: Vec<u8>) -> (r: Result<
    Vec<u8>,
    CryptoError,
>)
    ensures
        outcome_view(r) == encrypt_outcome(data@, key@, nonce@),
        r is Ok ==> r->Ok_0@.len() == data@.len() + TAG_LEN,
        r is Ok ==> decrypt_outcome(r->Ok_0@, key@, nonce@) == Ok::<Seq<u8>, CryptoError>(data@),
{
    if let Some(e) = check_key_nonce(&key, &nonce) {
        return Err(e);
    }
    if data.len() as u64 > MAX_MESSAGE_LEN {
        return Err(CryptoError::EncryptionFailure);
    }
    let k: [u8; KEY_LEN] = fixed_bytes(&key);
    let n: [u8; NONCE_LEN] = fixed_bytes(&nonce);
    match seal(&k, &n, data.as_slice()) {
        Ok(sealed) => Ok(sealed),
        Err(_) => Err(CryptoError::EncryptionFailure),
    }
}

/// Authenticates and decrypts `data` (ciphertext followed by its tag) under a
/// 32-byte `key` and a 24-byte `nonce`. Nothing of the plaintext is returned
/// unless the tag authenticates; a body longer than `MAX_MESSAGE_LEN` fails
/// with `DecryptionFailure` like any other unauthentic input.
pub fn decrypt_chunk(data: Vec<u8>, key: Vec<u8>, nonce: Vec<u8>) -> (r: Result<
    Vec<u8>,
    CryptoError,
>)
    ensures
        outcome_view(r) == decrypt_outcome(data@, key@, nonce@),
        key_nonce_error(key@, nonce@) is None && data@.len() < TAG_LEN ==> r
            == Err::<Vec<u8>, CryptoError>(CryptoError::DecryptionFailure),
        r is Ok ==> r->Ok_0@.len() + TAG_LEN == data@.len(),
        r is Ok ==> data@ == xchacha_seal(key@, nonce@, r->Ok_0@),
{
    if let Some(e) = check_key_nonce(&key, &nonce) {
        return Err(e);
    }
    if data.len() >= TAG_LEN && (data.len() - TAG_LEN) as u64 > MAX_MESSAGE_LEN {
        return Err(CryptoError::DecryptionFailure);
    }
    let k: [u8; KEY_LEN] = fixed_bytes(&key);
    let n: [u8; NONCE_LEN] = fixed_bytes(&nonce);
    match open(&k, &n, data.as_slice()) {
        Ok(plain) => Ok(plain),
        Err(_) => Err(CryptoError::DecryptionFailure),
    }
}

} // verus!

verus! {

/// Encryption is deterministic: the same plaintext, key and nonce always give
/// the same outcome, and so the same ciphertext.
pub proof fn lemma_encrypt_deterministic(
    data1: Seq<u8>,
    key1: Seq<u8>,
    nonce1: Seq<u8>,
    data2: Seq<u8>,
    key2: Seq<u8>,
    nonce2: Seq<u8>,
)
    requires
        data1 == data2,
        key1 == key2,
        nonce1 == nonce2,
    ensures
        encrypt_outcome(data1, key1, nonce1) == encrypt_outcome(data2, key2, nonce2),
{
}

/// A key whose length is not 32, or a nonce whose length is not 24, makes both
/// encryption and decryption fail with `InvalidArgument` naming that input
/// (the key first), whatever the data.
pub proof fn lemma_cipher_length_validation(data: Seq<u8>, key: Seq<u8>, nonce: Seq<u8>)
    requires
        key.len() != KEY_LEN || nonce.len() != NONCE_LEN,
    ensures
        key.len() != KEY_LEN ==> encrypt_outcome(data, key, nonce) == Err::<Seq<u8>, CryptoError>(
            CryptoError::InvalidArgument(Field::Key),
        ) && decrypt_outcome(data, key, nonce) == Err::<Seq<u8>, CryptoError>(
            CryptoError::InvalidArgument(Field::Key),
        ),
        key.len() == KEY_LEN ==> encrypt_outcome(data, key, nonce) == Err::<Seq<u8>, CryptoError>(
            CryptoError::InvalidArgument(Field::Nonce),
        ) && decrypt_outcome(data, key, nonce) == Err::<Seq<u8>, CryptoError>(
            CryptoError::InvalidArgument(Field::Nonce),
        ),
{
}

} // verus!
