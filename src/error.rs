use vstd::prelude::*;

verus! {

/// Length in bytes of every key: cipher keys, hash keys and derived keys.
pub const KEY_LEN: usize = 32;

/// Length in bytes of an extended (192-bit) nonce.
pub const NONCE_LEN: usize = 24;

/// Length in bytes of the authentication tag that follows each ciphertext.
pub const TAG_LEN: usize = 16;

/// A fixed-length input of an operation.
#[derive(Debug, Clone, Copy, PartialEq, Eq, Structural)]
pub enum Field {
    Key,
    Nonce,
}

/// The length that a fixed-length input must have.
pub open spec fn field_len(f: Field) -> nat {
    match f {
        Field::Key => KEY_LEN as nat,
        Field::Nonce => NONCE_LEN as nat,
    }
}

impl Field {
    /// The length in bytes that this input must have.
    pub fn expected_len(&self) -> (r: usize)
        ensures
            r == field_len(*self),
    {
        match self {
            Field::Key => KEY_LEN,
            Field::Nonce => NONCE_LEN,
        }
    }
}

/// Why an operation failed.
#[derive(Debug, Clone, Copy, PartialEq, Eq, Structural)]
pub enum CryptoError {
    /// A fixed-length input had the wrong length; no cryptographic work was done.
    InvalidArgument(Field),
    /// The plaintext is longer than the cipher's keystream covers.
    EncryptionFailure,
    /// The ciphertext is malformed or does not authenticate under the key and nonce.
    DecryptionFailure,
}

impl CryptoError {
    /// A human-readable description that names the offending input, if any.
    pub fn message(&self) -> (r: String)
        ensures
            *self == CryptoError::InvalidArgument(Field::Key) ==> r@
                == "Key must be exactly 32 bytes"@,
            *self == CryptoError::InvalidArgument(Field::Nonce) ==> r@
                == "Nonce must be exactly 24 bytes"@,
            *self == CryptoError::EncryptionFailure ==> r@ == "Encryption failed"@,
            *self == CryptoError::DecryptionFailure ==> r@ == "Decryption failed"@,
    {
        match self {
            CryptoError::InvalidArgument(Field::Key) => String::from_str("Key must be exactly 32 bytes"),
            CryptoError::InvalidArgument(Field::Nonce) => String::from_str(
                "Nonce must be exactly 24 bytes",
            ),
            CryptoError::EncryptionFailure => String::from_str("Encryption failed"),
            CryptoError::DecryptionFailure => String::from_str("Decryption failed"),
        }
    }
}

/// The error owed for a cipher key and nonce, checked in that order.
pub open spec fn key_nonce_error(key: Seq<u8>, nonce: Seq<u8>) -> Option<CryptoError> {
    if key.len() != KEY_LEN {
        Some(CryptoError::InvalidArgument(Field::Key))
    } else if nonce.len() != NONCE_LEN {
        Some(CryptoError::InvalidArgument(Field::Nonce))
    } else {
        None
    }
}

/// Checks the lengths of a cipher key and nonce before any cryptographic work.
pub fn check_key_nonce(key: &Vec<u8>, nonce: &Vec<u8>) -> (r: Option<CryptoError>)
    ensures
        r == key_nonce_error(key@, nonce@),
{
    if key.len() != KEY_LEN {
        Some(CryptoError::InvalidArgument(Field::Key))
    } else if nonce.len() != NONCE_LEN {
        Some(CryptoError::InvalidArgument(Field::Nonce))
    } else {
        None
    }
}

/// Views a byte-buffer outcome as a sequence outcome.
pub open spec fn outcome_view(r: Result<Vec<u8>, CryptoError>) -> Result<Seq<u8>, CryptoError> {
    match r {
        Ok(v) => Ok(v@),
        Err(e) => Err(e),
    }
}

} // verus!
