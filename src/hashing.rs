use crate::error::{outcome_view, CryptoError, Field, KEY_LEN};
use crate::bytes::fixed_bytes;
use vstd::prelude::*;
use vstd::utf8::encode_utf8;

verus! {

/// The unkeyed BLAKE3 digest (32 bytes) of `data`.
pub uninterp spec fn blake3_digest(data: Seq<u8>) -> Seq<u8>;

/// The BLAKE3 keyed-hash-mode digest (32 bytes) of `data` under a 32-byte `key`.
pub uninterp spec fn blake3_keyed_digest(key: Seq<u8>, data: Seq<u8>) -> Seq<u8>;

/// The BLAKE3 key-derivation-mode output (32 bytes) for the context string
/// `context` and the key material `material`.
pub uninterp spec fn blake3_derived(context: Seq<char>, material: Seq<u8>) -> Seq<u8>;

/// Relies on `blake3::hash`: the 32-byte BLAKE3 digest of the whole input,
/// the same as a `Hasher::new()` fed the input and finalized.
#[verifier::external_body]
fn digest(data: &[u8]) -> (r: Vec<u8>)
    ensures
        r@ == blake3_digest(data@),
        r@.len() == 32,
{
    blake3::hash(data).as_bytes().to_vec()
}

/// Relies on `blake3::keyed_hash`: the 32-byte keyed-mode BLAKE3 digest of
/// the input, the same as a `Hasher::new_keyed(key)` fed the input and finalized.
#[verifier::external_body]
fn keyed_digest(key: &[u8; KEY_LEN], data: &[u8]) -> (r: Vec<u8>)
    ensures
        r@ == blake3_keyed_digest(key@, data@),
        r@.len() == 32,
{
    blake3::keyed_hash(key, data).as_bytes().to_vec()
}

/// Relies on `blake3::derive_key`: the 32-byte key-derivation-mode output,
/// the same as a `Hasher::new_derive_key(context)` fed the key material (in
/// any number of `update` calls) and finalized.
#[verifier::external_body]
fn derived(context: &str, material: &[u8]) -> (r: Vec<u8>)
    ensures
        r@ == blake3_derived(context@, material@),
        r@.len() == 32,
{
    blake3::derive_key(context, material).to_vec()
}

/// Hashes `data` with unkeyed BLAKE3, giving a 32-byte digest that depends on
/// the bytes of `data` alone.
pub fn hash_chunk(data: Vec<u8>) -> (r: Vec<u8>)
    ensures
        r@ == blake3_digest(data@),
        r@.len() == 32,
{
    digest(data.as_slice())
}

/// What `hash_chunk_keyed` owes for some data and key.
pub open spec fn keyed_outcome(data: Seq<u8>, key: Seq<u8>) -> Result<Seq<u8>, CryptoError> {
    if key.len() != KEY_LEN {
        Err(CryptoError::InvalidArgument(Field::Key))
    } else {
        Ok(blake3_keyed_digest(key, data))
    }
}

/// Computes the keyed BLAKE3 digest (a MAC) of `data` under a 32-byte `key`,
/// used directly as the hash function's key.
pub fn hash_chunk_keyed(data: Vec<u8>, key: Vec<u8>) -> (r: Result<Vec<u8>, CryptoError>)
    ensures
        outcome_view(r) == keyed_outcome(data@, key@),
        r is Ok ==> r->Ok_0@.len() == 32,
{
    if key.len() != KEY_LEN {
        return Err(CryptoError::InvalidArgument(Field::Key));
    }
    let k: [u8; KEY_LEN] = fixed_bytes(&key);
    Ok(keyed_digest(&k, data.as_slice()))
}

/// The bytes absorbed when deriving a key: the salt, then the UTF-8 bytes of
/// the password.
pub open spec fn derivation_material(password: Seq<char>, salt: Seq<u8>) -> Seq<u8> {
    salt + encode_utf8(password)
}

/// The key that `derive_key` owes for a password, salt and context.
pub open spec fn derived_key(password: Seq<char>, salt: Seq<u8>, context: Seq<char>) -> Seq<u8> {
    blake3_derived(context, derivation_material(password, salt))
}

/// Derives a 32-byte key from `password` and `salt`, separated by `context`:
/// BLAKE3 in key-derivation mode keyed by the context absorbs the salt and
/// then the password.
pub fn derive_key(password: String, salt: Vec<u8>, context: String) -> (r: Vec<u8>)
    ensures
        r@ == derived_key(password@, salt@, context@),
        r@.len() == KEY_LEN,
{
    let pw: &[u8] = password.as_str().as_bytes();
    let mut material: Vec<u8> = salt;
    let ghost start = material@;
    let mut i: usize = 0;
    while i < pw.len()
        invariant
            i <= pw@.len(),
            material@ == start + pw@.subrange(0, i as int),
        decreases pw@.len() - i,
    {
        material.push(pw[i]);
        i = i + 1;
        assert(material@ =~= start + pw@.subrange(0, i as int));
    }
    assert(pw@.subrange(0, pw@.len() as int) =~= pw@);
    derived(context.as_str(), material.as_slice())
}

} // verus!

verus! {

/// Hashing is deterministic: equal data always gives the same digest.
pub proof fn lemma_hash_deterministic(data1: Seq<u8>, data2: Seq<u8>)
    requires
        data1 == data2,
    ensures
        blake3_digest(data1) == blake3_digest(data2),
{
}

/// Keyed hashing is deterministic: the same data and key always give the same
/// outcome.
pub proof fn lemma_keyed_hash_deterministic(
    data1: Seq<u8>,
    key1: Seq<u8>,
    data2: Seq<u8>,
    key2: Seq<u8>,
)
    requires
        data1 == data2,
        key1 == key2,
    ensures
        keyed_outcome(data1, key1) == keyed_outcome(data2, key2),
{
}

/// A key whose length is not 32 makes keyed hashing fail with
/// `InvalidArgument` naming the key, whatever the data.
pub proof fn lemma_keyed_hash_length_validation(data: Seq<u8>, key: Seq<u8>)
    requires
        key.len() != KEY_LEN,
    ensures
        keyed_outcome(data, key) == Err::<Seq<u8>, CryptoError>(
            CryptoError::InvalidArgument(Field::Key),
        ),
{
}

/// Key derivation is deterministic: the same password, salt and context always
/// give the same derived key.
pub proof fn lemma_derivation_deterministic(
    password1: Seq<char>,
    salt1: Seq<u8>,
    context1: Seq<char>,
    password2: Seq<char>,
    salt2: Seq<u8>,
    context2: Seq<char>,
)
    requires
        password1 == password2,
        salt1 == salt2,
        context1 == context2,
    ensures
        derived_key(password1, salt1, context1) == derived_key(password2, salt2, context2),
{
}

} // verus!
