//! HQC-256 KEM (FIPS 207, NIST level 5), backed by the `hqc_kem` crate.
//!
//! The caller supplies the entropy (key-generation seed, encapsulation message
//! and salt), and the deterministic entry points of `hqc_kem` do the rest, so
//! every random byte comes from the caller.

use hqc_kem::{Ciphertext, DecapsulationKey, EncapsulationKey, Hqc256Params, HqcKem};
use vstd::prelude::*;

use super::{BadKEMKeyLength, DecapsulateError};

verus! {

/// Length in bytes of an HQC-256 public (encapsulation) key.
pub const PUBLIC_KEY_LENGTH: usize = 7237;
/// Length in bytes of an HQC-256 secret (decapsulation) key.
pub const SECRET_KEY_LENGTH: usize = 7333;
/// Length in bytes of an HQC-256 ciphertext.
pub const CIPHERTEXT_LENGTH: usize = 14421;
/// Length in bytes of an HQC-256 shared secret.
pub const SHARED_SECRET_LENGTH: usize = 32;
/// Length in bytes of the encapsulation message.
pub const MESSAGE_LENGTH: usize = 32;
/// Length in bytes of the encapsulation salt.
pub const SALT_LENGTH: usize = 16;
/// Length in bytes of the key-generation seed.
pub const SEED_LENGTH: usize = 32;

/// The (encapsulation key, decapsulation key) pair that
/// `HqcKem::<Hqc256Params>::generate_key_deterministic` derives from `seed`.
pub uninterp spec fn hqc256_generate_key(seed: Seq<u8>) -> (Seq<u8>, Seq<u8>);

/// The (ciphertext, shared secret) that `EncapsulationKey::encapsulate_deterministic`
/// computes for a well-formed public key, message and salt.
pub uninterp spec fn hqc256_encapsulate(public_key: Seq<u8>, message: Seq<u8>, salt: Seq<u8>) -> (
    Seq<u8>,
    Seq<u8>,
);

/// The shared secret that `DecapsulationKey::decapsulate` recovers from a
/// well-formed secret key and ciphertext.
pub uninterp spec fn hqc256_decapsulate(secret_key: Seq<u8>, ciphertext: Seq<u8>) -> Seq<u8>;

/// Calls `HqcKem::<Hqc256Params>::generate_key_deterministic`; the keys come
/// back as their byte encodings, of the fixed HQC-256 lengths.
#[verifier::external_body]
fn hqc_generate_key_deterministic(seed: &[u8; SEED_LENGTH]) -> (res: (Vec<u8>, Vec<u8>))
    ensures
        hqc256_generate_key(seed@) == (res.0@, res.1@),
        res.0@.len() == PUBLIC_KEY_LENGTH,
        res.1@.len() == SECRET_KEY_LENGTH,
{
    let (ek, dk) = HqcKem::<Hqc256Params>::generate_key_deterministic(seed);
    (ek.as_ref().to_vec(), dk.as_ref().to_vec())
}

/// Builds an `EncapsulationKey` with `TryFrom<&[u8]>`, which fails exactly when
/// the length is not `PUBLIC_KEY_LENGTH`, and calls `encapsulate_deterministic`,
/// which cannot fail on a message of `MESSAGE_LENGTH` bytes.
#[verifier::external_body]
fn hqc_encapsulate_deterministic(
    public_key: &[u8],
    message: &[u8; MESSAGE_LENGTH],
    salt: &[u8; SALT_LENGTH],
) -> (res: Option<(Vec<u8>, Vec<u8>)>)
    ensures
        res is Some <==> public_key@.len() == PUBLIC_KEY_LENGTH,
        res matches Some((ct, ss)) ==> hqc256_encapsulate(public_key@, message@, salt@) == (
            ct@,
            ss@,
        ) && ct@.len() == CIPHERTEXT_LENGTH && ss@.len() == SHARED_SECRET_LENGTH,
{
    let ek = EncapsulationKey::<Hqc256Params>::try_from(public_key).ok()?;
    let (ct, ss) = ek.encapsulate_deterministic(message, salt).ok()?;
    Some((ct.as_ref().to_vec(), ss.as_ref().to_vec()))
}

/// Builds a `DecapsulationKey` and a `Ciphertext` with `TryFrom<&[u8]>`, which
/// fail exactly on wrong lengths (the key first), and calls `decapsulate`,
/// which is infallible.
#[verifier::external_body]
fn hqc_decapsulate(secret_key: &[u8], ciphertext: &[u8]) -> (res: Result<Vec<u8>, DecapsulateError>)
    ensures
        secret_key@.len() != SECRET_KEY_LENGTH ==> res matches Err(DecapsulateError::BadKeyLength),
        secret_key@.len() == SECRET_KEY_LENGTH && ciphertext@.len() != CIPHERTEXT_LENGTH ==> res matches Err(
            DecapsulateError::BadCiphertext,
        ),
        res is Ok <==> (secret_key@.len() == SECRET_KEY_LENGTH && ciphertext@.len()
            == CIPHERTEXT_LENGTH),
        res matches Ok(ss) ==> ss@ == hqc256_decapsulate(secret_key@, ciphertext@)
            && ss@.len() == SHARED_SECRET_LENGTH,
{
    let dk = match DecapsulationKey::<Hqc256Params>::try_from(secret_key) {
        Ok(dk) => dk,
        Err(_) => return Err(DecapsulateError::BadKeyLength),
    };
    let ct = match Ciphertext::<Hqc256Params>::try_from(ciphertext) {
        Ok(ct) => ct,
        Err(_) => return Err(DecapsulateError::BadCiphertext),
    };
    Ok(dk.decapsulate(&ct).as_ref().to_vec())
}

/// Generate an HQC-256 key pair from a 32-byte seed.
pub fn generate(seed: [u8; SEED_LENGTH]) -> (res: (Vec<u8>, Vec<u8>))
    ensures
        hqc256_generate_key(seed@) == (res.0@, res.1@),
        res.0@.len() == PUBLIC_KEY_LENGTH,
        res.1@.len() == SECRET_KEY_LENGTH,
{
    hqc_generate_key_deterministic(&seed)
}

/// Encapsulate to `pub_key` with the given message and salt, returning the
/// shared secret and the raw ciphertext.
pub fn encapsulate(
    pub_key: &[u8],
    message: [u8; MESSAGE_LENGTH],
    salt: [u8; SALT_LENGTH],
) -> (res: Result<(Vec<u8>, Vec<u8>), BadKEMKeyLength>)
    ensures
        res is Ok <==> pub_key@.len() == PUBLIC_KEY_LENGTH,
        res matches Ok((ss, ct)) ==> hqc256_encapsulate(pub_key@, message@, salt@) == (ct@, ss@)
            && ct@.len() == CIPHERTEXT_LENGTH && ss@.len() == SHARED_SECRET_LENGTH,
{
    match hqc_encapsulate_deterministic(pub_key, &message, &salt) {
        Some((ct, ss)) => Ok((ss, ct)),
        None => Err(BadKEMKeyLength),
    }
}

/// Decapsulate a raw `ciphertext` with `secret_key`.
pub fn decapsulate(secret_key: &[u8], ciphertext: &[u8]) -> (res: Result<Vec<u8>, DecapsulateError>)
    ensures
        secret_key@.len() != SECRET_KEY_LENGTH ==> res matches Err(DecapsulateError::BadKeyLength),
        secret_key@.len() == SECRET_KEY_LENGTH && ciphertext@.len() != CIPHERTEXT_LENGTH ==> res matches Err(
            DecapsulateError::BadCiphertext,
        ),
        res is Ok <==> (secret_key@.len() == SECRET_KEY_LENGTH && ciphertext@.len()
            == CIPHERTEXT_LENGTH),
        res matches Ok(ss) ==> ss@ == hqc256_decapsulate(secret_key@, ciphertext@)
            && ss@.len() == SHARED_SECRET_LENGTH,
{
    hqc_decapsulate(secret_key, ciphertext)
}

} // verus!
