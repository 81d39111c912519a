//! ML-KEM-1024 (FIPS 203, NIST level 5), backed by the `libcrux_ml_kem` crate.
//!
//! The caller supplies the entropy (the 64-byte key-generation seed and the
//! 32 bytes of encapsulation randomness), and the deterministic entry points
//! of `libcrux_ml_kem::mlkem1024` do the rest.

use libcrux_ml_kem::mlkem1024::{self, MlKem1024Ciphertext, MlKem1024PrivateKey, MlKem1024PublicKey};
use vstd::prelude::*;

use super::{BadKEMKeyLength, DecapsulateError};

verus! {

/// Length in bytes of an ML-KEM-1024 public (encapsulation) key.
pub const PUBLIC_KEY_LENGTH: usize = 1568;
/// Length in bytes of an ML-KEM-1024 secret (decapsulation) key.
pub const SECRET_KEY_LENGTH: usize = 3168;
/// Length in bytes of an ML-KEM-1024 ciphertext.
pub const CIPHERTEXT_LENGTH: usize = 1568;
/// Length in bytes of an ML-KEM-1024 shared secret.
pub const SHARED_SECRET_LENGTH: usize = 32;
/// Length in bytes of the encapsulation randomness.
pub const ENCAPSULATION_RANDOMNESS_LENGTH: usize = 32;
/// Length in bytes of the key-generation seed.
pub const SEED_LENGTH: usize = 64;

/// The (encapsulation key, decapsulation key) pair that
/// `libcrux_ml_kem::mlkem1024::generate_key_pair` derives from `seed`.
pub uninterp spec fn mlkem1024_generate_key(seed: Seq<u8>) -> (Seq<u8>, Seq<u8>);

/// The (ciphertext, shared secret) that `libcrux_ml_kem::mlkem1024::encapsulate`
/// computes for a public key of the right length and its randomness.
pub uninterp spec fn mlkem1024_encapsulate(public_key: Seq<u8>, randomness: Seq<u8>) -> (
    Seq<u8>,
    Seq<u8>,
);

/// The shared secret that `libcrux_ml_kem::mlkem1024::decapsulate` computes from
/// a secret key and a ciphertext of the right lengths.
pub uninterp spec fn mlkem1024_decapsulate(secret_key: Seq<u8>, ciphertext: Seq<u8>) -> Seq<u8>;

/// Calls `libcrux_ml_kem::mlkem1024::generate_key_pair`; the keys come back as
/// their byte encodings, of the fixed ML-KEM-1024 lengths.
#[verifier::external_body]
fn mlkem_generate_key_pair(seed: [u8; SEED_LENGTH]) -> (res: (Vec<u8>, Vec<u8>))
    ensures
        mlkem1024_generate_key(seed@) == (res.0@, res.1@),
        res.0@.len() == PUBLIC_KEY_LENGTH,
        res.1@.len() == SECRET_KEY_LENGTH,
{
    let pair = mlkem1024::generate_key_pair(seed);
    (pair.pk().to_vec(), pair.sk().to_vec())
}

/// Builds an `MlKem1024PublicKey` with `TryFrom<&[u8]>`, which fails exactly
/// when the length is not `PUBLIC_KEY_LENGTH`, and calls the infallible
/// `encapsulate`.
#[verifier::external_body]
fn mlkem_encapsulate(public_key: &[u8], randomness: [u8; ENCAPSULATION_RANDOMNESS_LENGTH]) -> (res:
    Option<(Vec<u8>, Vec<u8>)>)
    ensures
        res is Some <==> public_key@.len() == PUBLIC_KEY_LENGTH,
        res matches Some((ct, ss)) ==> mlkem1024_encapsulate(public_key@, randomness@) == (ct@, ss@)
            && ct@.len() == CIPHERTEXT_LENGTH && ss@.len() == SHARED_SECRET_LENGTH,
{
    let pk = MlKem1024PublicKey::try_from(public_key).ok()?;
    let (ct, ss) = mlkem1024::encapsulate(&pk, randomness);
    Some((ct.as_ref().to_vec(), ss.to_vec()))
}

/// Builds an `MlKem1024PrivateKey` and an `MlKem1024Ciphertext` with
/// `TryFrom<&[u8]>`, which fail exactly on wrong lengths (the key first), and
/// calls the infallible `decapsulate`.
#[verifier::external_body]
fn mlkem_decapsulate(secret_key: &[u8], ciphertext: &[u8]) -> (res: Result<Vec<u8>, DecapsulateError>)
    ensures
        secret_key@.len() != SECRET_KEY_LENGTH ==> res matches Err(DecapsulateError::BadKeyLength),
        secret_key@.len() == SECRET_KEY_LENGTH && ciphertext@.len() != CIPHERTEXT_LENGTH ==> res matches Err(
            DecapsulateError::BadCiphertext,
        ),
        res is Ok <==> (secret_key@.len() == SECRET_KEY_LENGTH && ciphertext@.len()
            == CIPHERTEXT_LENGTH),
        res matches Ok(ss) ==> ss@ == mlkem1024_decapsulate(secret_key@, ciphertext@)
            && ss@.len() == SHARED_SECRET_LENGTH,
{
    let sk = match MlKem1024PrivateKey::try_from(secret_key) {
        Ok(sk) => sk,
        Err(_) => return Err(DecapsulateError::BadKeyLength),
    };
    let ct = match MlKem1024Ciphertext::try_from(ciphertext) {
        Ok(ct) => ct,
        Err(_) => return Err(DecapsulateError::BadCiphertext),
    };
    Ok(mlkem1024::decapsulate(&sk, &ct).to_vec())
}

/// Generate an ML-KEM-1024 key pair from a 64-byte seed.
pub fn generate(seed: [u8; SEED_LENGTH]) -> (res: (Vec<u8>, Vec<u8>))
    ensures
        mlkem1024_generate_key(seed@) == (res.0@, res.1@),
        res.0@.len() == PUBLIC_KEY_LENGTH,
        res.1@.len() == SECRET_KEY_LENGTH,
{
    mlkem_generate_key_pair(seed)
}

/// Encapsulate to `pub_key` with the given randomness, returning the shared
/// secret and the raw ciphertext.
pub fn encapsulate(pub_key: &[u8], randomness: [u8; ENCAPSULATION_RANDOMNESS_LENGTH]) -> (res: Result<
    (Vec<u8>, Vec<u8>),
    BadKEMKeyLength,
>)
    ensures
        res is Ok <==> pub_key@.len() == PUBLIC_KEY_LENGTH,
        res matches Ok((ss, ct)) ==> mlkem1024_encapsulate(pub_key@, randomness@) == (ct@, ss@)
            && ct@.len() == CIPHERTEXT_LENGTH && ss@.len() == SHARED_SECRET_LENGTH,
{
    match mlkem_encapsulate(pub_key, randomness) {
        Some((ct, ss)) => Ok((ss, ct)),
        None => Err(BadKEMKeyLength),
    }
}

/// Decapsulate a raw `ciphertext` with `secret_key`.
pub fn decapsulate(secret_key: &[u8], ciphertext: &[u8]) -> (res: Result<Vec<u8>, DecapsulateError>)
    ensures
        secret_key@.len() != SECRET_KEY_LENGTH ==> res matches Err(DecapsulateError::BadKeyLength),
        secret_key@.len() == SECRET_KEY_LENGTH && ciphertext@.len() != CIPHERTEXT_LENGTH ==> res matches Err(
            DecapsulateError::BadCiphertext,
        ),
        res is Ok <==> (secret_key@.len() == SECRET_KEY_LENGTH && ciphertext@.len()
            == CIPHERTEXT_LENGTH),
        res matches Ok(ss) ==> ss@ == mlkem1024_decapsulate(secret_key@, ciphertext@)
            && ss@.len() == SHARED_SECRET_LENGTH,
{
    mlkem_decapsulate(secret_key, ciphertext)
}

} // verus!
