//! Key encapsulation for the post-quantum prekeys. Serialized keys and
//! ciphertexts carry a type byte that names the KEM: ML-KEM-1024 (type byte
//! `0x0A`) or HQC-256 (type byte `0x0B`).

use vstd::prelude::*;

use crate::error::{Result, SignalProtocolError};

pub mod hqc256;
pub mod mlkem1024;

verus! {

/// The KEM of a key or ciphertext.
#[derive(Clone, Copy, Debug, PartialEq, Eq, Structural)]
pub enum KeyType {
    /// ML-KEM-1024.
    MLKEM1024,
    /// HQC-256.
    HQC256,
}

/// Type byte of ML-KEM-1024 keys and ciphertexts.
pub const MLKEM1024_TYPE: u8 = 0x0A;
/// Type byte of HQC-256 keys and ciphertexts.
pub const HQC256_TYPE: u8 = 0x0B;

/// Length in bytes of the key-generation seed of every key type.
pub const SEED_LENGTH: usize = 64;

/// Whether `b` is the type byte of a key type.
pub open spec fn spec_known_type(b: u8) -> bool {
    b == MLKEM1024_TYPE || b == HQC256_TYPE
}

/// The key type whose type byte is `b`, for a known type byte.
pub open spec fn spec_type_of(b: u8) -> KeyType {
    if b == MLKEM1024_TYPE {
        KeyType::MLKEM1024
    } else {
        KeyType::HQC256
    }
}

impl KeyType {
    /// The type byte of this key type.
    pub open spec fn spec_value(self) -> u8 {
        match self {
            KeyType::MLKEM1024 => MLKEM1024_TYPE,
            KeyType::HQC256 => HQC256_TYPE,
        }
    }

    /// The type byte of this key type.
    pub fn value(&self) -> (v: u8)
        ensures
            v == self.spec_value(),
    {
        match self {
            KeyType::MLKEM1024 => MLKEM1024_TYPE,
            KeyType::HQC256 => HQC256_TYPE,
        }
    }

    /// The key type that a type byte names.
    pub fn try_from_value(value: u8) -> (res: Result<KeyType>)
        ensures
            spec_known_type(value) ==> res == Ok::<KeyType, SignalProtocolError>(spec_type_of(value)),
            !spec_known_type(value) ==> (res matches Err(SignalProtocolError::BadKEMKeyType(v)) && v
                == value),
    {
        if value == MLKEM1024_TYPE {
            Ok(KeyType::MLKEM1024)
        } else if value == HQC256_TYPE {
            Ok(KeyType::HQC256)
        } else {
            Err(SignalProtocolError::BadKEMKeyType(value))
        }
    }

    /// Length of a raw public key of this type.
    pub open spec fn spec_public_key_length(self) -> nat {
        match self {
            KeyType::MLKEM1024 => mlkem1024::PUBLIC_KEY_LENGTH as nat,
            KeyType::HQC256 => hqc256::PUBLIC_KEY_LENGTH as nat,
        }
    }

    /// Length of a raw public key of this type.
    pub fn public_key_length(&self) -> (n: usize)
        ensures
            n == self.spec_public_key_length(),
    {
        match self {
            KeyType::MLKEM1024 => mlkem1024::PUBLIC_KEY_LENGTH,
            KeyType::HQC256 => hqc256::PUBLIC_KEY_LENGTH,
        }
    }

    /// Length of a raw ciphertext of this type.
    pub fn ciphertext_length(&self) -> (n: usize)
        ensures
            n == self.spec_ciphertext_length(),
    {
        match self {
            KeyType::MLKEM1024 => mlkem1024::CIPHERTEXT_LENGTH,
            KeyType::HQC256 => hqc256::CIPHERTEXT_LENGTH,
        }
    }

    /// Length of a raw secret key of this type.
    pub open spec fn spec_secret_key_length(self) -> nat {
        match self {
            KeyType::MLKEM1024 => mlkem1024::SECRET_KEY_LENGTH as nat,
            KeyType::HQC256 => hqc256::SECRET_KEY_LENGTH as nat,
        }
    }

    /// Length of a raw ciphertext of this type.
    pub open spec fn spec_ciphertext_length(self) -> nat {
        match self {
            KeyType::MLKEM1024 => mlkem1024::CIPHERTEXT_LENGTH as nat,
            KeyType::HQC256 => hqc256::CIPHERTEXT_LENGTH as nat,
        }
    }
}

/// A KEM public key had the wrong length.
#[derive(Clone, Copy, Debug)]
pub struct BadKEMKeyLength;

/// Why a decapsulation failed.
#[derive(Clone, Copy, Debug, PartialEq, Eq, Structural)]
pub enum DecapsulateError {
    /// The secret key had the wrong length.
    BadKeyLength,
    /// The ciphertext had the wrong length.
    BadCiphertext,
}

/// Length in bytes of the shared secret of every key type.
pub const SHARED_SECRET_LENGTH: usize = 32;

/// The (public, secret) raw keys that generating a key pair of type
/// `key_type` from `seed` gives.
pub open spec fn spec_generate_key(key_type: KeyType, seed: Seq<u8>) -> (Seq<u8>, Seq<u8>) {
    match key_type {
        KeyType::MLKEM1024 => mlkem1024::mlkem1024_generate_key(seed),
        KeyType::HQC256 => hqc256::hqc256_generate_key(seed.subrange(0, 32)),
    }
}

/// A serialized ciphertext: its type byte, then the raw ciphertext.
pub type SerializedCiphertext = Vec<u8>;

/// The serialized form of raw key or ciphertext bytes of type `key_type`.
pub open spec fn spec_serialize_typed(key_type: KeyType, data: Seq<u8>) -> Seq<u8> {
    seq![key_type.spec_value()] + data
}

/// Serialize raw bytes with a type byte.
fn serialize_typed(key_type: KeyType, data: &[u8]) -> (out: Vec<u8>)
    ensures
        out@ == spec_serialize_typed(key_type, data@),
{
    let mut out: Vec<u8> = Vec::new();
    out.push(key_type.value());
    out.extend_from_slice(data);
    assert(out@ =~= spec_serialize_typed(key_type, data@));
    out
}

/// The shared secret of an encapsulation to raw key `key` of type `key_type`
/// with the given message and salt, with the serialized ciphertext. ML-KEM-1024
/// takes the message as its encapsulation randomness and uses no salt.
pub open spec fn spec_encapsulate(key_type: KeyType, key: Seq<u8>, message: Seq<u8>, salt: Seq<u8>) -> (
    Seq<u8>,
    Seq<u8>,
) {
    match key_type {
        KeyType::MLKEM1024 => {
            let (ct, ss) = mlkem1024::mlkem1024_encapsulate(key, message);
            (ss, spec_serialize_typed(key_type, ct))
        },
        KeyType::HQC256 => {
            let (ct, ss) = hqc256::hqc256_encapsulate(key, message, salt);
            (ss, spec_serialize_typed(key_type, ct))
        },
    }
}

/// The shared secret that decapsulating the raw ciphertext `ct` with raw secret
/// key `key` of type `key_type` recovers.
pub open spec fn spec_decapsulate(key_type: KeyType, key: Seq<u8>, ct: Seq<u8>) -> Seq<u8> {
    match key_type {
        KeyType::MLKEM1024 => mlkem1024::mlkem1024_decapsulate(key, ct),
        KeyType::HQC256 => hqc256::hqc256_decapsulate(key, ct),
    }
}

/// Whether `ct` is a serialized ciphertext that a secret key of type
/// `key_type` with `key_len` bytes accepts.
pub open spec fn spec_decapsulation_succeeds(key_type: KeyType, key_len: nat, ct: Seq<u8>) -> bool {
    &&& ct.len() > 0
    &&& ct[0] == key_type.spec_value()
    &&& ct.len() == key_type.spec_ciphertext_length() + 1
    &&& key_len == key_type.spec_secret_key_length()
}

/// The error that decapsulating the serialized ciphertext `ct` with a secret
/// key of type `key_type` and `key_len` bytes reports when it fails: a missing
/// or unknown type byte, then a ciphertext of the wrong length, then a key of
/// the wrong length.
pub open spec fn spec_decapsulation_error(
    key_type: KeyType,
    key_len: nat,
    ct: Seq<u8>,
    e: SignalProtocolError,
) -> bool {
    if ct.len() == 0 {
        e == SignalProtocolError::NoKeyTypeIdentifier
    } else if !spec_known_type(ct[0]) {
        e == SignalProtocolError::BadKEMKeyType(ct[0])
    } else if ct.len() != spec_type_of(ct[0]).spec_ciphertext_length() + 1 {
        e matches SignalProtocolError::BadKEMCiphertextLength(t, n) && t == spec_type_of(ct[0]) && n
            == ct.len()
    } else if spec_type_of(ct[0]) != key_type {
        e == SignalProtocolError::WrongKEMKeyType(ct[0], key_type.spec_value())
    } else {
        e matches SignalProtocolError::BadKEMKeyLength(t, n) && t == key_type && n == key_len
    }
}

/// A KEM public key.
pub struct PublicKey {
    key_type: KeyType,
    key: Vec<u8>,
}

impl View for PublicKey {
    type V = (KeyType, Seq<u8>);

    closed spec fn view(&self) -> (KeyType, Seq<u8>) {
        (self.key_type, self.key@)
    }
}

impl Clone for PublicKey {
    fn clone(&self) -> (res: Self)
        ensures
            res@ == self@,
    {
        PublicKey { key_type: self.key_type, key: self.key.clone() }
    }
}

impl PublicKey {
    /// The key type of this key.
    pub fn key_type(&self) -> (t: KeyType)
        ensures
            t == self@.0,
    {
        self.key_type
    }

    /// Serialize the key with its type byte.
    pub fn serialize(&self) -> (out: Vec<u8>)
        ensures
            out@ == spec_serialize_typed(self@.0, self@.1),
    {
        serialize_typed(self.key_type, self.key.as_slice())
    }

    /// Deserialize a key from its type-prefixed representation.
    pub fn deserialize(value: &[u8]) -> (res: Result<Self>)
        ensures
            value@.len() == 0 ==> res matches Err(SignalProtocolError::NoKeyTypeIdentifier),
            value@.len() > 0 && !spec_known_type(value@[0]) ==> (res matches Err(
                SignalProtocolError::BadKEMKeyType(b),
            ) && b == value@[0]),
            value@.len() > 0 && spec_known_type(value@[0]) && value@.len() != spec_type_of(
                value@[0],
            ).spec_public_key_length() + 1 ==> (res matches Err(
                SignalProtocolError::BadKEMKeyLength(t, n),
            ) && t == spec_type_of(value@[0]) && n == value@.len()),
            res is Ok <==> (value@.len() > 0 && spec_known_type(value@[0]) && value@.len()
                == spec_type_of(value@[0]).spec_public_key_length() + 1),
            res matches Ok(k) ==> value@ == spec_serialize_typed(k@.0, k@.1),
    {
        if value.len() == 0 {
            return Err(SignalProtocolError::NoKeyTypeIdentifier);
        }
        let key_type = KeyType::try_from_value(value[0])?;
        if value.len() != key_type.public_key_length() + 1 {
            return Err(SignalProtocolError::BadKEMKeyLength(key_type, value.len()));
        }
        let mut key: Vec<u8> = Vec::new();
        key.extend_from_slice(&value[1..value.len()]);
        let res = PublicKey { key_type, key };
        assert(value@ =~= spec_serialize_typed(res@.0, res@.1));
        Ok(res)
    }

    /// Encapsulate to this key with the given message and salt: the shared
    /// secret and the serialized ciphertext.
    pub fn encapsulate(
        &self,
        message: [u8; hqc256::MESSAGE_LENGTH],
        salt: [u8; hqc256::SALT_LENGTH],
    ) -> (res: Result<(Vec<u8>, SerializedCiphertext)>)
        ensures
            res is Ok <==> self@.1.len() == self@.0.spec_public_key_length(),
            res matches Ok((ss, ct)) ==> (ss@, ct@) == spec_encapsulate(
                self@.0,
                self@.1,
                message@,
                salt@,
            ),
            res matches Ok((ss, ct)) ==> ss@.len() == SHARED_SECRET_LENGTH && ct@.len()
                == self@.0.spec_ciphertext_length() + 1,
            res matches Err(e) ==> e matches SignalProtocolError::BadKEMKeyLength(t, n) && t
                == self@.0 && n == self@.1.len(),
    {
        match self.key_type {
            KeyType::MLKEM1024 => match mlkem1024::encapsulate(self.key.as_slice(), message) {
                Ok((ss, ct)) => {
                    let serialized = serialize_typed(self.key_type, ct.as_slice());
                    Ok((ss, serialized))
                },
                Err(_) => Err(SignalProtocolError::BadKEMKeyLength(self.key_type, self.key.len())),
            },
            KeyType::HQC256 => match hqc256::encapsulate(self.key.as_slice(), message, salt) {
                Ok((ss, ct)) => {
                    let serialized = serialize_typed(self.key_type, ct.as_slice());
                    Ok((ss, serialized))
                },
                Err(_) => Err(SignalProtocolError::BadKEMKeyLength(self.key_type, self.key.len())),
            },
        }
    }
}

/// A KEM secret key.
pub struct SecretKey {
    key_type: KeyType,
    key: Vec<u8>,
}

impl View for SecretKey {
    type V = (KeyType, Seq<u8>);

    closed spec fn view(&self) -> (KeyType, Seq<u8>) {
        (self.key_type, self.key@)
    }
}

impl Clone for SecretKey {
    fn clone(&self) -> (res: Self)
        ensures
            res@ == self@,
    {
        SecretKey { key_type: self.key_type, key: self.key.clone() }
    }
}

impl SecretKey {
    /// Serialize the key with its type byte.
    pub fn serialize(&self) -> (out: Vec<u8>)
        ensures
            out@ == spec_serialize_typed(self@.0, self@.1),
    {
        serialize_typed(self.key_type, self.key.as_slice())
    }

    /// Decapsulate a serialized ciphertext.
    pub fn decapsulate(&self, ct_bytes: &[u8]) -> (res: Result<Vec<u8>>)
        ensures
            res is Ok <==> spec_decapsulation_succeeds(self@.0, self@.1.len(), ct_bytes@),
            res matches Err(e) ==> spec_decapsulation_error(self@.0, self@.1.len(), ct_bytes@, e),
            res matches Ok(ss) ==> ss@ == spec_decapsulate(self@.0, self@.1, ct_bytes@.drop_first())
                && ss@.len() == SHARED_SECRET_LENGTH,
    {
        if ct_bytes.len() == 0 {
            return Err(SignalProtocolError::NoKeyTypeIdentifier);
        }
        let ct_type = KeyType::try_from_value(ct_bytes[0])?;
        if ct_bytes.len() != ct_type.ciphertext_length() + 1 {
            return Err(SignalProtocolError::BadKEMCiphertextLength(ct_type, ct_bytes.len()));
        }
        if ct_type != self.key_type {
            return Err(SignalProtocolError::WrongKEMKeyType(ct_type.value(), self.key_type.value()));
        }
        let ct = &ct_bytes[1..ct_bytes.len()];
        assert(ct@ =~= ct_bytes@.drop_first());
        match self.key_type {
            KeyType::MLKEM1024 => match mlkem1024::decapsulate(self.key.as_slice(), ct) {
                Ok(ss) => Ok(ss),
                Err(DecapsulateError::BadKeyLength) => Err(
                    SignalProtocolError::BadKEMKeyLength(self.key_type, self.key.len()),
                ),
                Err(DecapsulateError::BadCiphertext) => Err(
                    SignalProtocolError::BadKEMCiphertextLength(self.key_type, ct.len()),
                ),
            },
            KeyType::HQC256 => match hqc256::decapsulate(self.key.as_slice(), ct) {
                Ok(ss) => Ok(ss),
                Err(DecapsulateError::BadKeyLength) => Err(
                    SignalProtocolError::BadKEMKeyLength(self.key_type, self.key.len()),
                ),
                Err(DecapsulateError::BadCiphertext) => Err(
                    SignalProtocolError::BadKEMCiphertextLength(self.key_type, ct.len()),
                ),
            },
        }
    }
}

/// A KEM key pair.
pub struct KeyPair {
    pub public_key: PublicKey,
    pub secret_key: SecretKey,
}

impl Clone for KeyPair {
    fn clone(&self) -> (res: Self)
        ensures
            res.public_key@ == self.public_key@,
            res.secret_key@ == self.secret_key@,
    {
        KeyPair { public_key: self.public_key.clone(), secret_key: self.secret_key.clone() }
    }
}

impl KeyPair {
    /// Generate a key pair of type `key_type` from a 64-byte seed; HQC-256
    /// uses its first 32 bytes.
    pub fn generate(key_type: KeyType, seed: [u8; SEED_LENGTH]) -> (pair: Self)
        ensures
            pair.public_key@.0 == key_type,
            pair.secret_key@.0 == key_type,
            spec_generate_key(key_type, seed@) == (pair.public_key@.1, pair.secret_key@.1),
            pair.public_key@.1.len() == key_type.spec_public_key_length(),
            pair.secret_key@.1.len() == key_type.spec_secret_key_length(),
    {
        match key_type {
            KeyType::MLKEM1024 => {
                let (public, secret) = mlkem1024::generate(seed);
                KeyPair {
                    public_key: PublicKey { key_type, key: public },
                    secret_key: SecretKey { key_type, key: secret },
                }
            },
            KeyType::HQC256 => {
                let (first, _) = crate::ratchet::keys::split_64(&seed);
                let (public, secret) = hqc256::generate(first);
                KeyPair {
                    public_key: PublicKey { key_type, key: public },
                    secret_key: SecretKey { key_type, key: secret },
                }
            },
        }
    }
}

} // verus!
