//! Root and chain keys, derived with HKDF-SHA-256.

use vstd::prelude::*;

use crate::curve;

verus! {

/// Length in bytes of a root key or a chain key.
pub const KEY_LENGTH: usize = 32;

/// HKDF info label of a root-key ratchet step: `WhisperRatchet`.
pub const RATCHET_LABEL: [u8; 14] = [
    0x57, 0x68, 0x69, 0x73, 0x70, 0x65, 0x72, 0x52, 0x61, 0x74, 0x63, 0x68, 0x65, 0x74,
];

/// The 64 bytes that HKDF-SHA-256 (`hkdf::Hkdf::<sha2::Sha256>::new(salt, ikm)`
/// followed by `expand(info, ..)` into 64 bytes) derives.
pub uninterp spec fn hkdf_sha256_64(salt: Option<Seq<u8>>, ikm: Seq<u8>, info: Seq<u8>) -> Seq<u8>;

/// The view of an optional salt.
pub open spec fn spec_salt(salt: Option<&[u8]>) -> Option<Seq<u8>> {
    match salt {
        Some(s) => Some(s@),
        None => None,
    }
}

/// Calls `hkdf::Hkdf::<sha2::Sha256>::new(salt, ikm)` and `expand(info, ..)`
/// into a 64-byte buffer; expanding 64 bytes never fails.
#[verifier::external_body]
pub(crate) fn hkdf_sha256_expand_64(salt: Option<&[u8]>, ikm: &[u8], info: &[u8]) -> (okm: [u8;
    64])
    ensures
        okm@ == hkdf_sha256_64(spec_salt(salt), ikm@, info@),
{
    let mut okm = [0u8; 64];
    let _ = hkdf::Hkdf::<sha2::Sha256>::new(salt, ikm).expand(info, &mut okm);
    okm
}

/// Split 64 bytes into the first and the second 32.
pub(crate) fn split_64(bytes: &[u8; 64]) -> (res: ([u8; KEY_LENGTH], [u8; KEY_LENGTH]))
    ensures
        res.0@ == bytes@.subrange(0, 32),
        res.1@ == bytes@.subrange(32, 64),
{
    let mut first = [0u8; KEY_LENGTH];
    let mut second = [0u8; KEY_LENGTH];
    let mut i: usize = 0;
    while i < KEY_LENGTH
        invariant
            i <= KEY_LENGTH,
            bytes@.len() == 64,
            forall|j: int| 0 <= j < i ==> first@[j] == bytes@[j] && second@[j] == bytes@[j + 32],
        decreases KEY_LENGTH - i,
    {
        first[i] = bytes[i];
        second[i] = bytes[i + 32];
        i = i + 1;
    }
    assert(first@ =~= bytes@.subrange(0, 32));
    assert(second@ =~= bytes@.subrange(32, 64));
    (first, second)
}

/// A chain key and its message index.
#[derive(Clone, Copy)]
pub struct ChainKey {
    pub key: [u8; KEY_LENGTH],
    pub index: u32,
}

impl ChainKey {
    /// A chain key with the given bytes and index.
    pub fn new(key: [u8; KEY_LENGTH], index: u32) -> (res: Self)
        ensures
            res.key == key,
            res.index == index,
    {
        ChainKey { key, index }
    }
}

/// A root key.
#[derive(Clone, Copy)]
pub struct RootKey {
    pub key: [u8; KEY_LENGTH],
}

/// The root and chain keys of a ratchet step from `root` with the shared
/// secret of `our_private` and `their_public`.
pub open spec fn spec_create_chain(root: Seq<u8>, their_public: Seq<u8>, our_private: Seq<u8>) -> Seq<u8> {
    hkdf_sha256_64(Some(root), curve::x25519_agreement(our_private, their_public), RATCHET_LABEL@)
}

impl RootKey {
    /// A root key with the given bytes.
    pub fn new(key: [u8; KEY_LENGTH]) -> (res: Self)
        ensures
            res.key == key,
    {
        RootKey { key }
    }

    /// One step of the root-key ratchet: a new root key and a sending chain
    /// key at index 0, both from the agreement of `our_ratchet_key` with
    /// `their_ratchet_key`.
    pub fn create_chain(&self, their_ratchet_key: &curve::PublicKey, our_ratchet_key: &curve::PrivateKey) -> (res: (
        RootKey,
        ChainKey,
    ))
        ensures
            res.0.key@ == hkdf_sha256_64(
                Some(self.key@),
                curve::x25519_agreement(our_ratchet_key@, their_ratchet_key@),
                RATCHET_LABEL@,
            ).subrange(0, 32),
            res.1.key@ == hkdf_sha256_64(
                Some(self.key@),
                curve::x25519_agreement(our_ratchet_key@, their_ratchet_key@),
                RATCHET_LABEL@,
            ).subrange(32, 64),
            res.0.key@ == spec_create_chain(self.key@, their_ratchet_key@, our_ratchet_key@).subrange(0, 32),
            res.1.key@ == spec_create_chain(self.key@, their_ratchet_key@, our_ratchet_key@).subrange(32, 64),
            res.1.index == 0,
    {
        let shared = our_ratchet_key.calculate_agreement(their_ratchet_key);
        let label: &[u8] = &RATCHET_LABEL;
        let salt: &[u8] = &self.key;
        let derived = hkdf_sha256_expand_64(Some(salt), &shared, label);
        let (root, chain) = split_64(&derived);
        (RootKey { key: root }, ChainKey { key: chain, index: 0 })
    }
}

} // verus!
