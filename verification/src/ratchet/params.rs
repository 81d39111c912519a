//! Parameters of the two halves of the fully post-quantum PQXDH handshake.
//!
//! Confidentiality comes from KEM encapsulations (a signed last-resort prekey
//! and an optional one-time prekey); authentication comes from ML-DSA-87
//! signatures. The only X25519 key left, Bob's signed ratchet key, starts the
//! Double Ratchet and takes no part in the handshake secret.

use vstd::prelude::*;

use crate::curve::{KeyPair, PublicKey};
use crate::identity_key::{IdentityKey, IdentityKeyPair};
use crate::kem;

verus! {

/// What Alice's parameters hold.
pub struct AliceParametersView {
    pub our_identity_key_pair: IdentityKeyPair,
    pub our_base_key_pair: KeyPair,
    pub their_identity_key: IdentityKey,
    pub their_ratchet_key: PublicKey,
    pub their_signed_kem_pre_key: (kem::KeyType, Seq<u8>),
    pub their_one_time_kem_pre_key: Option<(kem::KeyType, Seq<u8>)>,
}

/// What Bob's parameters hold.
pub struct BobParametersView {
    pub our_identity_key_pair: IdentityKeyPair,
    pub our_ratchet_key_pair: KeyPair,
    pub our_signed_kem_secret_key: (kem::KeyType, Seq<u8>),
    pub our_signed_kem_public_key: (kem::KeyType, Seq<u8>),
    pub our_one_time_kem_secret_key: Option<(kem::KeyType, Seq<u8>)>,
    pub our_one_time_kem_public_key: Option<(kem::KeyType, Seq<u8>)>,
    pub their_identity_key: IdentityKey,
    pub their_base_key: PublicKey,
    pub their_kem_ciphertext: Seq<u8>,
    pub their_one_time_kem_ciphertext: Option<Seq<u8>>,
    pub their_signature: Seq<u8>,
}

/// Alice's side of the handshake.
pub struct AliceSignalProtocolParameters<'a> {
    our_identity_key_pair: IdentityKeyPair,
    our_base_key_pair: KeyPair,
    their_identity_key: IdentityKey,
    /// Bob's signed X25519 ratchet key.
    their_ratchet_key: PublicKey,
    /// Bob's signed (last-resort) KEM prekey.
    their_signed_kem_pre_key: kem::PublicKey,
    /// Bob's optional one-time KEM prekey.
    their_one_time_kem_pre_key: Option<&'a kem::PublicKey>,
}

impl<'a> View for AliceSignalProtocolParameters<'a> {
    type V = AliceParametersView;

    closed spec fn view(&self) -> AliceParametersView {
        AliceParametersView {
            our_identity_key_pair: self.our_identity_key_pair,
            our_base_key_pair: self.our_base_key_pair,
            their_identity_key: self.their_identity_key,
            their_ratchet_key: self.their_ratchet_key,
            their_signed_kem_pre_key: self.their_signed_kem_pre_key@,
            their_one_time_kem_pre_key: match self.their_one_time_kem_pre_key {
                Some(k) => Some(k@),
                None => None,
            },
        }
    }
}

impl<'a> AliceSignalProtocolParameters<'a> {






    /// Parameters without a one-time KEM prekey.
    pub fn new(
        our_identity_key_pair: IdentityKeyPair,
        our_base_key_pair: KeyPair,
        their_identity_key: IdentityKey,
        their_ratchet_key: PublicKey,
        their_signed_kem_pre_key: kem::PublicKey,
    ) -> (res: Self)
        ensures
            res@.our_identity_key_pair == our_identity_key_pair,
            res@.our_base_key_pair == our_base_key_pair,
            res@.their_identity_key == their_identity_key,
            res@.their_ratchet_key == their_ratchet_key,
            res@.their_signed_kem_pre_key == their_signed_kem_pre_key@,
            res@.their_one_time_kem_pre_key is None,
    {
        Self {
            our_identity_key_pair,
            our_base_key_pair,
            their_identity_key,
            their_ratchet_key,
            their_signed_kem_pre_key,
            their_one_time_kem_pre_key: None,
        }
    }

    /// Add Bob's one-time KEM prekey.
    pub fn set_their_one_time_kem_pre_key(&mut self, kem_public: &'a kem::PublicKey)
        ensures
            final(self)@.our_identity_key_pair == old(self)@.our_identity_key_pair,
            final(self)@.our_base_key_pair == old(self)@.our_base_key_pair,
            final(self)@.their_identity_key == old(self)@.their_identity_key,
            final(self)@.their_ratchet_key == old(self)@.their_ratchet_key,
            final(self)@.their_signed_kem_pre_key == old(self)@.their_signed_kem_pre_key,
            final(self)@.their_one_time_kem_pre_key == Some(kem_public@),
    {
        self.their_one_time_kem_pre_key = Some(kem_public);
    }

    /// These parameters with Bob's one-time KEM prekey added.
    pub fn with_their_one_time_kem_pre_key(self, kem_public: &'a kem::PublicKey) -> (res: Self)
        ensures
            res@.our_identity_key_pair == self@.our_identity_key_pair,
            res@.our_base_key_pair == self@.our_base_key_pair,
            res@.their_identity_key == self@.their_identity_key,
            res@.their_ratchet_key == self@.their_ratchet_key,
            res@.their_signed_kem_pre_key == self@.their_signed_kem_pre_key,
            res@.their_one_time_kem_pre_key == Some(kem_public@),
    {
        let mut res = self;
        res.set_their_one_time_kem_pre_key(kem_public);
        res
    }

    pub fn our_identity_key_pair(&self) -> (res: &IdentityKeyPair)
        ensures
            *res == self@.our_identity_key_pair,
    {
        &self.our_identity_key_pair
    }

    pub fn our_base_key_pair(&self) -> (res: &KeyPair)
        ensures
            *res == self@.our_base_key_pair,
    {
        &self.our_base_key_pair
    }

    pub fn their_identity_key(&self) -> (res: &IdentityKey)
        ensures
            *res == self@.their_identity_key,
    {
        &self.their_identity_key
    }

    pub fn their_ratchet_key(&self) -> (res: &PublicKey)
        ensures
            *res == self@.their_ratchet_key,
    {
        &self.their_ratchet_key
    }

    pub fn their_signed_kem_pre_key(&self) -> (res: &kem::PublicKey)
        ensures
            res@ == self@.their_signed_kem_pre_key,
    {
        &self.their_signed_kem_pre_key
    }

    pub fn their_one_time_kem_pre_key(&self) -> (res: Option<&kem::PublicKey>)
        ensures
            match res {
                Some(k) => self@.their_one_time_kem_pre_key == Some(k@),
                None => self@.their_one_time_kem_pre_key is None,
            },
    {
        self.their_one_time_kem_pre_key
    }
}

/// Bob's side of the handshake.
pub struct BobSignalProtocolParameters<'a> {
    our_identity_key_pair: IdentityKeyPair,
    /// Bob's signed X25519 ratchet key pair.
    our_ratchet_key_pair: KeyPair,
    /// Bob's signed (last-resort) KEM prekey pair.
    our_signed_kem_pre_key_pair: kem::KeyPair,
    /// Bob's optional one-time KEM prekey pair.
    our_one_time_kem_pre_key_pair: Option<kem::KeyPair>,
    their_identity_key: IdentityKey,
    their_base_key: PublicKey,
    /// Ciphertext encapsulated by Alice to Bob's signed KEM prekey.
    their_kem_ciphertext: &'a kem::SerializedCiphertext,
    /// Optional ciphertext encapsulated to Bob's one-time KEM prekey.
    their_one_time_kem_ciphertext: Option<&'a kem::SerializedCiphertext>,
    /// Alice's ML-DSA-87 signature over the handshake transcript.
    their_signature: &'a [u8],
}

impl<'a> View for BobSignalProtocolParameters<'a> {
    type V = BobParametersView;

    closed spec fn view(&self) -> BobParametersView {
        BobParametersView {
            our_identity_key_pair: self.our_identity_key_pair,
            our_ratchet_key_pair: self.our_ratchet_key_pair,
            our_signed_kem_secret_key: self.our_signed_kem_pre_key_pair.secret_key@,
            our_signed_kem_public_key: self.our_signed_kem_pre_key_pair.public_key@,
            our_one_time_kem_secret_key: match self.our_one_time_kem_pre_key_pair {
                Some(k) => Some(k.secret_key@),
                None => None,
            },
            our_one_time_kem_public_key: match self.our_one_time_kem_pre_key_pair {
                Some(k) => Some(k.public_key@),
                None => None,
            },
            their_identity_key: self.their_identity_key,
            their_base_key: self.their_base_key,
            their_kem_ciphertext: self.their_kem_ciphertext@,
            their_one_time_kem_ciphertext: match self.their_one_time_kem_ciphertext {
                Some(c) => Some(c@),
                None => None,
            },
            their_signature: self.their_signature@,
        }
    }
}

impl<'a> BobSignalProtocolParameters<'a> {











    #[allow(clippy::too_many_arguments)]
    pub fn new(
        our_identity_key_pair: IdentityKeyPair,
        our_ratchet_key_pair: KeyPair,
        our_signed_kem_pre_key_pair: kem::KeyPair,
        our_one_time_kem_pre_key_pair: Option<kem::KeyPair>,
        their_identity_key: IdentityKey,
        their_base_key: PublicKey,
        their_kem_ciphertext: &'a kem::SerializedCiphertext,
        their_one_time_kem_ciphertext: Option<&'a kem::SerializedCiphertext>,
        their_signature: &'a [u8],
    ) -> (res: Self)
        ensures
            res@.our_identity_key_pair == our_identity_key_pair,
            res@.our_ratchet_key_pair == our_ratchet_key_pair,
            res@.our_signed_kem_secret_key == our_signed_kem_pre_key_pair.secret_key@,
            res@.our_signed_kem_public_key == our_signed_kem_pre_key_pair.public_key@,
            res@.our_one_time_kem_secret_key == match our_one_time_kem_pre_key_pair {
                Some(k) => Some(k.secret_key@),
                None => None,
            },
            res@.our_one_time_kem_public_key == match our_one_time_kem_pre_key_pair {
                Some(k) => Some(k.public_key@),
                None => None,
            },
            res@.their_identity_key == their_identity_key,
            res@.their_base_key == their_base_key,
            res@.their_kem_ciphertext == their_kem_ciphertext@,
            res@.their_one_time_kem_ciphertext == match their_one_time_kem_ciphertext {
                Some(c) => Some(c@),
                None => None,
            },
            res@.their_signature == their_signature@,
    {
        Self {
            our_identity_key_pair,
            our_ratchet_key_pair,
            our_signed_kem_pre_key_pair,
            our_one_time_kem_pre_key_pair,
            their_identity_key,
            their_base_key,
            their_kem_ciphertext,
            their_one_time_kem_ciphertext,
            their_signature,
        }
    }

    pub fn our_identity_key_pair(&self) -> (res: &IdentityKeyPair)
        ensures
            *res == self@.our_identity_key_pair,
    {
        &self.our_identity_key_pair
    }

    pub fn our_ratchet_key_pair(&self) -> (res: &KeyPair)
        ensures
            *res == self@.our_ratchet_key_pair,
    {
        &self.our_ratchet_key_pair
    }

    pub fn our_signed_kem_pre_key_pair(&self) -> (res: &kem::KeyPair)
        ensures
            res.secret_key@ == self@.our_signed_kem_secret_key,
            res.public_key@ == self@.our_signed_kem_public_key,
    {
        &self.our_signed_kem_pre_key_pair
    }

    pub fn our_one_time_kem_pre_key_pair(&self) -> (res: Option<&kem::KeyPair>)
        ensures
            match res {
                Some(k) => self@.our_one_time_kem_secret_key == Some(k.secret_key@)
                    && self@.our_one_time_kem_public_key == Some(k.public_key@),
                None => self@.our_one_time_kem_secret_key is None
                    && self@.our_one_time_kem_public_key is None,
            },
    {
        self.our_one_time_kem_pre_key_pair.as_ref()
    }

    pub fn their_identity_key(&self) -> (res: &IdentityKey)
        ensures
            *res == self@.their_identity_key,
    {
        &self.their_identity_key
    }

    pub fn their_base_key(&self) -> (res: &PublicKey)
        ensures
            *res == self@.their_base_key,
    {
        &self.their_base_key
    }

    pub fn their_kem_ciphertext(&self) -> (res: &kem::SerializedCiphertext)
        ensures
            res@ == self@.their_kem_ciphertext,
    {
        self.their_kem_ciphertext
    }

    pub fn their_one_time_kem_ciphertext(&self) -> (res: Option<&kem::SerializedCiphertext>)
        ensures
            match res {
                Some(c) => self@.their_one_time_kem_ciphertext == Some(c@),
                None => self@.their_one_time_kem_ciphertext is None,
            },
    {
        self.their_one_time_kem_ciphertext
    }

    pub fn their_signature(&self) -> (res: &[u8])
        ensures
            res@ == self@.their_signature,
    {
        self.their_signature
    }
}

} // verus!
