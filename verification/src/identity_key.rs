//! The long-term identity of a user: an ML-DSA-87 key pair used only to sign
//! and to verify signatures.

use vstd::prelude::*;

use crate::dsa::{
    self, mldsa87_sign, mldsa87_verify, spec_context, spec_flatten, spec_key_error, spec_parts,
    spec_serialize_key, spec_well_formed_key, PUBLIC_KEY_LENGTH, RANDOMNESS_LENGTH,
    SECRET_KEY_LENGTH, SIGNATURE_LENGTH,
};
use crate::error::{Result, SignalProtocolError};
use crate::proto::{
    decode_identity_key_pair, encode_identity_key_pair, spec_decode_identity_key_pair,
    spec_encode_identity_key_pair,
};

verus! {

/// First domain-separation prefix of an alternate-identity signature: 32 bytes of 0xFF.
pub const ALTERNATE_IDENTITY_SIGNATURE_PREFIX_1: [u8; 32] = [
    0xFF, 0xFF, 0xFF, 0xFF, 0xFF, 0xFF, 0xFF, 0xFF, 0xFF, 0xFF, 0xFF, 0xFF, 0xFF, 0xFF, 0xFF, 0xFF,
    0xFF, 0xFF, 0xFF, 0xFF, 0xFF, 0xFF, 0xFF, 0xFF, 0xFF, 0xFF, 0xFF, 0xFF, 0xFF, 0xFF, 0xFF, 0xFF,
];

/// Second domain-separation prefix of an alternate-identity signature: `Signal_PNI_Signature`.
pub const ALTERNATE_IDENTITY_SIGNATURE_PREFIX_2: [u8; 20] = [
    0x53, 0x69, 0x67, 0x6e, 0x61, 0x6c, 0x5f, 0x50, 0x4e, 0x49,
    0x5f, 0x53, 0x69, 0x67, 0x6e, 0x61, 0x74, 0x75, 0x72, 0x65,
];

/// The bytes `Signal_PNI_Signature`.
pub open spec fn spec_alternate_identity_prefix_2() -> Seq<u8> {
    seq![
        0x53u8, 0x69, 0x67, 0x6e, 0x61, 0x6c, 0x5f, 0x50, 0x4e, 0x49,
        0x5f, 0x53, 0x69, 0x67, 0x6e, 0x61, 0x74, 0x75, 0x72, 0x65,
    ]
}

/// The message signed to claim that the identity with key bytes `other` is an
/// alternate identity of the signer.
pub open spec fn spec_alternate_identity_message(other: Seq<u8>) -> Seq<u8> {
    Seq::new(32, |_i: int| 0xFFu8) + spec_alternate_identity_prefix_2() + spec_serialize_key(other)
}

/// The message parts, flattened, are the alternate-identity message.
proof fn lemma_alternate_identity_parts(parts: Seq<&[u8]>, other: Seq<u8>)
    requires
        parts.len() == 3,
        parts[0]@ == Seq::new(32, |_i: int| 0xFFu8),
        parts[1]@ == spec_alternate_identity_prefix_2(),
        parts[2]@ == spec_serialize_key(other),
    ensures
        spec_flatten(spec_parts(parts)) == spec_alternate_identity_message(other),
{
    let ps = spec_parts(parts);
    let p2 = ps.drop_last();
    let p1 = p2.drop_last();
    let p0 = p1.drop_last();
    assert(p0 =~= Seq::<Seq<u8>>::empty());
    assert(spec_flatten(p0) =~= Seq::<u8>::empty());
    assert(p1.last() == parts[0]@);
    assert(spec_flatten(p1) =~= parts[0]@);
    assert(p2.last() == parts[1]@);
    assert(spec_flatten(p2) =~= parts[0]@ + parts[1]@);
    assert(ps.last() == parts[2]@);
    assert(spec_flatten(ps) =~= parts[0]@ + parts[1]@ + parts[2]@);
}

/// A public key that represents the identity of a user. Identities are
/// ordered by their key bytes.
#[derive(Clone, Copy, PartialOrd, Ord)]
pub struct IdentityKey {
    public_key: dsa::PublicKey,
}

impl View for IdentityKey {
    type V = Seq<u8>;

    closed spec fn view(&self) -> Seq<u8> {
        self.public_key@
    }
}

impl IdentityKey {
    /// Every identity key holds exactly `PUBLIC_KEY_LENGTH` bytes.
    pub broadcast proof fn lemma_view_len(key: IdentityKey)
        ensures
            #[trigger] key@.len() == PUBLIC_KEY_LENGTH,
    {
        dsa::PublicKey::lemma_view_len(key.public_key);
    }

    /// Two identity keys with the same bytes are the same key.
    pub broadcast proof fn lemma_view_injective(a: IdentityKey, b: IdentityKey)
        ensures
            #[trigger] a@ == #[trigger] b@ ==> a == b,
    {
        dsa::PublicKey::lemma_view_injective(a.public_key, b.public_key);
    }

    /// Initialize a public-facing identity from a verification key.
    pub fn new(public_key: dsa::PublicKey) -> (res: Self)
        ensures
            res@ == public_key@,
    {
        Self { public_key }
    }

    /// The ML-DSA verification key representing this identity.
    pub fn public_key(&self) -> (res: &dsa::PublicKey)
        ensures
            res@ == self@,
    {
        &self.public_key
    }

    /// Serialize the identity; [`Self::decode`] reads it back.
    pub fn serialize(&self) -> (out: Vec<u8>)
        ensures
            out@ == spec_serialize_key(self@),
            out@.len() == PUBLIC_KEY_LENGTH + 1,
    {
        self.public_key.serialize()
    }

    /// Deserialize a public identity from a byte slice.
    pub fn decode(value: &[u8]) -> (res: Result<Self>)
        ensures
            res is Ok <==> spec_well_formed_key(value@, PUBLIC_KEY_LENGTH as nat),
            res matches Ok(k) ==> value@ == spec_serialize_key(k@),
            res matches Err(e) ==> spec_key_error(value@, PUBLIC_KEY_LENGTH as nat, "public"@, e),
    {
        let pk = dsa::PublicKey::deserialize(value)?;
        Ok(Self { public_key: pk })
    }

    /// The same as [`IdentityKey::decode`].
    pub fn try_from(value: &[u8]) -> (res: Result<Self>)
        ensures
            res is Ok <==> spec_well_formed_key(value@, PUBLIC_KEY_LENGTH as nat),
            res matches Ok(k) ==> value@ == spec_serialize_key(k@),
            res matches Err(e) ==> spec_key_error(value@, PUBLIC_KEY_LENGTH as nat, "public"@, e),
    {
        Self::decode(value)
    }

    /// Verify an ML-DSA `signature` over `message` by the corresponding key pair.
    pub fn verify_signature(&self, message: &[u8], signature: &[u8]) -> (ok: bool)
        ensures
            ok == (signature@.len() == SIGNATURE_LENGTH && mldsa87_verify(
                self@,
                message@,
                spec_context(),
                signature@,
            )),
            signature@.len() == SIGNATURE_LENGTH && dsa::spec_made_by_generated_pair(
                self@,
                message@,
                spec_context(),
                signature@,
            ) ==> ok,
    {
        self.public_key.verify_signature(message, signature)
    }

    /// Given a trusted identity `self`, verify that `other` is an alternate
    /// identity of this user; `signature` comes from
    /// [`IdentityKeyPair::sign_alternate_identity`], and one that a generated
    /// key pair made is accepted.
    pub fn verify_alternate_identity(&self, other: &IdentityKey, signature: &[u8]) -> (res: Result<
        bool,
    >)
        ensures
            res == Ok::<bool, SignalProtocolError>(
                signature@.len() == SIGNATURE_LENGTH && mldsa87_verify(
                    self@,
                    spec_alternate_identity_message(other@),
                    spec_context(),
                    signature@,
                ),
            ),
            signature@.len() == SIGNATURE_LENGTH && dsa::spec_made_by_generated_pair(
                self@,
                spec_alternate_identity_message(other@),
                spec_context(),
                signature@,
            ) ==> res == Ok::<bool, SignalProtocolError>(true),
    {
        let prefix_1: &[u8] = &ALTERNATE_IDENTITY_SIGNATURE_PREFIX_1;
        let prefix_2: &[u8] = &ALTERNATE_IDENTITY_SIGNATURE_PREFIX_2;
        let other_bytes = other.serialize();
        let parts: [&[u8]; 3] = [prefix_1, prefix_2, other_bytes.as_slice()];
        proof {
            assert(prefix_1@ =~= Seq::new(32, |_i: int| 0xFFu8));
            assert(prefix_2@ =~= spec_alternate_identity_prefix_2());
            lemma_alternate_identity_parts(parts@, other@);
        }
        Ok(self.public_key.verify_signature_for_multipart_message(&parts, signature))
    }

    /// Constant-time comparison of two identities.
    pub fn ct_eq(&self, other: &IdentityKey) -> (eq: bool)
        ensures
            eq == (self@ == other@),
    {
        self.public_key.ct_eq(&other.public_key)
    }
}

impl PartialEq for IdentityKey {
    fn eq(&self, other: &Self) -> (eq: bool) {
        self.ct_eq(other)
    }
}

impl vstd::std_specs::cmp::PartialEqSpecImpl for IdentityKey {
    open spec fn obeys_eq_spec() -> bool {
        true
    }

    open spec fn eq_spec(&self, other: &Self) -> bool {
        self@ == other@
    }
}

impl Eq for IdentityKey {}

impl From<dsa::PublicKey> for IdentityKey {
    fn from(value: dsa::PublicKey) -> (res: Self)
        ensures
            res@ == value@,
    {
        Self { public_key: value }
    }
}

impl vstd::std_specs::convert::FromSpecImpl<dsa::PublicKey> for IdentityKey {
    open spec fn obeys_from_spec() -> bool {
        true
    }

    closed spec fn from_spec(v: dsa::PublicKey) -> Self {
        IdentityKey { public_key: v }
    }
}

/// The private identity of a user.
#[derive(Clone, Copy)]
pub struct IdentityKeyPair {
    identity_key: IdentityKey,
    private_key: dsa::SecretKey,
}

impl IdentityKeyPair {
    /// The public identity of this key pair.
    pub closed spec fn spec_identity_key(&self) -> IdentityKey {
        self.identity_key
    }

    /// The private signing key of this key pair.
    pub closed spec fn spec_private_key(&self) -> dsa::SecretKey {
        self.private_key
    }

    /// Whether this key pair is the one generated from some randomness, so
    /// that its identity key verifies what its private key signs.
    pub open spec fn spec_is_generated(&self) -> bool {
        exists|seed: Seq<u8>|
            #[trigger] dsa::mldsa87_generate_key_pair(seed) == (
                self.spec_identity_key()@,
                self.spec_private_key()@,
            )
    }

    /// The stored form of this key pair: the protobuf structure holding both
    /// serialized keys.
    pub open spec fn spec_serialized(&self) -> Seq<u8> {
        spec_encode_identity_key_pair(
            spec_serialize_key(self.spec_identity_key()@),
            spec_serialize_key(self.spec_private_key()@),
        )
    }

    /// Key pairs with the same identity and private key are the same.
    pub broadcast proof fn lemma_fields_injective(a: IdentityKeyPair, b: IdentityKeyPair)
        ensures
            #[trigger] a.spec_identity_key() == #[trigger] b.spec_identity_key()
                && a.spec_private_key() == b.spec_private_key() ==> a == b,
    {
    }

    /// Create a key pair from a public `identity_key` and a private `private_key`.
    pub fn new(identity_key: IdentityKey, private_key: dsa::SecretKey) -> (res: Self)
        ensures
            res.spec_identity_key() == identity_key,
            res.spec_private_key() == private_key,
    {
        Self { identity_key, private_key }
    }

    /// Generate a new identity from 32 bytes of randomness.
    pub fn generate(randomness: [u8; RANDOMNESS_LENGTH]) -> (res: Self)
        ensures
            dsa::mldsa87_generate_key_pair(randomness@) == (
                res.spec_identity_key()@,
                res.spec_private_key()@,
            ),
            res.spec_is_generated(),
    {
        let keypair = dsa::KeyPair::generate(randomness);
        Self { identity_key: IdentityKey::new(keypair.public_key), private_key: keypair.secret_key }
    }

    /// The public identity of this user.
    pub fn identity_key(&self) -> (res: &IdentityKey)
        ensures
            *res == self.spec_identity_key(),
    {
        &self.identity_key
    }

    /// The public verification key that defines this identity.
    pub fn public_key(&self) -> (res: &dsa::PublicKey)
        ensures
            res@ == self.spec_identity_key()@,
    {
        self.identity_key.public_key()
    }

    /// The private signing key that defines this identity.
    pub fn private_key(&self) -> (res: &dsa::SecretKey)
        ensures
            *res == self.spec_private_key(),
    {
        &self.private_key
    }

    /// Serialize the key pair; [`Self::try_from`] reads it back.
    pub fn serialize(&self) -> (out: Vec<u8>)
        ensures
            out@ == self.spec_serialized(),
    {
        let public = self.identity_key.serialize();
        let private = self.private_key.serialize();
        encode_identity_key_pair(public.as_slice(), private.as_slice())
    }

    /// Deserialize a key pair that [`Self::serialize`] wrote.
    pub fn try_from(value: &[u8]) -> (res: Result<Self>)
        ensures
            match spec_decode_identity_key_pair(value@) {
                None => res == Err::<Self, _>(SignalProtocolError::InvalidProtobufEncoding),
                Some((pk, sk)) => {
                    &&& res is Ok <==> (spec_well_formed_key(pk, PUBLIC_KEY_LENGTH as nat)
                        && spec_well_formed_key(sk, SECRET_KEY_LENGTH as nat))
                    &&& res matches Ok(kp) ==> pk == spec_serialize_key(kp.spec_identity_key()@)
                        && sk == spec_serialize_key(kp.spec_private_key()@)
                    &&& res matches Err(e) ==> if !spec_well_formed_key(
                        pk,
                        PUBLIC_KEY_LENGTH as nat,
                    ) {
                        spec_key_error(pk, PUBLIC_KEY_LENGTH as nat, "public"@, e)
                    } else {
                        spec_key_error(sk, SECRET_KEY_LENGTH as nat, "secret"@, e)
                    }
                },
            },
    {
        let (public, private) = match decode_identity_key_pair(value) {
            Some(fields) => fields,
            None => {
                return Err(SignalProtocolError::InvalidProtobufEncoding);
            },
        };
        let identity_key = IdentityKey::decode(public.as_slice())?;
        let private_key = dsa::SecretKey::deserialize(private.as_slice())?;
        Ok(Self { identity_key, private_key })
    }

    /// Sign `message` with this identity's signing key and 32 bytes of randomness.
    pub fn sign(&self, message: &[u8], randomness: [u8; RANDOMNESS_LENGTH]) -> (res: Result<Vec<u8>>)
        ensures
            match res {
                Ok(sig) => mldsa87_sign(
                    self.spec_private_key()@,
                    message@,
                    spec_context(),
                    randomness@,
                ) == Some(sig@) && sig@.len() == SIGNATURE_LENGTH,
                Err(e) => mldsa87_sign(
                    self.spec_private_key()@,
                    message@,
                    spec_context(),
                    randomness@,
                ) is None && dsa::spec_signing_failed(e),
            },
    {
        self.private_key.calculate_signature(message, randomness)
    }

    /// Sign a claim that `other` represents the same user as `self`.
    pub fn sign_alternate_identity(
        &self,
        other: &IdentityKey,
        randomness: [u8; RANDOMNESS_LENGTH],
    ) -> (res: Result<Vec<u8>>)
        ensures
            match res {
                Ok(sig) => mldsa87_sign(
                    self.spec_private_key()@,
                    spec_alternate_identity_message(other@),
                    spec_context(),
                    randomness@,
                ) == Some(sig@) && sig@.len() == SIGNATURE_LENGTH,
                Err(e) => mldsa87_sign(
                    self.spec_private_key()@,
                    spec_alternate_identity_message(other@),
                    spec_context(),
                    randomness@,
                ) is None && dsa::spec_signing_failed(e),
            },
    {
        let prefix_1: &[u8] = &ALTERNATE_IDENTITY_SIGNATURE_PREFIX_1;
        let prefix_2: &[u8] = &ALTERNATE_IDENTITY_SIGNATURE_PREFIX_2;
        let other_bytes = other.serialize();
        let parts: [&[u8]; 3] = [prefix_1, prefix_2, other_bytes.as_slice()];
        proof {
            assert(prefix_1@ =~= Seq::new(32, |_i: int| 0xFFu8));
            assert(prefix_2@ =~= spec_alternate_identity_prefix_2());
            lemma_alternate_identity_parts(parts@, other@);
        }
        self.private_key.calculate_signature_for_multipart_message(&parts, randomness)
    }
}

impl From<dsa::KeyPair> for IdentityKeyPair {
    fn from(value: dsa::KeyPair) -> (res: Self) 
        ensures
            res.spec_identity_key()@ == value.public_key@,
            res.spec_private_key() == value.secret_key,
    {
        Self { identity_key: IdentityKey { public_key: value.public_key }, private_key: value.secret_key }
    }
}

impl vstd::std_specs::convert::FromSpecImpl<dsa::KeyPair> for IdentityKeyPair {
    open spec fn obeys_from_spec() -> bool {
        true
    }

    closed spec fn from_spec(v: dsa::KeyPair) -> Self {
        IdentityKeyPair { identity_key: IdentityKey { public_key: v.public_key }, private_key: v.secret_key }
    }
}

impl From<IdentityKeyPair> for dsa::KeyPair {
    fn from(value: IdentityKeyPair) -> (res: Self)
        ensures
            res.public_key@ == value.spec_identity_key()@,
            res.secret_key == value.spec_private_key(),
    {
        dsa::KeyPair { public_key: value.identity_key.public_key, secret_key: value.private_key }
    }
}

impl vstd::std_specs::convert::FromSpecImpl<IdentityKeyPair> for dsa::KeyPair {
    open spec fn obeys_from_spec() -> bool {
        true
    }

    closed spec fn from_spec(v: IdentityKeyPair) -> Self {
        dsa::KeyPair { public_key: v.identity_key.public_key, secret_key: v.private_key }
    }
}

/// Decoding a serialized identity gives back the same identity.
pub proof fn law_identity_key_serialization_round_trip(key: IdentityKey)
    ensures
        spec_well_formed_key(spec_serialize_key(key@), PUBLIC_KEY_LENGTH as nat),
        forall|other: IdentityKey|
            spec_serialize_key(#[trigger] other@) == spec_serialize_key(key@) ==> other == key,
{
    IdentityKey::lemma_view_len(key);
    assert forall|other: IdentityKey|
        spec_serialize_key(#[trigger] other@) == spec_serialize_key(key@) implies other == key by {
        assert(other@ =~= spec_serialize_key(other@).drop_first());
        assert(key@ =~= spec_serialize_key(key@).drop_first());
        IdentityKey::lemma_view_injective(other, key);
    }
}

/// Reading back a serialized identity key pair decodes both keys, accepts them,
/// and gives back the same key pair.
pub proof fn law_identity_key_pair_serialization_round_trip(pair: IdentityKeyPair)
    ensures
        spec_decode_identity_key_pair(pair.spec_serialized()) == Some((
            spec_serialize_key(pair.spec_identity_key()@),
            spec_serialize_key(pair.spec_private_key()@),
        )),
        spec_well_formed_key(spec_serialize_key(pair.spec_identity_key()@), PUBLIC_KEY_LENGTH as nat),
        spec_well_formed_key(spec_serialize_key(pair.spec_private_key()@), SECRET_KEY_LENGTH as nat),
        forall|other: IdentityKeyPair|
            spec_serialize_key(#[trigger] other.spec_identity_key()@) == spec_serialize_key(
                pair.spec_identity_key()@,
            ) && spec_serialize_key(other.spec_private_key()@) == spec_serialize_key(
                pair.spec_private_key()@,
            ) ==> other == pair,
{
    IdentityKey::lemma_view_len(pair.spec_identity_key());
    dsa::SecretKey::lemma_view_len(pair.spec_private_key());
    crate::proto::lemma_identity_key_pair_round_trip(
        spec_serialize_key(pair.spec_identity_key()@),
        spec_serialize_key(pair.spec_private_key()@),
    );
    law_identity_key_serialization_round_trip(pair.spec_identity_key());
    dsa::law_secret_key_serialization_round_trip(pair.spec_private_key());
    assert forall|other: IdentityKeyPair|
        spec_serialize_key(#[trigger] other.spec_identity_key()@) == spec_serialize_key(
            pair.spec_identity_key()@,
        ) && spec_serialize_key(other.spec_private_key()@) == spec_serialize_key(
            pair.spec_private_key()@,
        ) implies other == pair by {
        IdentityKeyPair::lemma_fields_injective(other, pair);
    }
}

} // verus!
