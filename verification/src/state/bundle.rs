//! The prekey bundle that Bob publishes for the handshake.

use vstd::prelude::*;

use crate::address::DeviceId;
use crate::curve;
use crate::error::{Result, SignalProtocolError};
use crate::identity_key::IdentityKey;
use crate::kem;
use crate::state::{KyberPreKeyId, SignedPreKeyId};

verus! {

/// Bob's signed X25519 ratchet key. It takes no part in the handshake secret;
/// it only starts the Double Ratchet. Bob's identity key signs it.
struct SignedPreKey {
    id: SignedPreKeyId,
    public_key: curve::PublicKey,
    signature: Vec<u8>,
}

impl SignedPreKey {
    fn new(id: SignedPreKeyId, public_key: curve::PublicKey, signature: Vec<u8>) -> (res: Self)
        ensures
            res.id == id,
            res.public_key == public_key,
            res.signature == signature,
    {
        Self { id, public_key, signature }
    }
}

/// A KEM prekey (signed last-resort or one-time), signed by Bob's identity key.
struct KyberPreKey {
    id: KyberPreKeyId,
    public_key: kem::PublicKey,
    signature: Vec<u8>,
}

impl KyberPreKey {
    fn new(id: KyberPreKeyId, public_key: kem::PublicKey, signature: Vec<u8>) -> (res: Self)
        ensures
            res.id == id,
            res.public_key == public_key,
            res.signature == signature,
    {
        Self { id, public_key, signature }
    }

    fn clone_key(&self) -> (res: Self)
        ensures
            res.id == self.id,
            res.public_key@ == self.public_key@,
            res.signature@ == self.signature@,
    {
        KyberPreKey { id: self.id, public_key: self.public_key.clone(), signature: self.signature.clone() }
    }
}

/// What a KEM prekey of a bundle holds.
pub struct KyberPreKeyView {
    pub id: KyberPreKeyId,
    pub public_key: (kem::KeyType, Seq<u8>),
    pub signature: Seq<u8>,
}

/// What a prekey bundle holds.
pub struct PreKeyBundleView {
    pub registration_id: u32,
    pub device_id: DeviceId,
    pub identity_key: IdentityKey,
    pub signed_pre_key_id: SignedPreKeyId,
    pub signed_pre_key_public: curve::PublicKey,
    pub signed_pre_key_signature: Seq<u8>,
    pub kyber_pre_key: KyberPreKeyView,
    pub one_time_kyber_pre_key: Option<KyberPreKeyView>,
}

/// The contents of a prekey bundle with every field optional. It serves as a
/// builder for [`PreKeyBundle`], whose [`PreKeyBundle::try_from`] checks that
/// the required fields are there.
pub struct PreKeyBundleContent {
    pub registration_id: Option<u32>,
    pub device_id: Option<DeviceId>,
    pub identity_key: Option<IdentityKey>,
    /// Signed X25519 ratchet key.
    pub ec_pre_key_id: Option<SignedPreKeyId>,
    pub ec_pre_key_public: Option<curve::PublicKey>,
    pub ec_pre_key_signature: Option<Vec<u8>>,
    /// Signed (last-resort) KEM prekey.
    pub kyber_pre_key_id: Option<KyberPreKeyId>,
    pub kyber_pre_key_public: Option<kem::PublicKey>,
    pub kyber_pre_key_signature: Option<Vec<u8>>,
    /// Optional one-time KEM prekey.
    pub one_time_kyber_pre_key_id: Option<KyberPreKeyId>,
    pub one_time_kyber_pre_key_public: Option<kem::PublicKey>,
    pub one_time_kyber_pre_key_signature: Option<Vec<u8>>,
}

/// The view of an optional byte vector.
pub open spec fn spec_opt_bytes(v: Option<Vec<u8>>) -> Option<Seq<u8>> {
    match v {
        Some(v) => Some(v@),
        None => None,
    }
}

/// The view of an optional KEM public key.
pub open spec fn spec_opt_kem(k: Option<kem::PublicKey>) -> Option<(kem::KeyType, Seq<u8>)> {
    match k {
        Some(k) => Some(k@),
        None => None,
    }
}

/// A bundle of Bob's prekeys and identity.
pub struct PreKeyBundle {
    registration_id: u32,
    device_id: DeviceId,
    identity_key: IdentityKey,
    /// Signed X25519 ratchet key.
    ec_signed_pre_key: SignedPreKey,
    /// Signed (last-resort) KEM prekey, always present.
    kyber_pre_key: KyberPreKey,
    /// Optional one-time KEM prekey.
    one_time_kyber_pre_key: Option<KyberPreKey>,
}

impl View for PreKeyBundle {
    type V = PreKeyBundleView;

    closed spec fn view(&self) -> PreKeyBundleView {
        PreKeyBundleView {
            registration_id: self.registration_id,
            device_id: self.device_id,
            identity_key: self.identity_key,
            signed_pre_key_id: self.ec_signed_pre_key.id,
            signed_pre_key_public: self.ec_signed_pre_key.public_key,
            signed_pre_key_signature: self.ec_signed_pre_key.signature@,
            kyber_pre_key: KyberPreKeyView {
                id: self.kyber_pre_key.id,
                public_key: self.kyber_pre_key.public_key@,
                signature: self.kyber_pre_key.signature@,
            },
            one_time_kyber_pre_key: match self.one_time_kyber_pre_key {
                Some(k) => Some(
                    KyberPreKeyView { id: k.id, public_key: k.public_key@, signature: k.signature@ },
                ),
                None => None,
            },
        }
    }
}

impl Clone for PreKeyBundle {
    fn clone(&self) -> (res: Self)
        ensures
            res@ == self@,
    {
        let ec_signed_pre_key = SignedPreKey::new(
            self.ec_signed_pre_key.id,
            self.ec_signed_pre_key.public_key,
            self.ec_signed_pre_key.signature.clone(),
        );
        let one_time_kyber_pre_key = match &self.one_time_kyber_pre_key {
            Some(k) => Some(k.clone_key()),
            None => None,
        };
        PreKeyBundle {
            registration_id: self.registration_id,
            device_id: self.device_id,
            identity_key: self.identity_key,
            ec_signed_pre_key,
            kyber_pre_key: self.kyber_pre_key.clone_key(),
            one_time_kyber_pre_key,
        }
    }
}

impl PreKeyBundle {
    /// A bundle without a one-time KEM prekey.
    #[allow(clippy::too_many_arguments)]
    pub fn new(
        registration_id: u32,
        device_id: DeviceId,
        signed_pre_key_id: SignedPreKeyId,
        signed_pre_key_public: curve::PublicKey,
        signed_pre_key_signature: Vec<u8>,
        kyber_pre_key_id: KyberPreKeyId,
        kyber_pre_key_public: kem::PublicKey,
        kyber_pre_key_signature: Vec<u8>,
        identity_key: IdentityKey,
    ) -> (res: Result<Self>)
        ensures
            res matches Ok(b) && b@ == (PreKeyBundleView {
                registration_id,
                device_id,
                identity_key,
                signed_pre_key_id,
                signed_pre_key_public,
                signed_pre_key_signature: signed_pre_key_signature@,
                kyber_pre_key: KyberPreKeyView {
                    id: kyber_pre_key_id,
                    public_key: kyber_pre_key_public@,
                    signature: kyber_pre_key_signature@,
                },
                one_time_kyber_pre_key: None,
            }),
    {
        let ec_signed_pre_key = SignedPreKey::new(
            signed_pre_key_id,
            signed_pre_key_public,
            signed_pre_key_signature,
        );
        let kyber_pre_key = KyberPreKey::new(
            kyber_pre_key_id,
            kyber_pre_key_public,
            kyber_pre_key_signature,
        );
        Ok(Self {
            registration_id,
            device_id,
            identity_key,
            ec_signed_pre_key,
            kyber_pre_key,
            one_time_kyber_pre_key: None,
        })
    }

    /// This bundle with a one-time KEM prekey.
    pub fn with_one_time_kyber_pre_key(
        self,
        pre_key_id: KyberPreKeyId,
        public_key: kem::PublicKey,
        signature: Vec<u8>,
    ) -> (res: Self)
        ensures
            res@ == (PreKeyBundleView {
                one_time_kyber_pre_key: Some(
                    KyberPreKeyView { id: pre_key_id, public_key: public_key@, signature: signature@ },
                ),
                ..self@
            }),
    {
        let mut res = self;
        res.one_time_kyber_pre_key = Some(KyberPreKey::new(pre_key_id, public_key, signature));
        res
    }

    pub fn registration_id(&self) -> (res: Result<u32>)
        ensures
            res == Ok::<u32, SignalProtocolError>(self@.registration_id),
    {
        Ok(self.registration_id)
    }

    pub fn device_id(&self) -> (res: Result<DeviceId>)
        ensures
            res == Ok::<DeviceId, SignalProtocolError>(self@.device_id),
    {
        Ok(self.device_id)
    }

    /// Identifier of Bob's signed X25519 ratchet key.
    pub fn signed_pre_key_id(&self) -> (res: Result<SignedPreKeyId>)
        ensures
            res == Ok::<SignedPreKeyId, SignalProtocolError>(self@.signed_pre_key_id),
    {
        Ok(self.ec_signed_pre_key.id)
    }

    /// Bob's signed X25519 ratchet key.
    pub fn signed_pre_key_public(&self) -> (res: Result<curve::PublicKey>)
        ensures
            res == Ok::<curve::PublicKey, SignalProtocolError>(self@.signed_pre_key_public),
    {
        Ok(self.ec_signed_pre_key.public_key)
    }

    pub fn signed_pre_key_signature(&self) -> (res: Result<&[u8]>)
        ensures
            res matches Ok(s) && s@ == self@.signed_pre_key_signature,
    {
        Ok(self.ec_signed_pre_key.signature.as_slice())
    }

    pub fn identity_key(&self) -> (res: Result<&IdentityKey>)
        ensures
            res matches Ok(k) && *k == self@.identity_key,
    {
        Ok(&self.identity_key)
    }

    /// Identifier of Bob's signed (last-resort) KEM prekey.
    pub fn kyber_pre_key_id(&self) -> (res: Result<KyberPreKeyId>)
        ensures
            res == Ok::<KyberPreKeyId, SignalProtocolError>(self@.kyber_pre_key.id),
    {
        Ok(self.kyber_pre_key.id)
    }

    /// Bob's signed (last-resort) KEM prekey.
    pub fn kyber_pre_key_public(&self) -> (res: Result<&kem::PublicKey>)
        ensures
            res matches Ok(k) && k@ == self@.kyber_pre_key.public_key,
    {
        Ok(&self.kyber_pre_key.public_key)
    }

    pub fn kyber_pre_key_signature(&self) -> (res: Result<&[u8]>)
        ensures
            res matches Ok(s) && s@ == self@.kyber_pre_key.signature,
    {
        Ok(self.kyber_pre_key.signature.as_slice())
    }

    pub fn has_one_time_kyber_pre_key(&self) -> (res: bool)
        ensures
            res == self@.one_time_kyber_pre_key is Some,
    {
        self.one_time_kyber_pre_key.is_some()
    }

    /// Identifier of Bob's one-time KEM prekey, if any.
    pub fn one_time_kyber_pre_key_id(&self) -> (res: Result<Option<KyberPreKeyId>>)
        ensures
            res matches Ok(id) && id == match self@.one_time_kyber_pre_key {
                Some(k) => Some(k.id),
                None => None,
            },
    {
        match &self.one_time_kyber_pre_key {
            Some(k) => Ok(Some(k.id)),
            None => Ok(None),
        }
    }

    /// Bob's one-time KEM prekey, if any.
    pub fn one_time_kyber_pre_key_public(&self) -> (res: Result<Option<&kem::PublicKey>>)
        ensures
            res matches Ok(k) && match self@.one_time_kyber_pre_key {
                Some(o) => k matches Some(pk) && pk@ == o.public_key,
                None => k is None,
            },
    {
        match &self.one_time_kyber_pre_key {
            Some(k) => Ok(Some(&k.public_key)),
            None => Ok(None),
        }
    }

    pub fn one_time_kyber_pre_key_signature(&self) -> (res: Result<Option<&[u8]>>)
        ensures
            res matches Ok(s) && match self@.one_time_kyber_pre_key {
                Some(o) => s matches Some(sig) && sig@ == o.signature,
                None => s is None,
            },
    {
        match &self.one_time_kyber_pre_key {
            Some(k) => Ok(Some(k.signature.as_slice())),
            None => Ok(None),
        }
    }
}

/// What the contents of a bundle hold.
pub struct PreKeyBundleContentView {
    pub registration_id: Option<u32>,
    pub device_id: Option<DeviceId>,
    pub identity_key: Option<IdentityKey>,
    pub ec_pre_key_id: Option<SignedPreKeyId>,
    pub ec_pre_key_public: Option<curve::PublicKey>,
    pub ec_pre_key_signature: Option<Seq<u8>>,
    pub kyber_pre_key_id: Option<KyberPreKeyId>,
    pub kyber_pre_key_public: Option<(kem::KeyType, Seq<u8>)>,
    pub kyber_pre_key_signature: Option<Seq<u8>>,
    pub one_time_kyber_pre_key_id: Option<KyberPreKeyId>,
    pub one_time_kyber_pre_key_public: Option<(kem::KeyType, Seq<u8>)>,
    pub one_time_kyber_pre_key_signature: Option<Seq<u8>>,
}

impl View for PreKeyBundleContent {
    type V = PreKeyBundleContentView;

    open spec fn view(&self) -> PreKeyBundleContentView {
        PreKeyBundleContentView {
            registration_id: self.registration_id,
            device_id: self.device_id,
            identity_key: self.identity_key,
            ec_pre_key_id: self.ec_pre_key_id,
            ec_pre_key_public: self.ec_pre_key_public,
            ec_pre_key_signature: spec_opt_bytes(self.ec_pre_key_signature),
            kyber_pre_key_id: self.kyber_pre_key_id,
            kyber_pre_key_public: spec_opt_kem(self.kyber_pre_key_public),
            kyber_pre_key_signature: spec_opt_bytes(self.kyber_pre_key_signature),
            one_time_kyber_pre_key_id: self.one_time_kyber_pre_key_id,
            one_time_kyber_pre_key_public: spec_opt_kem(self.one_time_kyber_pre_key_public),
            one_time_kyber_pre_key_signature: spec_opt_bytes(self.one_time_kyber_pre_key_signature),
        }
    }
}

/// The contents of a bundle: every field present, the one-time fields exactly
/// when the bundle has a one-time KEM prekey.
pub open spec fn spec_content_of(b: PreKeyBundleView) -> PreKeyBundleContentView {
    PreKeyBundleContentView {
        registration_id: Some(b.registration_id),
        device_id: Some(b.device_id),
        identity_key: Some(b.identity_key),
        ec_pre_key_id: Some(b.signed_pre_key_id),
        ec_pre_key_public: Some(b.signed_pre_key_public),
        ec_pre_key_signature: Some(b.signed_pre_key_signature),
        kyber_pre_key_id: Some(b.kyber_pre_key.id),
        kyber_pre_key_public: Some(b.kyber_pre_key.public_key),
        kyber_pre_key_signature: Some(b.kyber_pre_key.signature),
        one_time_kyber_pre_key_id: match b.one_time_kyber_pre_key {
            Some(k) => Some(k.id),
            None => None,
        },
        one_time_kyber_pre_key_public: match b.one_time_kyber_pre_key {
            Some(k) => Some(k.public_key),
            None => None,
        },
        one_time_kyber_pre_key_signature: match b.one_time_kyber_pre_key {
            Some(k) => Some(k.signature),
            None => None,
        },
    }
}

/// The name of the first required field that the contents lack, if any, in
/// the order in which they are checked.
pub open spec fn spec_first_missing(c: PreKeyBundleContentView) -> Option<Seq<char>> {
    if c.registration_id is None {
        Some("registration_id is required"@)
    } else if c.device_id is None {
        Some("device_id is required"@)
    } else if c.ec_pre_key_id is None {
        Some("signed_pre_key_id is required"@)
    } else if c.ec_pre_key_public is None {
        Some("signed_pre_key_public is required"@)
    } else if c.ec_pre_key_signature is None {
        Some("signed_pre_key_signature is required"@)
    } else if c.kyber_pre_key_id is None {
        Some("kyber_pre_key_id is required"@)
    } else if c.kyber_pre_key_public is None {
        Some("kyber_pre_key_public is required"@)
    } else if c.kyber_pre_key_signature is None {
        Some("kyber_pre_key_signature is required"@)
    } else if c.identity_key is None {
        Some("identity_key is required"@)
    } else {
        None
    }
}

/// The bundle that complete contents describe; the one-time KEM prekey is
/// there exactly when all three of its fields are.
pub open spec fn spec_bundle_of_content(c: PreKeyBundleContentView) -> PreKeyBundleView {
    PreKeyBundleView {
        registration_id: c.registration_id.unwrap(),
        device_id: c.device_id.unwrap(),
        identity_key: c.identity_key.unwrap(),
        signed_pre_key_id: c.ec_pre_key_id.unwrap(),
        signed_pre_key_public: c.ec_pre_key_public.unwrap(),
        signed_pre_key_signature: c.ec_pre_key_signature.unwrap(),
        kyber_pre_key: KyberPreKeyView {
            id: c.kyber_pre_key_id.unwrap(),
            public_key: c.kyber_pre_key_public.unwrap(),
            signature: c.kyber_pre_key_signature.unwrap(),
        },
        one_time_kyber_pre_key: if c.one_time_kyber_pre_key_id is Some
            && c.one_time_kyber_pre_key_public is Some && c.one_time_kyber_pre_key_signature is Some {
            Some(
                KyberPreKeyView {
                    id: c.one_time_kyber_pre_key_id.unwrap(),
                    public_key: c.one_time_kyber_pre_key_public.unwrap(),
                    signature: c.one_time_kyber_pre_key_signature.unwrap(),
                },
            )
        } else {
            None
        },
    }
}

/// What building a bundle from `c` gives: the bundle it describes, or an
/// invalid-argument error naming the first missing required field.
pub open spec fn spec_try_from_result(c: PreKeyBundleContentView, res: Result<PreKeyBundle>) -> bool {
    match spec_first_missing(c) {
        Some(msg) => res matches Err(SignalProtocolError::InvalidArgument(m)) && m@ == msg,
        None => res matches Ok(b) && b@ == spec_bundle_of_content(c),
    }
}

/// Take the required value of a field, or fail with `message`.
fn required<T>(value: Option<T>, message: &str) -> (res: Result<T>)
    ensures
        match value {
            Some(v) => res matches Ok(r) && r == v,
            None => res matches Err(SignalProtocolError::InvalidArgument(m)) && m@ == message@,
        },
{
    match value {
        Some(v) => Ok(v),
        None => Err(SignalProtocolError::InvalidArgument(String::from_str(message))),
    }
}

impl PreKeyBundleContent {
    /// The contents of `bundle`.
    pub fn from(bundle: PreKeyBundle) -> (res: Self)
        ensures
            res@ == spec_content_of(bundle@),
    {
        let (one_time_id, one_time_public, one_time_signature) = match bundle.one_time_kyber_pre_key {
            Some(k) => (Some(k.id), Some(k.public_key), Some(k.signature)),
            None => (None, None, None),
        };
        Self {
            registration_id: Some(bundle.registration_id),
            device_id: Some(bundle.device_id),
            identity_key: Some(bundle.identity_key),
            ec_pre_key_id: Some(bundle.ec_signed_pre_key.id),
            ec_pre_key_public: Some(bundle.ec_signed_pre_key.public_key),
            ec_pre_key_signature: Some(bundle.ec_signed_pre_key.signature),
            kyber_pre_key_id: Some(bundle.kyber_pre_key.id),
            kyber_pre_key_public: Some(bundle.kyber_pre_key.public_key),
            kyber_pre_key_signature: Some(bundle.kyber_pre_key.signature),
            one_time_kyber_pre_key_id: one_time_id,
            one_time_kyber_pre_key_public: one_time_public,
            one_time_kyber_pre_key_signature: one_time_signature,
        }
    }
}

impl PreKeyBundle {
    /// Build a bundle from its contents, checking that every required field is there.
    pub fn try_from(content: PreKeyBundleContent) -> (res: Result<Self>)
        ensures
            spec_try_from_result(content@, res),
    {
        let ghost c = content@;
        let registration_id = required(content.registration_id, "registration_id is required")?;
        let device_id = required(content.device_id, "device_id is required")?;
        let ec_pre_key_id = required(content.ec_pre_key_id, "signed_pre_key_id is required")?;
        let ec_pre_key_public = required(content.ec_pre_key_public, "signed_pre_key_public is required")?;
        let ec_pre_key_signature = required(
            content.ec_pre_key_signature,
            "signed_pre_key_signature is required",
        )?;
        let kyber_pre_key_id = required(content.kyber_pre_key_id, "kyber_pre_key_id is required")?;
        let kyber_pre_key_public = required(
            content.kyber_pre_key_public,
            "kyber_pre_key_public is required",
        )?;
        let kyber_pre_key_signature = required(
            content.kyber_pre_key_signature,
            "kyber_pre_key_signature is required",
        )?;
        let identity_key = required(content.identity_key, "identity_key is required")?;
        let mut bundle = PreKeyBundle::new(
            registration_id,
            device_id,
            ec_pre_key_id,
            ec_pre_key_public,
            ec_pre_key_signature,
            kyber_pre_key_id,
            kyber_pre_key_public,
            kyber_pre_key_signature,
            identity_key,
        )?;
        match (
            content.one_time_kyber_pre_key_id,
            content.one_time_kyber_pre_key_public,
            content.one_time_kyber_pre_key_signature,
        ) {
            (Some(id), Some(public), Some(sig)) => {
                bundle = bundle.with_one_time_kyber_pre_key(id, public, sig);
            },
            _ => {},
        }
        assert(bundle@ == spec_bundle_of_content(c));
        Ok(bundle)
    }

    /// Rebuild this bundle after `modify` has changed its contents.
    pub fn modify<F>(self, modify: F) -> (res: Result<Self>)
        where
            F: FnOnce(PreKeyBundleContent) -> PreKeyBundleContent,
        requires
            forall|c: PreKeyBundleContent| call_requires(modify, (c,)),
        ensures
            exists|c: PreKeyBundleContent, changed: PreKeyBundleContent|
                c@ == spec_content_of(self@) && call_ensures(modify, (c,), changed)
                    && spec_try_from_result(changed@, res),
    {
        let content = PreKeyBundleContent::from(self);
        let changed = modify(content);
        PreKeyBundle::try_from(changed)
    }
}

/// Taking a bundle apart into its contents and building it again gives the
/// same bundle: the contents of a bundle lack no required field, and describe
/// that bundle.
pub proof fn law_bundle_content_round_trip(b: PreKeyBundleView)
    ensures
        spec_first_missing(spec_content_of(b)) is None,
        spec_bundle_of_content(spec_content_of(b)) == b,
{
    let c = spec_content_of(b);
    match b.one_time_kyber_pre_key {
        Some(k) => {
            assert(spec_bundle_of_content(c).one_time_kyber_pre_key == Some(k));
        },
        None => {},
    }
    assert(spec_bundle_of_content(c).kyber_pre_key == b.kyber_pre_key);
}

} // verus!
