//! Setting up sessions from a prekey bundle (Alice) and from a PreKey message
//! (Bob).
//!
//! The stores of identities, prekeys and sessions live with the caller: these
//! functions take what the caller read from them and return what it should
//! write back.

use vstd::prelude::*;

use crate::address::ProtocolAddress;
use crate::curve;
use crate::dsa::{mldsa87_verify, spec_context, SIGNATURE_LENGTH};
use crate::error::{Result, SignalProtocolError};
use crate::identity_key::{IdentityKey, IdentityKeyPair};
use crate::kem;
use crate::protocol::{CiphertextMessageType, PreKeySignalMessage};
use crate::ratchet::{
    self, spec_alice_error, spec_alice_session_keys, spec_alice_succeeds, spec_bob_accepts,
    spec_bob_error, spec_bob_session_keys, AliceHandshakeRandomness, AliceParametersView,
    AliceSignalProtocolParameters, BobParametersView, BobSignalProtocolParameters,
};
use crate::state::bundle::{PreKeyBundle, PreKeyBundleView};
use crate::state::session::{
    spec_archived, spec_promoted, spec_session_matches, SessionRecord, SessionState,
    UnacknowledgedPreKeyMessage,
};
use crate::state::{KyberPreKeyId, PreKeyId, SignedPreKeyId};

verus! {

/// The prekeys that setting up a session from a PreKey message consumed.
pub struct PreKeysUsed {
    pub pre_key_id: Option<PreKeyId>,
    pub kyber_pre_key_id: Option<KyberPreKeyId>,
}

impl Default for PreKeysUsed {
    fn default() -> (res: Self)
        ensures
            res.pre_key_id is None,
            res.kyber_pre_key_id is None,
    {
        PreKeysUsed { pre_key_id: None, kyber_pre_key_id: None }
    }
}

/// The identity that the caller should save for the remote address once the
/// rest of its work has succeeded.
#[must_use]
pub struct IdentityToSave<'a> {
    pub remote_address: &'a ProtocolAddress,
    pub their_identity_key: &'a IdentityKey,
}

/// Whether `signature` is a valid signature of `message` by the identity key `key`.
pub open spec fn spec_signed_by(key: IdentityKey, message: Seq<u8>, signature: Seq<u8>) -> bool {
    signature.len() == SIGNATURE_LENGTH && mldsa87_verify(key@, message, spec_context(), signature)
}

/// Whether Bob's identity key signs every prekey of the bundle: the X25519
/// ratchet key, the signed KEM prekey, and the one-time KEM prekey if there is one.
pub open spec fn spec_bundle_signatures_valid(b: PreKeyBundleView) -> bool {
    &&& spec_signed_by(
        b.identity_key,
        curve::spec_serialize_public(b.signed_pre_key_public@),
        b.signed_pre_key_signature,
    )
    &&& spec_signed_by(
        b.identity_key,
        kem::spec_serialize_typed(b.kyber_pre_key.public_key.0, b.kyber_pre_key.public_key.1),
        b.kyber_pre_key.signature,
    )
    &&& b.one_time_kyber_pre_key matches Some(k) ==> spec_signed_by(
        b.identity_key,
        kem::spec_serialize_typed(k.public_key.0, k.public_key.1),
        k.signature,
    )
}

/// Alice's handshake parameters for a bundle.
pub open spec fn spec_bundle_parameters(
    our_identity_key_pair: IdentityKeyPair,
    our_base_key_pair: curve::KeyPair,
    b: PreKeyBundleView,
) -> AliceParametersView {
    AliceParametersView {
        our_identity_key_pair,
        our_base_key_pair,
        their_identity_key: b.identity_key,
        their_ratchet_key: b.signed_pre_key_public,
        their_signed_kem_pre_key: b.kyber_pre_key.public_key,
        their_one_time_kem_pre_key: match b.one_time_kyber_pre_key {
            Some(k) => Some(k.public_key),
            None => None,
        },
    }
}

/// Verify that Bob's identity key signed every prekey of the bundle.
fn verify_bundle_signatures(bundle: &PreKeyBundle) -> (res: Result<()>)
    ensures
        res is Ok <==> spec_bundle_signatures_valid(bundle@),
        res matches Err(e) ==> e is SignatureValidationFailed,
{
    let their_identity_key = bundle.identity_key()?;
    let ratchet_key = bundle.signed_pre_key_public()?;
    if !their_identity_key.verify_signature(
        ratchet_key.serialize().as_slice(),
        bundle.signed_pre_key_signature()?,
    ) {
        return Err(SignalProtocolError::SignatureValidationFailed);
    }
    if !their_identity_key.verify_signature(
        bundle.kyber_pre_key_public()?.serialize().as_slice(),
        bundle.kyber_pre_key_signature()?,
    ) {
        return Err(SignalProtocolError::SignatureValidationFailed);
    }
    if let Some(one_time_public) = bundle.one_time_kyber_pre_key_public()? {
        if let Some(signature) = bundle.one_time_kyber_pre_key_signature()? {
            if !their_identity_key.verify_signature(one_time_public.serialize().as_slice(), signature) {
                return Err(SignalProtocolError::SignatureValidationFailed);
            }
        }
    }
    Ok(())
}

/// The checks that Alice makes on Bob's prekey bundle before she uses it:
/// that her identity store trusts its identity for sending (`trusted`), then
/// that Bob's identity key signed each of its prekeys.
pub fn validate_bundle(remote_address: &ProtocolAddress, trusted: bool, bundle: &PreKeyBundle) -> (res:
    Result<()>)
    ensures
        res is Ok <==> (trusted && spec_bundle_signatures_valid(bundle@)),
        res matches Err(e) ==> if !trusted {
            e matches SignalProtocolError::UntrustedIdentity(a) && a@ == remote_address@
        } else {
            e is SignatureValidationFailed
        },
{
    if !trusted {
        return Err(SignalProtocolError::UntrustedIdentity(remote_address.clone()));
    }
    verify_bundle_signatures(bundle)
}

/// Alice's processing of Bob's prekey bundle. `trusted` is whether Alice's
/// identity store trusts the bundle's identity for sending; `existing` is her
/// stored record for Bob, if any; `our_base_key_pair` is a freshly generated
/// X25519 key pair. On success the caller saves the bundle's identity for
/// `remote_address` and stores the returned record.
#[allow(clippy::too_many_arguments)]
pub fn process_prekey_bundle(
    remote_address: &ProtocolAddress,
    trusted: bool,
    existing: Option<SessionRecord>,
    our_identity_key_pair: IdentityKeyPair,
    local_registration_id: u32,
    bundle: &PreKeyBundle,
    now: u64,
    our_base_key_pair: curve::KeyPair,
    randomness: &AliceHandshakeRandomness,
) -> (res: Result<SessionRecord>)
    ensures
        ({
            let pa = spec_bundle_parameters(our_identity_key_pair, our_base_key_pair, bundle@);
            &&& res is Ok <==> (trusted && spec_bundle_signatures_valid(bundle@)
                && spec_alice_succeeds(pa, *randomness))
            &&& res matches Err(e) ==> if !trusted {
                e matches SignalProtocolError::UntrustedIdentity(a) && a@ == remote_address@
            } else if !spec_bundle_signatures_valid(bundle@) {
                e is SignatureValidationFailed
            } else {
                spec_alice_error(pa, *randomness, e)
            }
            &&& res matches Ok(record) ==> (record.current_session matches Some(s)
                && spec_alice_session_keys(pa, *randomness, s)
                && s.unacknowledged_pre_key_message == Some(
                UnacknowledgedPreKeyMessage {
                    pre_key_id: None,
                    signed_pre_key_id: bundle@.signed_pre_key_id,
                    base_key: our_base_key_pair.public_key,
                    timestamp: now,
                },
            ) && s.unacknowledged_kyber_pre_key_id == Some(bundle@.kyber_pre_key.id)
                && s.pq_one_time_pre_key_id == match bundle@.one_time_kyber_pre_key {
                Some(k) => Some(k.id),
                None => None,
            } && s.local_registration_id == local_registration_id && s.remote_registration_id
                == bundle@.registration_id)
            &&& res matches Ok(record) ==> match existing {
                Some(e) => spec_archived(e, record.previous_sessions@),
                None => record.previous_sessions@.len() == 0,
            }
        }),
{
    validate_bundle(remote_address, trusted, bundle)?;

    let mut session_record = match existing {
        Some(record) => record,
        None => SessionRecord::new_fresh(),
    };

    let their_identity_key = bundle.identity_key()?;
    let their_ratchet_key = bundle.signed_pre_key_public()?;
    let mut parameters = AliceSignalProtocolParameters::new(
        our_identity_key_pair,
        our_base_key_pair,
        *their_identity_key,
        their_ratchet_key,
        bundle.kyber_pre_key_public()?.clone(),
    );
    if let Some(one_time_public) = bundle.one_time_kyber_pre_key_public()? {
        parameters.set_their_one_time_kem_pre_key(one_time_public);
    }
    proof {
        assert(parameters@ == spec_bundle_parameters(our_identity_key_pair, our_base_key_pair, bundle@));
    }

    let mut session = ratchet::initialize_alice_session(&parameters, randomness)?;

    session.unacknowledged_pre_key_message = Some(
        UnacknowledgedPreKeyMessage {
            pre_key_id: None,
            signed_pre_key_id: bundle.signed_pre_key_id()?,
            base_key: our_base_key_pair.public_key,
            timestamp: now,
        },
    );
    session.unacknowledged_kyber_pre_key_id = Some(bundle.kyber_pre_key_id()?);
    session.pq_one_time_pre_key_id = bundle.one_time_kyber_pre_key_id()?;
    session.local_registration_id = local_registration_id;
    session.remote_registration_id = bundle.registration_id()?;

    session_record.promote_state(session);
    Ok(session_record)
}

/// What Bob's processing of a PreKey message needs next.
pub enum PreKeyProcessing<'a> {
    /// A session for this message exists already and is current again.
    Done(PreKeysUsed, IdentityToSave<'a>),
    /// The prekeys that the message names must be loaded, and
    /// [`process_prekey_impl`] called with them.
    NeedsKeys {
        signed_pre_key_id: SignedPreKeyId,
        kyber_pre_key_id: Option<KyberPreKeyId>,
        one_time_kyber_pre_key_id: Option<KyberPreKeyId>,
    },
}

/// Whether `record` holds, current or earlier, the session set up by `message`.
pub open spec fn spec_has_session_for(record: SessionRecord, message: PreKeySignalMessage) -> bool {
    ||| record.current_session matches Some(cur) && spec_session_matches(
        cur,
        message.message_version,
        curve::spec_serialize_public(message.base_key@),
    )
    ||| exists|i: int|
        0 <= i < record.previous_sessions@.len() && spec_session_matches(
            #[trigger] record.previous_sessions@[i],
            message.message_version,
            curve::spec_serialize_public(message.base_key@),
        )
}

/// Bob's first step on a PreKey message. `trusted` is whether his identity
/// store trusts the message's identity for receiving. If the record already
/// holds the session this message set up, that session becomes current and
/// nothing is consumed; otherwise the caller loads the named prekeys.
pub fn process_prekey<'a>(
    message: &'a PreKeySignalMessage,
    remote_address: &'a ProtocolAddress,
    trusted: bool,
    session_record: &mut SessionRecord,
) -> (res: Result<PreKeyProcessing<'a>>)
    ensures
        !trusted ==> (res matches Err(SignalProtocolError::UntrustedIdentity(a)) && a@
            == remote_address@),
        !trusted ==> *final(session_record) == *old(session_record),
        trusted ==> res is Ok,
        trusted && spec_has_session_for(*old(session_record), *message) ==> (res matches Ok(
            PreKeyProcessing::Done(used, save),
        ) && used.pre_key_id is None && used.kyber_pre_key_id is None && save.remote_address
            == remote_address && save.their_identity_key == &message.identity_key),
        trusted && spec_has_session_for(*old(session_record), *message) ==> (final(session_record).current_session matches Some(cur) && spec_session_matches(
            cur,
            message.message_version,
            curve::spec_serialize_public(message.base_key@),
        )),
        trusted && spec_has_session_for(*old(session_record), *message) ==> spec_promoted(
            *old(session_record),
            *final(session_record),
            message.message_version,
            curve::spec_serialize_public(message.base_key@),
        ),
        trusted && !spec_has_session_for(*old(session_record), *message) ==> (res matches Ok(
            PreKeyProcessing::NeedsKeys {
                signed_pre_key_id,
                kyber_pre_key_id,
                one_time_kyber_pre_key_id,
            },
        ) && signed_pre_key_id == message.signed_pre_key_id && kyber_pre_key_id
            == message.kyber_pre_key_id && one_time_kyber_pre_key_id
            == message.pq_one_time_pre_key_id),
        trusted && !spec_has_session_for(*old(session_record), *message)
            ==> final(session_record).current_session == old(session_record).current_session,
        trusted && !spec_has_session_for(*old(session_record), *message)
            ==> final(session_record).previous_sessions@ == old(session_record).previous_sessions@,
{
    if !trusted {
        return Err(SignalProtocolError::UntrustedIdentity(remote_address.clone()));
    }
    let base_key = message.base_key.serialize();
    if session_record.promote_matching_session(message.message_version, base_key.as_slice()) {
        return Ok(
            PreKeyProcessing::Done(
                PreKeysUsed::default(),
                IdentityToSave { remote_address, their_identity_key: &message.identity_key },
            ),
        );
    }
    Ok(
        PreKeyProcessing::NeedsKeys {
            signed_pre_key_id: message.signed_pre_key_id,
            kyber_pre_key_id: message.kyber_pre_key_id,
            one_time_kyber_pre_key_id: message.pq_one_time_pre_key_id,
        },
    )
}

/// Bob's handshake parameters for a PreKey message.
pub open spec fn spec_message_parameters(
    message: PreKeySignalMessage,
    our_identity_key_pair: IdentityKeyPair,
    our_ratchet_key_pair: curve::KeyPair,
    our_signed_kem_pre_key_pair: kem::KeyPair,
    our_one_time_kem_pre_key_pair: Option<kem::KeyPair>,
) -> BobParametersView {
    BobParametersView {
        our_identity_key_pair,
        our_ratchet_key_pair,
        our_signed_kem_secret_key: our_signed_kem_pre_key_pair.secret_key@,
        our_signed_kem_public_key: our_signed_kem_pre_key_pair.public_key@,
        our_one_time_kem_secret_key: match our_one_time_kem_pre_key_pair {
            Some(k) => Some(k.secret_key@),
            None => None,
        },
        our_one_time_kem_public_key: match our_one_time_kem_pre_key_pair {
            Some(k) => Some(k.public_key@),
            None => None,
        },
        their_identity_key: message.identity_key,
        their_base_key: message.base_key,
        their_kem_ciphertext: message.kyber_ciphertext.unwrap()@,
        their_one_time_kem_ciphertext: match message.pq_one_time_ciphertext {
            Some(c) => Some(c@),
            None => None,
        },
        their_signature: message.identity_signature@,
    }
}

/// Bob's second step on a PreKey message, with the prekeys it names loaded:
/// his signed ratchet key pair, his signed KEM prekey pair (none if the message
/// names none), and his one-time KEM prekey pair if the message names one.
/// On success the new session becomes current; the caller then removes the
/// consumed one-time KEM prekey, saves the identity and stores the record.
#[allow(clippy::too_many_arguments)]
pub fn process_prekey_impl<'a>(
    message: &'a PreKeySignalMessage,
    remote_address: &'a ProtocolAddress,
    session_record: &mut SessionRecord,
    our_identity_key_pair: IdentityKeyPair,
    our_ratchet_key_pair: curve::KeyPair,
    our_signed_kem_pre_key_pair: Option<kem::KeyPair>,
    our_one_time_kem_pre_key_pair: Option<kem::KeyPair>,
    local_registration_id: u32,
) -> (res: Result<(PreKeysUsed, IdentityToSave<'a>)>)
    ensures
        message.kyber_pre_key_id is None || our_signed_kem_pre_key_pair is None ==> (res matches Err(
            SignalProtocolError::InvalidMessage(t, m),
        ) && t == CiphertextMessageType::PreKey && m@
            == "fully PQ PreKey message is missing its signed KEM prekey"@),
        message.kyber_pre_key_id is Some && our_signed_kem_pre_key_pair is Some
            && message.kyber_ciphertext is None ==> (res matches Err(
            SignalProtocolError::InvalidMessage(t, m),
        ) && t == CiphertextMessageType::PreKey && m@
            == "fully PQ PreKey message is missing its KEM ciphertext"@),
        message.kyber_pre_key_id is Some && message.kyber_ciphertext is Some ==> (
        our_signed_kem_pre_key_pair matches Some(signed) ==> {
            let pb = spec_message_parameters(
                *message,
                our_identity_key_pair,
                our_ratchet_key_pair,
                signed,
                our_one_time_kem_pre_key_pair,
            );
            &&& res is Ok <==> spec_bob_accepts(pb)
            &&& res matches Err(e) ==> spec_bob_error(pb, e)
            &&& res matches Ok((used, save)) ==> {
                &&& used.pre_key_id is None
                &&& used.kyber_pre_key_id == message.pq_one_time_pre_key_id
                &&& save.remote_address == remote_address
                &&& save.their_identity_key == &message.identity_key
                &&& final(session_record).current_session matches Some(s) && spec_bob_session_keys(
                    pb,
                    s,
                ) && s.local_registration_id == local_registration_id && s.remote_registration_id
                    == message.registration_id
                &&& spec_archived(*old(session_record), final(session_record).previous_sessions@)
            }
        }),
        res is Err ==> *final(session_record) == *old(session_record),
{
    let our_signed_kem_pre_key_pair = match (message.kyber_pre_key_id, our_signed_kem_pre_key_pair) {
        (Some(_), Some(pair)) => pair,
        _ => {
            return Err(
                SignalProtocolError::InvalidMessage(
                    CiphertextMessageType::PreKey,
                    "fully PQ PreKey message is missing its signed KEM prekey",
                ),
            );
        },
    };
    let their_kem_ciphertext = match &message.kyber_ciphertext {
        Some(ct) => ct,
        None => {
            return Err(
                SignalProtocolError::InvalidMessage(
                    CiphertextMessageType::PreKey,
                    "fully PQ PreKey message is missing its KEM ciphertext",
                ),
            );
        },
    };
    let ghost signed = our_signed_kem_pre_key_pair;
    let ghost one_time = our_one_time_kem_pre_key_pair;
    let parameters = BobSignalProtocolParameters::new(
        our_identity_key_pair,
        our_ratchet_key_pair,
        our_signed_kem_pre_key_pair,
        our_one_time_kem_pre_key_pair,
        message.identity_key,
        message.base_key,
        their_kem_ciphertext,
        message.pq_one_time_ciphertext.as_ref(),
        message.identity_signature.as_slice(),
    );
    proof {
        assert(parameters@ == spec_message_parameters(
            *message,
            our_identity_key_pair,
            our_ratchet_key_pair,
            signed,
            one_time,
        ));
    }

    let mut new_session = ratchet::initialize_bob_session(&parameters)?;
    new_session.local_registration_id = local_registration_id;
    new_session.remote_registration_id = message.registration_id;
    session_record.promote_state(new_session);

    let pre_keys_used = PreKeysUsed { pre_key_id: None, kyber_pre_key_id: message.pq_one_time_pre_key_id };
    Ok((pre_keys_used, IdentityToSave { remote_address, their_identity_key: &message.identity_key }))
}

/// Once Bob has set up the session of a PreKey message of the current
/// version, his record holds that session, so the same message arriving again
/// is recognized (by [`process_prekey`]) and consumes no prekey.
pub proof fn law_processed_message_is_recognized(
    message: PreKeySignalMessage,
    our_identity_key_pair: IdentityKeyPair,
    our_ratchet_key_pair: curve::KeyPair,
    our_signed_kem_pre_key_pair: kem::KeyPair,
    our_one_time_kem_pre_key_pair: Option<kem::KeyPair>,
    record: SessionRecord,
)
    requires
        message.message_version == crate::protocol::CIPHERTEXT_MESSAGE_CURRENT_VERSION,
        record.current_session matches Some(s) && spec_bob_session_keys(
            spec_message_parameters(
                message,
                our_identity_key_pair,
                our_ratchet_key_pair,
                our_signed_kem_pre_key_pair,
                our_one_time_kem_pre_key_pair,
            ),
            s,
        ),
    ensures
        spec_has_session_for(record, message),
{
}


/// Alice's handshake parameters for a bundle take Bob's identity, his signed
/// ratchet key, his signed KEM prekey as the key of the first encapsulation
/// and his one-time KEM prekey, if the bundle has one, as the key of the
/// second, and keep her own identity and base key.
pub proof fn law_bundle_parameters_follow_the_bundle(
    our_identity_key_pair: IdentityKeyPair,
    our_base_key_pair: curve::KeyPair,
    b: PreKeyBundleView,
)
    ensures
        ({
            let pa = spec_bundle_parameters(our_identity_key_pair, our_base_key_pair, b);
            &&& pa.our_identity_key_pair == our_identity_key_pair
            &&& pa.our_base_key_pair == our_base_key_pair
            &&& pa.their_identity_key == b.identity_key
            &&& pa.their_ratchet_key == b.signed_pre_key_public
            &&& pa.their_signed_kem_pre_key == b.kyber_pre_key.public_key
            &&& b.one_time_kyber_pre_key is None ==> pa.their_one_time_kem_pre_key is None
            &&& b.one_time_kyber_pre_key matches Some(k) ==> pa.their_one_time_kem_pre_key == Some(
                k.public_key,
            )
        }),
{
}

/// The session Alice sets up from a bundle carries, first, the encapsulation
/// to the bundle's signed KEM prekey (with the signed message and salt) and,
/// second, the one to its one-time KEM prekey (with the one-time message and
/// salt), if it has one.
pub proof fn law_bundle_session_encapsulates_to_the_bundle_keys(
    our_identity_key_pair: IdentityKeyPair,
    our_base_key_pair: curve::KeyPair,
    b: PreKeyBundleView,
    r: AliceHandshakeRandomness,
    s: SessionState,
)
    requires
        spec_alice_session_keys(spec_bundle_parameters(our_identity_key_pair, our_base_key_pair, b), r, s),
    ensures
        s.kyber_ciphertext matches Some(c) && c@ == kem::spec_encapsulate(
            b.kyber_pre_key.public_key.0,
            b.kyber_pre_key.public_key.1,
            r.signed_kem_message@,
            r.signed_kem_salt@,
        ).1,
        b.one_time_kyber_pre_key matches Some(k) ==> (s.pq_one_time_ciphertext matches Some(c) && c@
            == kem::spec_encapsulate(
            k.public_key.0,
            k.public_key.1,
            r.one_time_kem_message@,
            r.one_time_kem_salt@,
        ).1),
        b.one_time_kyber_pre_key is None ==> s.pq_one_time_ciphertext is None,
{
    ratchet::law_alice_keys_from_primitives(
        spec_bundle_parameters(our_identity_key_pair, our_base_key_pair, b),
        r,
        s,
    );
}

/// Bob's handshake parameters for a PreKey message take the signed KEM prekey
/// pair as the key that decapsulates the message's first ciphertext, the
/// one-time KEM prekey pair, if any, as the key that decapsulates its one-time
/// ciphertext, and Alice's identity, base key and signature from the message.
pub proof fn law_message_parameters_follow_the_message(
    message: PreKeySignalMessage,
    our_identity_key_pair: IdentityKeyPair,
    our_ratchet_key_pair: curve::KeyPair,
    our_signed_kem_pre_key_pair: kem::KeyPair,
    our_one_time_kem_pre_key_pair: Option<kem::KeyPair>,
)
    ensures
        ({
            let pb = spec_message_parameters(
                message,
                our_identity_key_pair,
                our_ratchet_key_pair,
                our_signed_kem_pre_key_pair,
                our_one_time_kem_pre_key_pair,
            );
            &&& pb.our_identity_key_pair == our_identity_key_pair
            &&& pb.our_ratchet_key_pair == our_ratchet_key_pair
            &&& pb.our_signed_kem_secret_key == our_signed_kem_pre_key_pair.secret_key@
            &&& pb.our_signed_kem_public_key == our_signed_kem_pre_key_pair.public_key@
            &&& our_one_time_kem_pre_key_pair is None ==> pb.our_one_time_kem_secret_key is None
            &&& our_one_time_kem_pre_key_pair matches Some(k) ==> pb.our_one_time_kem_secret_key
                == Some(k.secret_key@) && pb.our_one_time_kem_public_key == Some(k.public_key@)
            &&& pb.their_identity_key == message.identity_key
            &&& pb.their_base_key == message.base_key
            &&& message.kyber_ciphertext matches Some(c) ==> pb.their_kem_ciphertext == c@
            &&& message.pq_one_time_ciphertext is None ==> pb.their_one_time_kem_ciphertext is None
            &&& message.pq_one_time_ciphertext matches Some(c) ==> pb.their_one_time_kem_ciphertext
                == Some(c@)
            &&& pb.their_signature == message.identity_signature@
        }),
{
}

} // verus!
