use pqxdh_protocol::kem;
use pqxdh_protocol::{
    process_prekey, process_prekey_bundle, process_prekey_impl, validate_bundle, AliceHandshakeRandomness,
    DeviceId, IdentityKeyPair, KeyPair, KyberPreKeyId, PreKeyBundle, PreKeyBundleContent,
    PreKeyProcessing, PreKeySignalMessage, ProtocolAddress, Result, SessionRecord,
    SignalProtocolError, SignedPreKeyId, KYBER_AWARE_MESSAGE_VERSION,
};

fn bytes32(seed: u8) -> [u8; 32] {
    let mut r = [0u8; 32];
    for (i, b) in r.iter_mut().enumerate() {
        *b = seed.wrapping_mul(29).wrapping_add(i as u8).wrapping_add(3);
    }
    r
}

fn bytes64(seed: u8) -> [u8; 64] {
    let mut r = [0u8; 64];
    r[..32].copy_from_slice(&bytes32(seed));
    r[32..].copy_from_slice(&bytes32(seed.wrapping_add(128)));
    r
}

fn bytes16(seed: u8) -> [u8; 16] {
    let mut r = [0u8; 16];
    r.copy_from_slice(&bytes32(seed)[..16]);
    r
}

fn alice_randomness(seed: u8) -> AliceHandshakeRandomness {
    AliceHandshakeRandomness {
        sending_ratchet_key: bytes32(seed),
        signed_kem_message: bytes32(seed.wrapping_add(1)),
        signed_kem_salt: bytes16(seed.wrapping_add(2)),
        one_time_kem_message: bytes32(seed.wrapping_add(3)),
        one_time_kem_salt: bytes16(seed.wrapping_add(4)),
        signature: bytes32(seed.wrapping_add(5)),
    }
}

/// Bob's long-term and prekey material.
struct Bob {
    identity: IdentityKeyPair,
    registration_id: u32,
    ratchet_key: KeyPair,
    signed_kem: kem::KeyPair,
    one_time_kem: Option<kem::KeyPair>,
}

const SIGNED_PRE_KEY_ID: u32 = 22;
const KYBER_PRE_KEY_ID: u32 = 8000;
const ONE_TIME_KYBER_PRE_KEY_ID: u32 = 8001;

fn make_bob(with_one_time: bool) -> Bob {
    Bob {
        identity: IdentityKeyPair::generate(bytes32(100)),
        registration_id: 811,
        ratchet_key: KeyPair::generate(bytes32(101)),
        signed_kem: kem::KeyPair::generate(kem::KeyType::HQC256, bytes64(102)),
        one_time_kem: if with_one_time {
            Some(kem::KeyPair::generate(kem::KeyType::HQC256, bytes64(103)))
        } else {
            None
        },
    }
}

fn make_bundle(bob: &Bob) -> Result<PreKeyBundle> {
    let ratchet_signature = bob
        .identity
        .sign(&bob.ratchet_key.public_key.serialize(), bytes32(104))?;
    let kyber_signature = bob
        .identity
        .sign(&bob.signed_kem.public_key.serialize(), bytes32(105))?;
    let mut bundle = PreKeyBundle::new(
        bob.registration_id,
        DeviceId(1),
        SignedPreKeyId(SIGNED_PRE_KEY_ID),
        bob.ratchet_key.public_key,
        ratchet_signature,
        KyberPreKeyId(KYBER_PRE_KEY_ID),
        bob.signed_kem.public_key.clone(),
        kyber_signature,
        *bob.identity.identity_key(),
    )?;
    if let Some(one_time) = &bob.one_time_kem {
        let signature = bob
            .identity
            .sign(&one_time.public_key.serialize(), bytes32(106))?;
        bundle = bundle.with_one_time_kyber_pre_key(
            KyberPreKeyId(ONE_TIME_KYBER_PRE_KEY_ID),
            one_time.public_key.clone(),
            signature,
        );
    }
    Ok(bundle)
}

fn alice_processes(bundle: &PreKeyBundle, seed: u8) -> Result<(IdentityKeyPair, KeyPair, SessionRecord)> {
    let alice_identity = IdentityKeyPair::generate(bytes32(seed));
    let base_key = KeyPair::generate(bytes32(seed.wrapping_add(10)));
    let bob_address = ProtocolAddress::new("+14151111112".to_owned(), DeviceId(1));
    let record = process_prekey_bundle(
        &bob_address,
        true,
        None,
        alice_identity,
        1234,
        bundle,
        1_700_000_000,
        base_key,
        &alice_randomness(seed.wrapping_add(20)),
    )?;
    Ok((alice_identity, base_key, record))
}

/// The PreKey message that Alice sends, from her record.
fn prekey_message(alice_identity: &IdentityKeyPair, record: &SessionRecord) -> PreKeySignalMessage {
    let session = record.current_session.as_ref().expect("session");
    let pending = session.unacknowledged_pre_key_message.expect("pending message");
    PreKeySignalMessage {
        message_version: session.session_version,
        registration_id: session.local_registration_id,
        pre_key_id: pending.pre_key_id,
        signed_pre_key_id: pending.signed_pre_key_id,
        kyber_pre_key_id: session.unacknowledged_kyber_pre_key_id,
        kyber_ciphertext: session.kyber_ciphertext.clone(),
        pq_one_time_pre_key_id: session.pq_one_time_pre_key_id,
        pq_one_time_ciphertext: session.pq_one_time_ciphertext.clone(),
        identity_signature: session.identity_signature.clone().expect("signature"),
        base_key: pending.base_key,
        identity_key: *alice_identity.identity_key(),
    }
}

/// Bob's processing of a PreKey message, loading his prekeys by id.
fn bob_processes(
    bob: &Bob,
    message: &PreKeySignalMessage,
    record: &mut SessionRecord,
) -> Result<Option<KyberPreKeyId>> {
    let alice_address = ProtocolAddress::new("+14151111111".to_owned(), DeviceId(1));
    match process_prekey(message, &alice_address, true, record)? {
        PreKeyProcessing::Done(used, _) => Ok(used.kyber_pre_key_id),
        PreKeyProcessing::NeedsKeys {
            signed_pre_key_id,
            kyber_pre_key_id,
            one_time_kyber_pre_key_id,
        } => {
            assert_eq!(signed_pre_key_id, SignedPreKeyId(SIGNED_PRE_KEY_ID));
            let signed = kyber_pre_key_id.map(|_| bob.signed_kem.clone());
            let one_time = one_time_kyber_pre_key_id
                .map(|_| bob.one_time_kem.clone().expect("one-time prekey"));
            let (used, save) = process_prekey_impl(
                message,
                &alice_address,
                record,
                bob.identity,
                bob.ratchet_key,
                signed,
                one_time,
                bob.registration_id,
            )?;
            assert!(*save.their_identity_key == message.identity_key);
            Ok(used.kyber_pre_key_id)
        }
    }
}

fn assert_agree(alice: &SessionRecord, bob: &SessionRecord, bob_ratchet: &KeyPair) {
    assert_eq!(
        bob.get_sender_chain_key_bytes().expect("bob chain key"),
        alice
            .get_receiver_chain_key_bytes(&bob_ratchet.public_key)
            .expect("alice chain key")
            .expect("chain key present")
    );
}

#[test]
fn test_full_pq_prekey_handshake() -> Result<()> {
    let bob = make_bob(true);
    let bundle = make_bundle(&bob)?;
    let (alice_identity, _, alice_record) = alice_processes(&bundle, 1)?;
    assert_eq!(
        alice_record.session_version()?,
        KYBER_AWARE_MESSAGE_VERSION as u32
    );
    let session = alice_record.current_session.as_ref().expect("session");
    assert_eq!(session.remote_registration_id, bob.registration_id);
    assert_eq!(session.local_registration_id, 1234);
    assert_eq!(
        session.pq_one_time_pre_key_id,
        Some(KyberPreKeyId(ONE_TIME_KYBER_PRE_KEY_ID))
    );

    let message = prekey_message(&alice_identity, &alice_record);
    let mut bob_record = SessionRecord::new_fresh();
    let consumed = bob_processes(&bob, &message, &mut bob_record)?;
    assert_eq!(consumed, Some(KyberPreKeyId(ONE_TIME_KYBER_PRE_KEY_ID)));
    assert_eq!(bob_record.session_version()?, KYBER_AWARE_MESSAGE_VERSION as u32);
    assert_agree(&alice_record, &bob_record, &bob.ratchet_key);
    Ok(())
}

/// The one-time KEM prekey is optional: with only the signed (last-resort)
/// KEM prekey the handshake still succeeds.
#[test]
fn test_prekey_handshake_without_one_time_kem() -> Result<()> {
    let bob = make_bob(false);
    let bundle = make_bundle(&bob)?;
    assert!(
        bundle.one_time_kyber_pre_key_id()?.is_none(),
        "expected no one-time KEM prekey in this bundle"
    );
    let (alice_identity, _, alice_record) = alice_processes(&bundle, 2)?;
    let message = prekey_message(&alice_identity, &alice_record);
    assert!(message.pq_one_time_ciphertext.is_none());
    let mut bob_record = SessionRecord::new_fresh();
    let consumed = bob_processes(&bob, &message, &mut bob_record)?;
    assert_eq!(consumed, None);
    assert_agree(&alice_record, &bob_record, &bob.ratchet_key);
    Ok(())
}

/// A bad ML-DSA signature over Bob's signed X25519 ratchet key must be rejected.
#[test]
fn test_bad_signed_pre_key_signature() -> Result<()> {
    let bob = make_bob(false);
    let good_bundle = make_bundle(&bob)?;

    let sig_len = good_bundle
        .signed_pre_key_signature()
        .expect("has signature")
        .len();
    for bit in (0..8 * sig_len).step_by(811) {
        let mut bad_signature = good_bundle
            .signed_pre_key_signature()
            .expect("has signature")
            .to_vec();
        bad_signature[bit / 8] ^= 0x01u8 << (bit % 8);

        let bad_bundle = good_bundle
            .clone()
            .modify(|mut content: PreKeyBundleContent| {
                content.ec_pre_key_signature = Some(bad_signature);
                content
            })
            .expect("can recreate the bundle");

        assert!(matches!(
            alice_processes(&bad_bundle, 3),
            Err(SignalProtocolError::SignatureValidationFailed)
        ));
    }

    // The untouched bundle is fine.
    alice_processes(&good_bundle, 3)?;
    Ok(())
}

/// A bad ML-DSA signature over Bob's signed KEM prekey must be rejected.
#[test]
fn test_bad_kyber_pre_key_signature() -> Result<()> {
    let bob = make_bob(true);
    let bundle = make_bundle(&bob)?;
    let mut bad_signature = bundle.kyber_pre_key_signature()?.to_vec();
    bad_signature[0] ^= 0xFF;
    let bad_bundle = bundle
        .clone()
        .modify(|mut content: PreKeyBundleContent| {
            content.kyber_pre_key_signature = Some(bad_signature);
            content
        })
        .expect("can recreate the bundle");
    assert!(matches!(
        alice_processes(&bad_bundle, 4),
        Err(SignalProtocolError::SignatureValidationFailed)
    ));

    let mut bad_one_time = bundle.one_time_kyber_pre_key_signature()?.expect("sig").to_vec();
    bad_one_time[10] ^= 0x80;
    let bad_bundle = make_bundle(&bob)?
        .modify(|mut content: PreKeyBundleContent| {
            content.one_time_kyber_pre_key_signature = Some(bad_one_time);
            content
        })
        .expect("can recreate the bundle");
    assert!(matches!(
        alice_processes(&bad_bundle, 4),
        Err(SignalProtocolError::SignatureValidationFailed)
    ));

    alice_processes(&bundle, 4)?;
    Ok(())
}

/// Processing the same PreKey message twice is idempotent: the second time
/// Bob finds the session and consumes no prekey.
#[test]
fn test_repeat_bundle_message() -> Result<()> {
    let bob = make_bob(true);
    let bundle = make_bundle(&bob)?;
    let (alice_identity, _, alice_record) = alice_processes(&bundle, 5)?;
    let message = prekey_message(&alice_identity, &alice_record);
    let mut bob_record = SessionRecord::new_fresh();
    assert_eq!(
        bob_processes(&bob, &message, &mut bob_record)?,
        Some(KyberPreKeyId(ONE_TIME_KYBER_PRE_KEY_ID))
    );
    let first_chain = bob_record.get_sender_chain_key_bytes()?;
    let bob_address_free = Bob {
        one_time_kem: None,
        ..make_bob(true)
    };
    // Bob no longer has the one-time prekey, and does not need it.
    assert_eq!(bob_processes(&bob_address_free, &message, &mut bob_record)?, None);
    assert_eq!(bob_record.get_sender_chain_key_bytes()?, first_chain);
    assert!(bob_record.previous_sessions.is_empty());
    Ok(())
}

#[test]
fn untrusted_identities_are_rejected() -> Result<()> {
    let bob = make_bob(false);
    let bundle = make_bundle(&bob)?;
    let address = ProtocolAddress::new("+14151111112".to_owned(), DeviceId(1));
    let result = process_prekey_bundle(
        &address,
        false,
        None,
        IdentityKeyPair::generate(bytes32(9)),
        1,
        &bundle,
        0,
        KeyPair::generate(bytes32(10)),
        &alice_randomness(11),
    );
    match result {
        Err(SignalProtocolError::UntrustedIdentity(a)) => {
            assert_eq!(a.name, "+14151111112");
            assert_eq!(a.device_id, DeviceId(1));
        }
        _ => panic!("expected an untrusted identity"),
    }
    assert!(matches!(
        validate_bundle(&address, false, &bundle),
        Err(SignalProtocolError::UntrustedIdentity(_))
    ));
    assert!(validate_bundle(&address, true, &bundle).is_ok());

    let (alice_identity, _, alice_record) = alice_processes(&bundle, 12)?;
    let message = prekey_message(&alice_identity, &alice_record);
    let mut bob_record = SessionRecord::new_fresh();
    match process_prekey(&message, &address, false, &mut bob_record) {
        Err(SignalProtocolError::UntrustedIdentity(a)) => assert_eq!(a.name, address.name),
        _ => panic!("expected an untrusted identity"),
    }
    assert!(bob_record.current_session.is_none());
    Ok(())
}

/// A PreKey message whose handshake fails leaves Bob's record as it was.
#[test]
fn prekey_message_failed_decryption_does_not_update_stores() -> Result<()> {
    let bob = make_bob(true);
    let bundle = make_bundle(&bob)?;
    let (alice_identity, _, alice_record) = alice_processes(&bundle, 13)?;
    let mut message = prekey_message(&alice_identity, &alice_record);
    message.identity_signature[5] ^= 0x10;
    let mut bob_record = SessionRecord::new_fresh();
    assert!(matches!(
        bob_processes(&bob, &message, &mut bob_record),
        Err(SignalProtocolError::SignatureValidationFailed)
    ));
    assert!(bob_record.current_session.is_none());
    assert!(bob_record.previous_sessions.is_empty());

    let mut message = prekey_message(&alice_identity, &alice_record);
    message.kyber_ciphertext = None;
    assert!(matches!(
        bob_processes(&bob, &message, &mut bob_record),
        Err(SignalProtocolError::InvalidMessage(_, _))
    ));
    Ok(())
}

#[test]
fn a_new_session_archives_the_old_one() -> Result<()> {
    let bob = make_bob(false);
    let bundle = make_bundle(&bob)?;
    let (_, first_base, first) = alice_processes(&bundle, 14)?;
    let address = ProtocolAddress::new("+14151111112".to_owned(), DeviceId(1));
    let second = process_prekey_bundle(
        &address,
        true,
        Some(first),
        IdentityKeyPair::generate(bytes32(14)),
        1234,
        &bundle,
        1_700_000_100,
        KeyPair::generate(bytes32(15)),
        &alice_randomness(16),
    )?;
    assert_eq!(second.previous_sessions.len(), 1);
    let archived = &second.previous_sessions[0];
    assert!(archived.unacknowledged_pre_key_message.is_none());
    assert!(archived.alice_base_key == first_base.public_key);
    Ok(())
}

#[test]
fn bundle_contents_round_trip() -> Result<()> {
    let bob = make_bob(true);
    let bundle = make_bundle(&bob)?;
    let again = bundle.clone().modify(|content: PreKeyBundleContent| content)?;
    assert_eq!(again.registration_id()?, bundle.registration_id()?);
    assert_eq!(again.device_id()?, bundle.device_id()?);
    assert_eq!(again.signed_pre_key_id()?, bundle.signed_pre_key_id()?);
    assert!(again.signed_pre_key_public()? == bundle.signed_pre_key_public()?);
    assert_eq!(again.signed_pre_key_signature()?, bundle.signed_pre_key_signature()?);
    assert!(again.identity_key()? == bundle.identity_key()?);
    assert_eq!(again.kyber_pre_key_id()?, bundle.kyber_pre_key_id()?);
    assert_eq!(
        again.kyber_pre_key_public()?.serialize(),
        bundle.kyber_pre_key_public()?.serialize()
    );
    assert_eq!(again.kyber_pre_key_signature()?, bundle.kyber_pre_key_signature()?);
    assert!(again.has_one_time_kyber_pre_key());
    assert_eq!(again.one_time_kyber_pre_key_id()?, bundle.one_time_kyber_pre_key_id()?);
    assert_eq!(
        again.one_time_kyber_pre_key_signature()?,
        bundle.one_time_kyber_pre_key_signature()?
    );

    let missing = make_bundle(&bob)?.modify(|mut content: PreKeyBundleContent| {
        content.device_id = None;
        content
    });
    match missing {
        Err(SignalProtocolError::InvalidArgument(message)) => {
            assert_eq!(message, "device_id is required")
        }
        _ => panic!("expected a missing device id"),
    }
    let partial = make_bundle(&bob)?.modify(|mut content: PreKeyBundleContent| {
        content.one_time_kyber_pre_key_signature = None;
        content
    })?;
    assert!(!partial.has_one_time_kyber_pre_key());
    Ok(())
}

/// A repeated PreKey message whose session was archived brings that session
/// back: it leaves the archive, and the current session goes first there.
#[test]
fn a_repeated_message_brings_its_archived_session_back() -> Result<()> {
    let bob = make_bob(false);
    let bundle = make_bundle(&bob)?;
    let (alice_a, _, record_a) = alice_processes(&bundle, 60)?;
    let (alice_b, _, record_b) = alice_processes(&bundle, 70)?;
    let message_a = prekey_message(&alice_a, &record_a);
    let message_b = prekey_message(&alice_b, &record_b);

    let mut bob_record = SessionRecord::new_fresh();
    bob_processes(&bob, &message_a, &mut bob_record)?;
    bob_processes(&bob, &message_b, &mut bob_record)?;
    assert_eq!(bob_record.previous_sessions.len(), 1);
    assert!(bob_record.previous_sessions[0].alice_base_key == message_a.base_key);

    assert_eq!(bob_processes(&bob, &message_a, &mut bob_record)?, None);
    let current = bob_record.current_session.as_ref().expect("session");
    assert!(current.alice_base_key == message_a.base_key);
    assert_eq!(bob_record.previous_sessions.len(), 1);
    assert!(bob_record.previous_sessions[0].alice_base_key == message_b.base_key);

    // The current session matches: nothing moves.
    assert_eq!(bob_processes(&bob, &message_a, &mut bob_record)?, None);
    assert_eq!(bob_record.previous_sessions.len(), 1);
    Ok(())
}
