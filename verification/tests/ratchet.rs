use pqxdh_protocol::kem;
use pqxdh_protocol::ratchet::{derive_keys, handshake_transcript, message_version, PQXDH_LABEL};
use pqxdh_protocol::{
    initialize_alice_session_record, initialize_bob_session_record, AliceHandshakeRandomness,
    AliceSignalProtocolParameters, BobSignalProtocolParameters, IdentityKeyPair, KeyPair, Result,
    SignalProtocolError, KYBER_AWARE_MESSAGE_VERSION,
};

fn bytes32(seed: u8) -> [u8; 32] {
    let mut r = [0u8; 32];
    for (i, b) in r.iter_mut().enumerate() {
        *b = seed.wrapping_mul(13).wrapping_add(i as u8).wrapping_add(1);
    }
    r
}

fn bytes64(seed: u8) -> [u8; 64] {
    let mut r = [0u8; 64];
    r[..32].copy_from_slice(&bytes32(seed));
    r[32..].copy_from_slice(&bytes32(seed.wrapping_add(128)));
    r
}

fn bytes16(seed: u8) -> [u8; 16] {
    let mut r = [0u8; 16];
    r.copy_from_slice(&bytes32(seed)[..16]);
    r
}

fn alice_randomness(seed: u8) -> AliceHandshakeRandomness {
    AliceHandshakeRandomness {
        sending_ratchet_key: bytes32(seed),
        signed_kem_message: bytes32(seed.wrapping_add(1)),
        signed_kem_salt: bytes16(seed.wrapping_add(2)),
        one_time_kem_message: bytes32(seed.wrapping_add(3)),
        one_time_kem_salt: bytes16(seed.wrapping_add(4)),
        signature: bytes32(seed.wrapping_add(5)),
    }
}

/// Drive the Alice/Bob halves of the handshake directly and confirm they
/// derive the same chain keys, both with and without a one-time KEM prekey.
fn alice_and_bob_agree(with_one_time_kem: bool) -> Result<()> {
    let alice_identity = IdentityKeyPair::generate(bytes32(1));
    let bob_identity = IdentityKeyPair::generate(bytes32(2));

    let alice_base_key = KeyPair::generate(bytes32(3));
    let bob_ratchet_key = KeyPair::generate(bytes32(4));
    let bob_signed_kem = kem::KeyPair::generate(kem::KeyType::MLKEM1024, bytes64(5));
    let bob_one_time_kem = kem::KeyPair::generate(kem::KeyType::MLKEM1024, bytes64(6));

    let mut alice_params = AliceSignalProtocolParameters::new(
        alice_identity,
        alice_base_key,
        *bob_identity.identity_key(),
        bob_ratchet_key.public_key,
        bob_signed_kem.public_key.clone(),
    );
    if with_one_time_kem {
        alice_params.set_their_one_time_kem_pre_key(&bob_one_time_kem.public_key);
    }

    let alice_record = initialize_alice_session_record(&alice_params, &alice_randomness(7))?;

    assert_eq!(
        KYBER_AWARE_MESSAGE_VERSION as u32,
        alice_record.session_version().expect("must have a version")
    );

    let kem_ciphertext = alice_record
        .get_kyber_ciphertext()?
        .expect("must have KEM ciphertext")
        .clone();
    let one_time_ciphertext = alice_record.get_pq_one_time_ciphertext()?.cloned();
    assert_eq!(one_time_ciphertext.is_some(), with_one_time_kem);
    let signature = alice_record
        .get_identity_signature()?
        .expect("must have transcript signature")
        .clone();

    let bob_params = BobSignalProtocolParameters::new(
        bob_identity,
        bob_ratchet_key,
        bob_signed_kem,
        if with_one_time_kem { Some(bob_one_time_kem) } else { None },
        *alice_identity.identity_key(),
        alice_base_key.public_key,
        &kem_ciphertext,
        one_time_ciphertext.as_ref(),
        &signature,
    );
    let bob_record = initialize_bob_session_record(&bob_params)?;

    assert_eq!(
        KYBER_AWARE_MESSAGE_VERSION as u32,
        bob_record.session_version().expect("must have a version")
    );

    assert_eq!(
        bob_record
            .get_sender_chain_key_bytes()
            .expect("bob should have chain key"),
        alice_record
            .get_receiver_chain_key_bytes(&bob_ratchet_key.public_key)
            .expect("should have chain key")
            .expect("chain key present")
    );

    Ok(())
}

#[test]
fn test_alice_and_bob_agree_with_one_time_kem_prekey() -> Result<()> {
    alice_and_bob_agree(true)
}

#[test]
fn test_alice_and_bob_agree_without_one_time_kem_prekey() -> Result<()> {
    alice_and_bob_agree(false)
}

/// Bob must reject the handshake if Alice's ML-DSA transcript signature is invalid.
#[test]
fn test_bob_rejects_bad_transcript_signature() -> Result<()> {
    let alice_identity = IdentityKeyPair::generate(bytes32(11));
    let bob_identity = IdentityKeyPair::generate(bytes32(12));

    let alice_base_key = KeyPair::generate(bytes32(13));
    let bob_ratchet_key = KeyPair::generate(bytes32(14));
    let bob_signed_kem = kem::KeyPair::generate(kem::KeyType::MLKEM1024, bytes64(15));

    let alice_params = AliceSignalProtocolParameters::new(
        alice_identity,
        alice_base_key,
        *bob_identity.identity_key(),
        bob_ratchet_key.public_key,
        bob_signed_kem.public_key.clone(),
    );
    let alice_record = initialize_alice_session_record(&alice_params, &alice_randomness(16))?;

    let kem_ciphertext = alice_record
        .get_kyber_ciphertext()?
        .expect("must have KEM ciphertext")
        .clone();
    let mut signature = alice_record
        .get_identity_signature()?
        .expect("must have transcript signature")
        .clone();

    // Corrupt the signature.
    signature[0] ^= 0xFF;

    let bob_params = BobSignalProtocolParameters::new(
        bob_identity,
        bob_ratchet_key,
        bob_signed_kem,
        None,
        *alice_identity.identity_key(),
        alice_base_key.public_key,
        &kem_ciphertext,
        None,
        &signature,
    );

    let result = initialize_bob_session_record(&bob_params);
    assert!(
        matches!(result, Err(SignalProtocolError::SignatureValidationFailed)),
        "Bob must reject a tampered transcript signature"
    );

    Ok(())
}

#[test]
fn bob_rejects_a_one_time_ciphertext_without_a_one_time_prekey() -> Result<()> {
    let alice_identity = IdentityKeyPair::generate(bytes32(21));
    let bob_identity = IdentityKeyPair::generate(bytes32(22));
    let alice_base_key = KeyPair::generate(bytes32(23));
    let bob_ratchet_key = KeyPair::generate(bytes32(24));
    let bob_signed_kem = kem::KeyPair::generate(kem::KeyType::HQC256, bytes64(25));
    let bob_one_time_kem = kem::KeyPair::generate(kem::KeyType::HQC256, bytes64(26));

    let alice_params = AliceSignalProtocolParameters::new(
        alice_identity,
        alice_base_key,
        *bob_identity.identity_key(),
        bob_ratchet_key.public_key,
        bob_signed_kem.public_key.clone(),
    )
    .with_their_one_time_kem_pre_key(&bob_one_time_kem.public_key);
    let alice_record = initialize_alice_session_record(&alice_params, &alice_randomness(27))?;
    let ct1 = alice_record.get_kyber_ciphertext()?.expect("ct1").clone();
    let ct2 = alice_record.get_pq_one_time_ciphertext()?.expect("ct2").clone();
    let signature = alice_record.get_identity_signature()?.expect("sig").clone();

    let bob_params = BobSignalProtocolParameters::new(
        bob_identity,
        bob_ratchet_key,
        bob_signed_kem,
        None,
        *alice_identity.identity_key(),
        alice_base_key.public_key,
        &ct1,
        Some(&ct2),
        &signature,
    );
    match initialize_bob_session_record(&bob_params) {
        Err(SignalProtocolError::InvalidArgument(m)) => assert_eq!(
            m,
            "one-time KEM prekey and ciphertext must both be present or both absent"
        ),
        _ => panic!("expected an invalid argument"),
    }

    let truncated = ct1[..ct1.len() - 1].to_vec();
    let bob_params = BobSignalProtocolParameters::new(
        bob_identity,
        bob_ratchet_key,
        kem::KeyPair::generate(kem::KeyType::HQC256, bytes64(25)),
        None,
        *alice_identity.identity_key(),
        alice_base_key.public_key,
        &truncated,
        None,
        &signature,
    );
    assert!(matches!(
        initialize_bob_session_record(&bob_params),
        Err(SignalProtocolError::BadKEMCiphertextLength(kem::KeyType::HQC256, n)) if n == truncated.len()
    ));
    Ok(())
}

#[test]
fn alice_rejects_a_kem_key_of_the_wrong_length() {
    let bad_key = kem::PublicKey::deserialize(&[0x0B, 1, 2, 3]);
    assert!(matches!(
        bad_key,
        Err(SignalProtocolError::BadKEMKeyLength(kem::KeyType::HQC256, 4))
    ));
    assert!(matches!(
        kem::PublicKey::deserialize(&[0x0A, 1]),
        Err(SignalProtocolError::BadKEMKeyLength(kem::KeyType::MLKEM1024, 2))
    ));
    assert!(matches!(
        kem::PublicKey::deserialize(&[0x0C, 1]),
        Err(SignalProtocolError::BadKEMKeyType(0x0C))
    ));
}

#[test]
fn transcript_is_length_prefixed() {
    let alice = IdentityKeyPair::generate(bytes32(31));
    let bob = IdentityKeyPair::generate(bytes32(32));
    let ratchet = KeyPair::generate(bytes32(33)).public_key;
    let base = KeyPair::generate(bytes32(34)).public_key;
    let t = handshake_transcript(alice.identity_key(), b"ct1", b"", bob.identity_key(), &ratchet, &base);
    let label = b"PQXDH_MLKEM1024_MLDSA87_transcript";
    assert_eq!(&t[..4], &[0, 0, 0, label.len() as u8]);
    assert_eq!(&t[4..4 + label.len()], &label[..]);
    let mut pos = 4 + label.len();
    let alice_ik = alice.identity_key().serialize();
    assert_eq!(&t[pos..pos + 4], &(alice_ik.len() as u32).to_be_bytes());
    pos += 4;
    assert_eq!(&t[pos..pos + alice_ik.len()], &alice_ik[..]);
    pos += alice_ik.len();
    assert_eq!(&t[pos..pos + 7], &[0, 0, 0, 3, b'c', b't', b'1']);
    pos += 7;
    assert_eq!(&t[pos..pos + 4], &[0, 0, 0, 0]);
    pos += 4;
    let bob_ik = bob.identity_key().serialize();
    pos += 4 + bob_ik.len();
    assert_eq!(&t[pos..pos + 5], &[0, 0, 0, 33, 0x05]);
    pos += 4 + 33;
    assert_eq!(&t[pos..pos + 4], &[0, 0, 0, 33]);
    assert_eq!(&t[pos + 4..], &base.serialize()[..]);

    // Moving a byte from one ciphertext to the other changes the transcript.
    let t2 = handshake_transcript(alice.identity_key(), b"ct", b"1", bob.identity_key(), &ratchet, &base);
    assert_ne!(t, t2);
}

#[test]
fn derived_keys_are_hkdf_sha256_of_the_secret() {
    let secret = [0xFFu8; 64];
    let (root, chain) = derive_keys(&secret);
    let mut expected = [0u8; 64];
    hkdf::Hkdf::<sha2::Sha256>::new(None, &secret)
        .expand(&PQXDH_LABEL, &mut expected)
        .expect("valid length");
    assert_eq!(root.key, expected[..32]);
    assert_eq!(chain.key, expected[32..]);
    assert_eq!(chain.index, 0);
    assert_eq!(message_version(), 4);
    assert_eq!(&PQXDH_LABEL[..], b"PQXDH_MLKEM1024_MLDSA87_SHA-256");
}

#[test]
fn x25519_matches_rfc_7748() {
    let alice_private: [u8; 32] = hex::decode(
        "77076d0a7318a57d3c16c17251b26645df4c2f87ebc0992ab177fba51db92c2a",
    )
    .unwrap()
    .try_into()
    .unwrap();
    let bob_private: [u8; 32] = hex::decode(
        "5dab087e624a8a4b79e17f8b83800ee66f3bb1292618b6fd1c2f8b27ff88e0eb",
    )
    .unwrap()
    .try_into()
    .unwrap();
    let alice = KeyPair::generate(alice_private);
    let bob = KeyPair::generate(bob_private);
    assert_eq!(
        hex::encode(alice.public_key.public_key_bytes()),
        "8520f0098930a754748b7ddcb43ef75a0dbf3a0d26381af4eba4a98eaa9b4e6a"
    );
    let shared = alice.private_key.calculate_agreement(&bob.public_key);
    assert_eq!(
        hex::encode(shared),
        "4a5d9d5ba4ce2de1728e3bf480350f25e07e21c947d19e3376f09b3c1e161742"
    );
    assert_eq!(bob.private_key.calculate_agreement(&alice.public_key), shared);
}

#[test]
fn hqc_encapsulation_round_trips() -> Result<()> {
    let pair = kem::KeyPair::generate(kem::KeyType::HQC256, bytes64(41));
    assert_eq!(pair.public_key.serialize().len(), 7237 + 1);
    assert_eq!(pair.secret_key.serialize()[0], 0x0B);
    let (ss, ct) = pair.public_key.encapsulate(bytes32(42), bytes16(43))?;
    assert_eq!(ss.len(), 32);
    assert_eq!(ct.len(), 14421 + 1);
    assert_eq!(ct[0], 0x0B);
    assert_ne!(ss, bytes32(42).to_vec());
    let recovered = pair.secret_key.decapsulate(&ct)?;
    assert_eq!(recovered, ss);
    assert!(matches!(
        pair.secret_key.decapsulate(&[]),
        Err(SignalProtocolError::NoKeyTypeIdentifier)
    ));
    assert!(matches!(
        pair.secret_key.decapsulate(&[0x0C, 0]),
        Err(SignalProtocolError::BadKEMKeyType(0x0C))
    ));
    assert!(matches!(
        pair.secret_key.decapsulate(&[0x0A, 0]),
        Err(SignalProtocolError::BadKEMCiphertextLength(kem::KeyType::MLKEM1024, 2))
    ));
    let mut mlkem_ct = vec![0x0Au8];
    mlkem_ct.extend_from_slice(&[0u8; 1568]);
    assert!(matches!(
        pair.secret_key.decapsulate(&mlkem_ct),
        Err(SignalProtocolError::WrongKEMKeyType(0x0A, 0x0B))
    ));
    Ok(())
}

#[test]
fn mlkem_encapsulation_round_trips() -> Result<()> {
    let pair = kem::KeyPair::generate(kem::KeyType::MLKEM1024, bytes64(51));
    assert_eq!(pair.public_key.serialize().len(), 1568 + 1);
    assert_eq!(pair.public_key.serialize()[0], 0x0A);
    assert_eq!(pair.secret_key.serialize().len(), 3168 + 1);
    let (ss, ct) = pair.public_key.encapsulate(bytes32(52), bytes16(53))?;
    assert_eq!(ss.len(), 32);
    assert_eq!(ct.len(), 1568 + 1);
    assert_eq!(ct[0], 0x0A);
    assert_eq!(pair.secret_key.decapsulate(&ct)?, ss);
    // The salt plays no part in an ML-KEM-1024 encapsulation.
    let (ss2, ct2) = pair.public_key.encapsulate(bytes32(52), bytes16(54))?;
    assert_eq!((ss2, ct2), (ss, ct));
    let again = kem::PublicKey::deserialize(&pair.public_key.serialize())?;
    assert_eq!(again.key_type(), kem::KeyType::MLKEM1024);
    Ok(())
}
