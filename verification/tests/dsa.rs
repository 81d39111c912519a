use pqxdh_protocol::dsa::{
    flatten, KeyPair, PublicKey, SecretKey, ML_DSA_87_TYPE, PUBLIC_KEY_LENGTH, SECRET_KEY_LENGTH,
    SIGNATURE_LENGTH,
};
use pqxdh_protocol::SignalProtocolError;

fn randomness(seed: u8) -> [u8; 32] {
    let mut r = [0u8; 32];
    for (i, b) in r.iter_mut().enumerate() {
        *b = seed.wrapping_mul(31).wrapping_add(i as u8);
    }
    r
}

#[test]
fn sign_and_verify_round_trip() {
    let key_pair = KeyPair::generate(randomness(1));
    let message = b"fully post-quantum PQXDH";
    let signature = key_pair
        .secret_key
        .calculate_signature(message, randomness(2))
        .expect("signing succeeds");
    assert!(key_pair.public_key.verify_signature(message, &signature));

    // A tampered message must not verify.
    assert!(!key_pair
        .public_key
        .verify_signature(b"different message", &signature));

    // A signature from an unrelated key must not verify.
    let other = KeyPair::generate(randomness(3));
    assert!(!other.public_key.verify_signature(message, &signature));
}

#[test]
fn serialize_round_trip() {
    let key_pair = KeyPair::generate(randomness(4));

    let serialized_public = key_pair.public_key.serialize();
    assert_eq!(serialized_public.len(), PUBLIC_KEY_LENGTH + 1);
    let public = PublicKey::deserialize(&serialized_public).expect("valid public key");
    assert!(public == key_pair.public_key);

    let serialized_secret = key_pair.secret_key.serialize();
    assert_eq!(serialized_secret.len(), SECRET_KEY_LENGTH + 1);

    let reconstructed = KeyPair::from_public_and_private(&serialized_public, &serialized_secret)
        .expect("valid keypair");
    let message = b"round trip";
    let signature = reconstructed
        .secret_key
        .calculate_signature(message, randomness(5))
        .expect("signing succeeds");
    assert!(key_pair.public_key.verify_signature(message, &signature));
}

#[test]
fn deserialize_rejects_malformed_keys() {
    assert!(matches!(
        PublicKey::deserialize(&[]),
        Err(SignalProtocolError::NoKeyTypeIdentifier)
    ));
    assert!(matches!(
        PublicKey::deserialize(&[0x05, 1, 2, 3]),
        Err(SignalProtocolError::BadKeyType(0x05))
    ));
    assert!(matches!(
        PublicKey::deserialize(&[ML_DSA_87_TYPE, 1, 2, 3]),
        Err(SignalProtocolError::InvalidArgument(_))
    ));
    assert!(matches!(
        SecretKey::deserialize(&[]),
        Err(SignalProtocolError::NoKeyTypeIdentifier)
    ));
    assert!(matches!(
        SecretKey::deserialize(&[0x0A]),
        Err(SignalProtocolError::BadKeyType(0x0A))
    ));
    let mut too_long = vec![ML_DSA_87_TYPE];
    too_long.extend_from_slice(&[0u8; SECRET_KEY_LENGTH + 1]);
    assert!(matches!(
        SecretKey::deserialize(&too_long),
        Err(SignalProtocolError::InvalidArgument(_))
    ));
}

#[test]
fn from_public_and_private_reports_the_public_key_error_first() {
    assert!(matches!(
        KeyPair::from_public_and_private(&[], &[]),
        Err(SignalProtocolError::NoKeyTypeIdentifier)
    ));
    let key_pair = KeyPair::generate(randomness(6));
    assert!(matches!(
        KeyPair::from_public_and_private(&key_pair.public_key.serialize(), &[7]),
        Err(SignalProtocolError::BadKeyType(7))
    ));
}

#[test]
fn generation_is_determined_by_the_randomness() {
    let a = KeyPair::generate(randomness(7));
    let b = KeyPair::generate(randomness(7));
    let c = KeyPair::generate(randomness(8));
    assert!(a.public_key == b.public_key);
    assert_eq!(a.secret_key.serialize(), b.secret_key.serialize());
    assert!(a.public_key != c.public_key);
    // The key is not the randomness handed back.
    assert_ne!(&a.public_key.serialize()[1..33], &randomness(7)[..]);
}

#[test]
fn signatures_have_the_fixed_length_and_bad_lengths_do_not_verify() {
    let key_pair = KeyPair::generate(randomness(9));
    let signature = key_pair
        .secret_key
        .calculate_signature(b"m", randomness(10))
        .expect("signing succeeds");
    assert_eq!(signature.len(), SIGNATURE_LENGTH);
    assert!(!key_pair
        .public_key
        .verify_signature(b"m", &signature[..SIGNATURE_LENGTH - 1]));
    let mut longer = signature.clone();
    longer.push(0);
    assert!(!key_pair.public_key.verify_signature(b"m", &longer));
}

#[test]
fn multipart_messages_are_signed_as_their_concatenation() {
    let key_pair = KeyPair::generate(randomness(11));
    let parts: [&[u8]; 3] = [b"ab", b"", b"cde"];
    assert_eq!(flatten(&parts), b"abcde".to_vec());
    let signature = key_pair
        .secret_key
        .calculate_signature_for_multipart_message(&parts, randomness(12))
        .expect("signing succeeds");
    assert!(key_pair.public_key.verify_signature(b"abcde", &signature));
    assert!(key_pair
        .public_key
        .verify_signature_for_multipart_message(&[b"a", b"bcd", b"e"], &signature));
}

#[test]
fn length_errors_name_the_key_and_the_length() {
    match PublicKey::deserialize(&[ML_DSA_87_TYPE, 1, 2, 3]) {
        Err(SignalProtocolError::InvalidArgument(m)) => {
            assert_eq!(m, "bad ML-DSA-87 public key length 3")
        }
        _ => panic!("expected a length error"),
    }
    let mut too_long = vec![ML_DSA_87_TYPE];
    too_long.extend_from_slice(&[0u8; SECRET_KEY_LENGTH + 1]);
    match SecretKey::deserialize(&too_long) {
        Err(SignalProtocolError::InvalidArgument(m)) => {
            assert_eq!(m, "bad ML-DSA-87 secret key length 4897")
        }
        _ => panic!("expected a length error"),
    }
    match PublicKey::deserialize(&[ML_DSA_87_TYPE]) {
        Err(SignalProtocolError::InvalidArgument(m)) => {
            assert_eq!(m, "bad ML-DSA-87 public key length 0")
        }
        _ => panic!("expected a length error"),
    }
}

#[test]
fn debug_strings_show_the_key_head_and_hide_the_secret() {
    let key_pair = KeyPair::generate(randomness(13));
    let serialized = key_pair.public_key.serialize();
    let mut head = String::new();
    for b in &serialized[1..9] {
        head.push_str(&format!("{:02x}", b));
    }
    assert_eq!(
        key_pair.public_key.debug_string(),
        format!("ML-DSA-87 PublicKey {{ {} }}", head)
    );
    assert_eq!(
        key_pair.secret_key.debug_string(),
        "ML-DSA-87 SecretKey { <redacted> }"
    );
}

#[test]
fn keys_are_ordered_by_their_bytes_and_try_from_deserializes() {
    let a = KeyPair::generate(randomness(14)).public_key;
    let b = KeyPair::generate(randomness(15)).public_key;
    assert_eq!(a.cmp(&b), a.serialize().cmp(&b.serialize()));
    assert_eq!(a.cmp(&a), std::cmp::Ordering::Equal);
    let again = PublicKey::try_from(a.serialize().as_slice()).expect("valid public key");
    assert!(again == a);
    assert!(matches!(
        SecretKey::try_from(&[][..]),
        Err(SignalProtocolError::NoKeyTypeIdentifier)
    ));
}
