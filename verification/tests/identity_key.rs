use pqxdh_protocol::dsa;
use pqxdh_protocol::proto::{decode_identity_key_pair, encode_identity_key_pair, encode_varint};
use pqxdh_protocol::{IdentityKey, IdentityKeyPair, Result, SignalProtocolError};

fn randomness(seed: u8) -> [u8; 32] {
    let mut r = [0u8; 32];
    for (i, b) in r.iter_mut().enumerate() {
        *b = seed.wrapping_mul(17).wrapping_add(i as u8);
    }
    r
}

#[test]
fn test_identity_key_from() {
    let key_pair = dsa::KeyPair::generate(randomness(1));
    let key_pair_public_serialized = key_pair.public_key.serialize();
    let identity_key = IdentityKey::from(key_pair.public_key);
    assert_eq!(key_pair_public_serialized, identity_key.serialize());
}

#[test]
fn test_serialize_identity_key_pair() -> Result<()> {
    let identity_key_pair = IdentityKeyPair::generate(randomness(2));
    let serialized = identity_key_pair.serialize();
    let deserialized_identity_key_pair = IdentityKeyPair::try_from(&serialized[..])?;
    assert!(identity_key_pair.identity_key() == deserialized_identity_key_pair.identity_key());
    assert_eq!(
        identity_key_pair.private_key().serialize(),
        deserialized_identity_key_pair.private_key().serialize()
    );

    Ok(())
}

#[test]
fn test_alternate_identity_signing() -> Result<()> {
    let primary = IdentityKeyPair::generate(randomness(3));
    let secondary = IdentityKeyPair::generate(randomness(4));

    let signature = secondary.sign_alternate_identity(primary.identity_key(), randomness(5))?;
    assert!(secondary
        .identity_key()
        .verify_alternate_identity(primary.identity_key(), &signature)?);
    // Not symmetric.
    assert!(!primary
        .identity_key()
        .verify_alternate_identity(secondary.identity_key(), &signature)?);

    let another_signature =
        secondary.sign_alternate_identity(primary.identity_key(), randomness(6))?;
    assert!(secondary
        .identity_key()
        .verify_alternate_identity(primary.identity_key(), &another_signature)?);

    let unrelated = IdentityKeyPair::generate(randomness(7));
    assert!(!secondary
        .identity_key()
        .verify_alternate_identity(unrelated.identity_key(), &signature)?);
    assert!(!unrelated
        .identity_key()
        .verify_alternate_identity(primary.identity_key(), &signature)?);

    Ok(())
}

#[test]
fn identity_signatures_verify_and_reject_tampering() -> Result<()> {
    let pair = IdentityKeyPair::generate(randomness(8));
    let signature = pair.sign(b"hello", randomness(9))?;
    assert!(pair.identity_key().verify_signature(b"hello", &signature));
    assert!(!pair.identity_key().verify_signature(b"hellp", &signature));
    let mut bad = signature.clone();
    bad[0] ^= 0x01;
    assert!(!pair.identity_key().verify_signature(b"hello", &bad));
    Ok(())
}

#[test]
fn identity_key_pair_encoding_matches_protobuf() {
    let pair = IdentityKeyPair::generate(randomness(10));
    let public = pair.identity_key().serialize();
    let private = pair.private_key().serialize();
    let mut expected = Vec::new();
    prost::encoding::bytes::encode(1, &public, &mut expected);
    prost::encoding::bytes::encode(2, &private, &mut expected);
    assert_eq!(pair.serialize(), expected);
}

#[test]
fn identity_key_pair_decoding_follows_protobuf_rules() {
    let pair = IdentityKeyPair::generate(randomness(11));
    let public = pair.identity_key().serialize();
    let private = pair.private_key().serialize();

    // Fields in the other order, with unknown fields of every wire type and a
    // group in between, and a repeated field whose last occurrence wins.
    let mut bytes = Vec::new();
    prost::encoding::bytes::encode(2, &vec![1u8, 2, 3], &mut bytes);
    prost::encoding::uint64::encode(7, &300u64, &mut bytes);
    prost::encoding::fixed64::encode(8, &5u64, &mut bytes);
    prost::encoding::fixed32::encode(9, &6u32, &mut bytes);
    prost::encoding::bytes::encode(10, &vec![9u8; 5], &mut bytes);
    prost::encoding::encode_key(11, prost::encoding::WireType::StartGroup, &mut bytes);
    prost::encoding::uint64::encode(1, &1u64, &mut bytes);
    prost::encoding::encode_key(11, prost::encoding::WireType::EndGroup, &mut bytes);
    prost::encoding::bytes::encode(2, &private, &mut bytes);
    prost::encoding::bytes::encode(1, &public, &mut bytes);

    let (pk, sk) = decode_identity_key_pair(&bytes).expect("decodes");
    assert_eq!(pk, public);
    assert_eq!(sk, private);
    let decoded = IdentityKeyPair::try_from(&bytes).expect("valid pair");
    assert!(decoded.identity_key() == pair.identity_key());

    // An empty structure decodes to empty fields.
    assert_eq!(decode_identity_key_pair(&[]), Some((vec![], vec![])));
    assert!(matches!(
        IdentityKeyPair::try_from(&[]),
        Err(SignalProtocolError::NoKeyTypeIdentifier)
    ));

    // Malformed inputs.
    assert_eq!(decode_identity_key_pair(&[0x0a]), None); // missing length
    assert_eq!(decode_identity_key_pair(&[0x0a, 0x05, 1]), None); // truncated value
    assert_eq!(decode_identity_key_pair(&[0x08, 0x01]), None); // field 1 as a varint
    assert_eq!(decode_identity_key_pair(&[0x00]), None); // field number 0
    assert_eq!(decode_identity_key_pair(&[0x0e]), None); // wire type 6
    assert_eq!(decode_identity_key_pair(&[0x5c]), None); // stray end group
    assert_eq!(decode_identity_key_pair(&[0x5b, 0x64]), None); // mismatched end group
    assert!(matches!(
        IdentityKeyPair::try_from(&[0x0a]),
        Err(SignalProtocolError::InvalidProtobufEncoding)
    ));
}

#[test]
fn varints_match_protobuf() {
    for value in [0u64, 1, 127, 128, 300, 16_384, u32::MAX as u64, u64::MAX] {
        let mut ours = Vec::new();
        encode_varint(value, &mut ours);
        let mut theirs = Vec::new();
        prost::encoding::encode_varint(value, &mut theirs);
        assert_eq!(ours, theirs);
    }
}

#[test]
fn encoding_skips_empty_fields() {
    assert_eq!(encode_identity_key_pair(&[], &[]), Vec::<u8>::new());
    assert_eq!(encode_identity_key_pair(&[7], &[]), vec![0x0a, 0x01, 7]);
    assert_eq!(encode_identity_key_pair(&[], &[8, 9]), vec![0x12, 0x02, 8, 9]);
}

#[test]
fn identity_keys_decode_with_try_from_and_order_by_bytes() -> Result<()> {
    let a = *IdentityKeyPair::generate(randomness(40)).identity_key();
    let b = *IdentityKeyPair::generate(randomness(41)).identity_key();
    assert!(IdentityKey::try_from(a.serialize().as_slice())? == a);
    assert_eq!(a.cmp(&b), a.serialize().cmp(&b.serialize()));
    match IdentityKey::try_from(&[dsa::ML_DSA_87_TYPE, 0][..]) {
        Err(SignalProtocolError::InvalidArgument(m)) => {
            assert_eq!(m, "bad ML-DSA-87 public key length 1")
        }
        _ => panic!("expected a length error"),
    }
    Ok(())
}
