//! The fully post-quantum PQXDH handshake.
//!
//! The handshake secret is `0xFF*32 || ss1 || ss2`, where `ss1` and the
//! optional `ss2` are the KEM shared secrets of Bob's signed and one-time KEM
//! prekeys; HKDF-SHA-256 turns it into the first root and chain keys. Alice
//! authenticates by signing the handshake transcript with her ML-DSA-87
//! identity; Bob verifies that signature and rejects the handshake otherwise.

use vstd::prelude::*;

use crate::curve::{self, spec_serialize_public, KeyPair, PublicKey};
use crate::dsa::{
    self, mldsa87_sign, mldsa87_verify, spec_context, spec_serialize_key, CONTEXT_BYTES,
    SIGNATURE_LENGTH,
};
use crate::error::{Result, SignalProtocolError};
use crate::identity_key::IdentityKey;
use crate::kem;
use crate::protocol::CIPHERTEXT_MESSAGE_CURRENT_VERSION;
use crate::state::session::{ReceiverChain, SenderChain, SessionRecord, SessionState};

pub mod keys;
pub mod params;

pub use self::keys::{hkdf_sha256_64, spec_create_chain, ChainKey, RootKey, RATCHET_LABEL};
pub use self::params::{
    AliceParametersView, AliceSignalProtocolParameters, BobParametersView, BobSignalProtocolParameters,
};

verus! {

/// HKDF label of the handshake key derivation: `PQXDH_MLKEM1024_MLDSA87_SHA-256`.
pub const PQXDH_LABEL: [u8; 31] = [
    0x50, 0x51, 0x58, 0x44, 0x48, 0x5f, 0x4d, 0x4c, 0x4b, 0x45, 0x4d, 0x31,
    0x30, 0x32, 0x34, 0x5f, 0x4d, 0x4c, 0x44, 0x53, 0x41, 0x38, 0x37, 0x5f,
    0x53, 0x48, 0x41, 0x2d, 0x32, 0x35, 0x36,
];

/// Domain-separation label in front of the signed transcript:
/// `PQXDH_MLKEM1024_MLDSA87_transcript`.
pub const PQXDH_TRANSCRIPT_LABEL: [u8; 34] = [
    0x50, 0x51, 0x58, 0x44, 0x48, 0x5f, 0x4d, 0x4c, 0x4b, 0x45, 0x4d, 0x31,
    0x30, 0x32, 0x34, 0x5f, 0x4d, 0x4c, 0x44, 0x53, 0x41, 0x38, 0x37, 0x5f,
    0x74, 0x72, 0x61, 0x6e, 0x73, 0x63, 0x72, 0x69, 0x70, 0x74,
];

/// The "discontinuity bytes" at the start of the handshake secret.
pub const DISCONTINUITY_BYTES: [u8; 32] = [
    0xFF, 0xFF, 0xFF, 0xFF, 0xFF, 0xFF, 0xFF, 0xFF, 0xFF, 0xFF, 0xFF, 0xFF,
    0xFF, 0xFF, 0xFF, 0xFF, 0xFF, 0xFF, 0xFF, 0xFF, 0xFF, 0xFF, 0xFF, 0xFF,
    0xFF, 0xFF, 0xFF, 0xFF, 0xFF, 0xFF, 0xFF, 0xFF,
];

/// The four big-endian bytes of `n`.
pub open spec fn spec_be32(n: u32) -> Seq<u8> {
    seq![(n >> 24u32) as u8, (n >> 16u32) as u8, (n >> 8u32) as u8, n as u8]
}

/// A part with its length in front, as four big-endian bytes (the length
/// taken modulo 2^32).
pub open spec fn spec_length_prefixed(part: Seq<u8>) -> Seq<u8> {
    spec_be32(part.len() as u32) + part
}

/// The length-prefixed parts, one after the other.
pub open spec fn spec_encode_parts(parts: Seq<Seq<u8>>) -> Seq<u8>
    decreases parts.len(),
{
    if parts.len() == 0 {
        Seq::empty()
    } else {
        spec_length_prefixed(parts[0]) + spec_encode_parts(parts.drop_first())
    }
}

/// The seven parts of the handshake transcript: the label, Alice's identity,
/// both ciphertexts, Bob's identity, Bob's ratchet key and Alice's base key.
pub open spec fn spec_transcript_parts(
    alice_identity: Seq<u8>,
    ct1: Seq<u8>,
    ct2: Seq<u8>,
    bob_identity: Seq<u8>,
    bob_ratchet_key: Seq<u8>,
    alice_base_key: Seq<u8>,
) -> Seq<Seq<u8>> {
    seq![
        PQXDH_TRANSCRIPT_LABEL@,
        spec_serialize_key(alice_identity),
        ct1,
        ct2,
        spec_serialize_key(bob_identity),
        spec_serialize_public(bob_ratchet_key),
        spec_serialize_public(alice_base_key),
    ]
}

/// The byte string that Alice signs and Bob verifies.
pub open spec fn spec_handshake_transcript(
    alice_identity: Seq<u8>,
    ct1: Seq<u8>,
    ct2: Seq<u8>,
    bob_identity: Seq<u8>,
    bob_ratchet_key: Seq<u8>,
    alice_base_key: Seq<u8>,
) -> Seq<u8> {
    spec_encode_parts(
        spec_transcript_parts(alice_identity, ct1, ct2, bob_identity, bob_ratchet_key, alice_base_key),
    )
}

/// Encoding a concatenation of part lists concatenates their encodings.
proof fn lemma_encode_parts_append(a: Seq<Seq<u8>>, b: Seq<Seq<u8>>)
    ensures
        spec_encode_parts(a + b) == spec_encode_parts(a) + spec_encode_parts(b),
    decreases a.len(),
{
    if a.len() == 0 {
        assert(a + b =~= b);
        assert(spec_encode_parts(a) =~= Seq::<u8>::empty());
        assert(spec_encode_parts(a) + spec_encode_parts(b) =~= spec_encode_parts(b));
    } else {
        lemma_encode_parts_append(a.drop_first(), b);
        assert((a + b).drop_first() =~= a.drop_first() + b);
        assert((a + b)[0] == a[0]);
        assert(spec_encode_parts(a + b) =~= spec_length_prefixed(a[0]) + spec_encode_parts(
            a.drop_first() + b,
        ));
        assert(spec_encode_parts(a + b) =~= spec_encode_parts(a) + spec_encode_parts(b));
    }
}

/// Encoding one more part appends its length-prefixed form.
proof fn lemma_encode_parts_push(parts: Seq<Seq<u8>>, i: int)
    requires
        0 <= i < parts.len(),
    ensures
        spec_encode_parts(parts.take(i + 1)) == spec_encode_parts(parts.take(i))
            + spec_length_prefixed(parts[i]),
{
    assert(parts.take(i + 1) =~= parts.take(i) + seq![parts[i]]);
    lemma_encode_parts_append(parts.take(i), seq![parts[i]]);
    let one = seq![parts[i]];
    assert(one.drop_first() =~= Seq::<Seq<u8>>::empty());
    assert(spec_encode_parts(one.drop_first()) =~= Seq::<u8>::empty());
    assert(one[0] == parts[i]);
    assert(spec_encode_parts(one) =~= spec_length_prefixed(parts[i]) + spec_encode_parts(one.drop_first()));
    assert(spec_encode_parts(one) =~= spec_length_prefixed(parts[i]));
}

/// Four big-endian bytes determine the number.
proof fn lemma_be32_injective(a: u32, b: u32)
    requires
        spec_be32(a) == spec_be32(b),
    ensures
        a == b,
{
    let sa = spec_be32(a);
    let sb = spec_be32(b);
    assert(sa[0] == sb[0] && sa[1] == sb[1] && sa[2] == sb[2] && sa[3] == sb[3]);
    let a0 = (a >> 24u32) as u8;
    let a1 = (a >> 16u32) as u8;
    let a2 = (a >> 8u32) as u8;
    let a3 = a as u8;
    let b0 = (b >> 24u32) as u8;
    let b1 = (b >> 16u32) as u8;
    let b2 = (b >> 8u32) as u8;
    let b3 = b as u8;
    assert(a0 == b0 && a1 == b1 && a2 == b2 && a3 == b3);
    assert(((a >> 24u32) as u8 == (b >> 24u32) as u8 && (a >> 16u32) as u8 == (b >> 16u32) as u8
        && (a >> 8u32) as u8 == (b >> 8u32) as u8 && a as u8 == b as u8) ==> a == b) by (bit_vector);
}

/// Length-prefixed encodings of part lists of equal count, each part shorter
/// than 2^32 bytes, are equal only for equal lists.
pub proof fn lemma_encode_parts_injective(a: Seq<Seq<u8>>, b: Seq<Seq<u8>>)
    requires
        a.len() == b.len(),
        forall|i: int| 0 <= i < a.len() ==> #[trigger] a[i].len() < 0x1_0000_0000,
        forall|i: int| 0 <= i < b.len() ==> #[trigger] b[i].len() < 0x1_0000_0000,
        spec_encode_parts(a) == spec_encode_parts(b),
    ensures
        a == b,
    decreases a.len(),
{
    if a.len() == 0 {
        assert(a =~= b);
    } else {
        let ea = spec_encode_parts(a);
        let la = a[0].len() as int;
        let lb = b[0].len() as int;
        assert(a[0].len() < 0x1_0000_0000);
        assert(b[0].len() < 0x1_0000_0000);
        assert(ea =~= spec_be32(la as u32) + a[0] + spec_encode_parts(a.drop_first()));
        assert(ea =~= spec_be32(lb as u32) + b[0] + spec_encode_parts(b.drop_first()));
        assert(ea.subrange(0, 4) =~= spec_be32(la as u32));
        assert(ea.subrange(0, 4) =~= spec_be32(lb as u32));
        lemma_be32_injective(la as u32, lb as u32);
        assert(la == lb);
        assert(ea.subrange(4, 4 + la) =~= a[0]);
        assert(ea.subrange(4, 4 + la) =~= b[0]);
        assert(ea.subrange(4 + la, ea.len() as int) =~= spec_encode_parts(a.drop_first()));
        assert(ea.subrange(4 + la, ea.len() as int) =~= spec_encode_parts(b.drop_first()));
        assert forall|i: int| 0 <= i < a.drop_first().len() implies #[trigger] a.drop_first()[i].len()
            < 0x1_0000_0000 by {
            assert(a.drop_first()[i] == a[i + 1]);
        }
        assert forall|i: int| 0 <= i < b.drop_first().len() implies #[trigger] b.drop_first()[i].len()
            < 0x1_0000_0000 by {
            assert(b.drop_first()[i] == b[i + 1]);
        }
        lemma_encode_parts_injective(a.drop_first(), b.drop_first());
        assert forall|i: int| 0 <= i < a.len() implies a[i] == b[i] by {
            if i > 0 {
                assert(a[i] == a.drop_first()[i - 1]);
                assert(b[i] == b.drop_first()[i - 1]);
            }
        }
        assert(a =~= b);
    }
}

/// Build the byte string that Alice signs with her identity key and that Bob
/// verifies. Every part is length-prefixed, so that no two lists of parts
/// give the same transcript:
/// `label || alice_IK || ct1 || ct2 || bob_IK || bob_ratchet_key || alice_base_key`.
pub fn handshake_transcript(
    alice_identity: &IdentityKey,
    ct1: &[u8],
    ct2: &[u8],
    bob_identity: &IdentityKey,
    bob_ratchet_key: &PublicKey,
    alice_base_key: &PublicKey,
) -> (out: Vec<u8>)
    ensures
        out@ == spec_handshake_transcript(
            alice_identity@,
            ct1@,
            ct2@,
            bob_identity@,
            bob_ratchet_key@,
            alice_base_key@,
        ),
{
    let alice_ik = alice_identity.serialize();
    let bob_ik = bob_identity.serialize();
    let ratchet = bob_ratchet_key.serialize();
    let base = alice_base_key.serialize();
    let label: &[u8] = &PQXDH_TRANSCRIPT_LABEL;
    let parts: [&[u8]; 7] = [
        label,
        alice_ik.as_slice(),
        ct1,
        ct2,
        bob_ik.as_slice(),
        ratchet.as_slice(),
        base.as_slice(),
    ];
    let ghost views: Seq<Seq<u8>> = spec_transcript_parts(
        alice_identity@,
        ct1@,
        ct2@,
        bob_identity@,
        bob_ratchet_key@,
        alice_base_key@,
    );
    assert(forall|i: int| 0 <= i < 7 ==> (#[trigger] parts@[i])@ == views[i]);
    let mut transcript: Vec<u8> = Vec::new();
    let mut i: usize = 0;
    while i < 7
        invariant
            i <= 7,
            views.len() == 7,
            parts@.len() == 7,
            forall|j: int| 0 <= j < 7 ==> (#[trigger] parts@[j])@ == views[j],
            transcript@ == spec_encode_parts(views.take(i as int)),
        decreases 7 - i,
    {
        let part: &[u8] = parts[i];
        #[verifier::truncate]
        let n: u32 = part.len() as u32;
        transcript.push((n >> 24u32) as u8);
        transcript.push((n >> 16u32) as u8);
        transcript.push((n >> 8u32) as u8);
        transcript.push(n as u8);
        transcript.extend_from_slice(part);
        proof {
            lemma_encode_parts_push(views, i as int);
            assert(transcript@ =~= spec_encode_parts(views.take(i as int)) + spec_length_prefixed(
                views[i as int],
            ));
        }
        i = i + 1;
    }
    assert(views.take(7) =~= views);
    transcript
}

/// The handshake secret: the discontinuity bytes, `ss1`, then `ss2` if there is one.
pub open spec fn spec_secret_input(ss1: Seq<u8>, ss2: Option<Seq<u8>>) -> Seq<u8> {
    DISCONTINUITY_BYTES@ + ss1 + match ss2 {
        Some(s) => s,
        None => Seq::empty(),
    }
}

/// The 64 bytes from which the first root key (first half) and chain key
/// (second half) come.
pub open spec fn spec_derive_keys(secret_input: Seq<u8>) -> Seq<u8> {
    hkdf_sha256_64(None, secret_input, PQXDH_LABEL@)
}

/// Build the handshake secret from the shared secrets.
fn secret_input(ss1: &[u8], ss2: Option<&Vec<u8>>) -> (out: Vec<u8>)
    ensures
        out@ == spec_secret_input(
            ss1@,
            match ss2 {
                Some(s) => Some(s@),
                None => None,
            },
        ),
{
    let mut secrets: Vec<u8> = Vec::new();
    secrets.extend_from_slice(&DISCONTINUITY_BYTES);
    secrets.extend_from_slice(ss1);
    if let Some(ss2) = ss2 {
        secrets.extend_from_slice(ss2.as_slice());
    }
    assert(secrets@ =~= spec_secret_input(
        ss1@,
        match ss2 {
            Some(s) => Some(s@),
            None => None,
        },
    ));
    secrets
}

/// Derive the first root and chain keys from the handshake secret with `label`.
fn derive_keys_with_label(label: &[u8], secret_input: &[u8]) -> (res: (RootKey, ChainKey))
    ensures
        res.0.key@ == hkdf_sha256_64(None, secret_input@, label@).subrange(0, 32),
        res.1.key@ == hkdf_sha256_64(None, secret_input@, label@).subrange(32, 64),
        res.1.index == 0,
{
    let secrets = keys::hkdf_sha256_expand_64(None, secret_input, label);
    let (root_key_bytes, chain_key_bytes) = keys::split_64(&secrets);
    (RootKey::new(root_key_bytes), ChainKey::new(chain_key_bytes, 0))
}

/// Derive the first root and chain keys from the handshake secret.
pub fn derive_keys(secret_input: &[u8]) -> (res: (RootKey, ChainKey))
    ensures
        res.0.key@ == spec_derive_keys(secret_input@).subrange(0, 32),
        res.1.key@ == spec_derive_keys(secret_input@).subrange(32, 64),
        res.1.index == 0,
{
    let label: &[u8] = &PQXDH_LABEL;
    derive_keys_with_label(label, secret_input)
}

/// The session version of the sessions this handshake sets up.
pub fn message_version() -> (v: u8)
    ensures
        v == CIPHERTEXT_MESSAGE_CURRENT_VERSION,
{
    CIPHERTEXT_MESSAGE_CURRENT_VERSION
}

/// Whether Bob holds a one-time KEM prekey exactly when Alice sent a ciphertext to one.
pub open spec fn spec_bob_one_time_consistent(p: BobParametersView) -> bool {
    p.our_one_time_kem_secret_key is Some == p.their_one_time_kem_ciphertext is Some
}

/// Whether Bob's decapsulation of the signed prekey ciphertext succeeds.
pub open spec fn spec_bob_signed_decapsulation_succeeds(p: BobParametersView) -> bool {
    kem::spec_decapsulation_succeeds(
        p.our_signed_kem_secret_key.0,
        p.our_signed_kem_secret_key.1.len(),
        p.their_kem_ciphertext,
    )
}

/// Whether Bob's decapsulation of the one-time prekey ciphertext, if both are
/// there, succeeds.
pub open spec fn spec_bob_one_time_decapsulation_succeeds(p: BobParametersView) -> bool {
    match (p.our_one_time_kem_secret_key, p.their_one_time_kem_ciphertext) {
        (Some(k), Some(c)) => kem::spec_decapsulation_succeeds(k.0, k.1.len(), c),
        _ => true,
    }
}

/// The shared secret that Bob recovers from the signed prekey ciphertext.
pub open spec fn spec_bob_ss1(p: BobParametersView) -> Seq<u8> {
    kem::spec_decapsulate(
        p.our_signed_kem_secret_key.0,
        p.our_signed_kem_secret_key.1,
        p.their_kem_ciphertext.drop_first(),
    )
}

/// The shared secret that Bob recovers from the one-time prekey ciphertext.
pub open spec fn spec_bob_ss2(p: BobParametersView) -> Option<Seq<u8>> {
    match (p.our_one_time_kem_secret_key, p.their_one_time_kem_ciphertext) {
        (Some(k), Some(c)) => Some(kem::spec_decapsulate(k.0, k.1, c.drop_first())),
        _ => None,
    }
}

/// The one-time ciphertext, or nothing.
pub open spec fn spec_or_empty(c: Option<Seq<u8>>) -> Seq<u8> {
    match c {
        Some(c) => c,
        None => Seq::empty(),
    }
}

/// The transcript that Bob verifies Alice's signature over.
pub open spec fn spec_bob_transcript(p: BobParametersView) -> Seq<u8> {
    spec_handshake_transcript(
        p.their_identity_key@,
        p.their_kem_ciphertext,
        spec_or_empty(p.their_one_time_kem_ciphertext),
        p.our_identity_key_pair.spec_identity_key()@,
        p.our_ratchet_key_pair.public_key@,
        p.their_base_key@,
    )
}

/// Whether Alice's transcript signature verifies under her identity key.
pub open spec fn spec_bob_signature_valid(p: BobParametersView) -> bool {
    p.their_signature.len() == SIGNATURE_LENGTH && mldsa87_verify(
        p.their_identity_key@,
        spec_bob_transcript(p),
        spec_context(),
        p.their_signature,
    )
}

/// Whether Alice's signature is one that a generated key pair with her
/// identity key made over the transcript that Bob checks.
pub open spec fn spec_bob_signature_made_by_alice(p: BobParametersView) -> bool {
    p.their_signature.len() == SIGNATURE_LENGTH && dsa::spec_made_by_generated_pair(
        p.their_identity_key@,
        spec_bob_transcript(p),
        spec_context(),
        p.their_signature,
    )
}

/// Whether Bob accepts the handshake.
pub open spec fn spec_bob_accepts(p: BobParametersView) -> bool {
    &&& spec_bob_signed_decapsulation_succeeds(p)
    &&& spec_bob_one_time_consistent(p)
    &&& spec_bob_one_time_decapsulation_succeeds(p)
    &&& spec_bob_signature_valid(p)
}

/// The session that Bob sets up: root key and sending chain key from the
/// handshake secret, sending with his signed ratchet key pair, with no
/// registration ids yet.
pub open spec fn spec_bob_session(p: BobParametersView, s: SessionState) -> bool {
    &&& spec_bob_session_keys(p, s)
    &&& s.local_registration_id == 0
    &&& s.remote_registration_id == 0
}

/// Everything of Bob's session but the registration ids.
pub open spec fn spec_bob_session_keys(p: BobParametersView, s: SessionState) -> bool {
    let derived = spec_derive_keys(spec_secret_input(spec_bob_ss1(p), spec_bob_ss2(p)));
    &&& s.session_version == CIPHERTEXT_MESSAGE_CURRENT_VERSION
    &&& s.local_identity_key == p.our_identity_key_pair.spec_identity_key()
    &&& s.remote_identity_key == p.their_identity_key
    &&& s.root_key.key@ == derived.subrange(0, 32)
    &&& s.alice_base_key == p.their_base_key
    &&& s.sender_chain matches Some(c) && c.ratchet_key_pair == p.our_ratchet_key_pair
        && c.chain_key.key@ == derived.subrange(32, 64) && c.chain_key.index == 0
    &&& s.receiver_chains@.len() == 0
    &&& s.kyber_ciphertext is None
    &&& s.pq_one_time_ciphertext is None
    &&& s.identity_signature is None
    &&& s.unacknowledged_pre_key_message is None
    &&& s.unacknowledged_kyber_pre_key_id is None
    &&& s.pq_one_time_pre_key_id is None
}

/// The message of the error for a one-time KEM prekey without its ciphertext,
/// or the other way round.
pub open spec fn spec_one_time_mismatch_text() -> Seq<char> {
    "one-time KEM prekey and ciphertext must both be present or both absent"@
}

/// Whether `e` is the error that Bob's handshake reports: the decapsulation
/// error if a decapsulation fails, an invalid argument if the one-time prekey
/// and its ciphertext do not come together, and a failed signature validation
/// if Alice's signature does not verify, in this order.
pub open spec fn spec_bob_error(p: BobParametersView, e: SignalProtocolError) -> bool {
    if !spec_bob_signed_decapsulation_succeeds(p) {
        kem::spec_decapsulation_error(
            p.our_signed_kem_secret_key.0,
            p.our_signed_kem_secret_key.1.len(),
            p.their_kem_ciphertext,
            e,
        )
    } else if !spec_bob_one_time_consistent(p) {
        e matches SignalProtocolError::InvalidArgument(m) && m@ == spec_one_time_mismatch_text()
    } else if !spec_bob_one_time_decapsulation_succeeds(p) {
        kem::spec_decapsulation_error(
            p.our_one_time_kem_secret_key.unwrap().0,
            p.our_one_time_kem_secret_key.unwrap().1.len(),
            p.their_one_time_kem_ciphertext.unwrap(),
            e,
        )
    } else {
        e is SignatureValidationFailed
    }
}

/// Bob's half of the handshake.
pub fn initialize_bob_session(parameters: &BobSignalProtocolParameters) -> (res: Result<SessionState>)
    ensures
        res is Ok <==> spec_bob_accepts(parameters@),
        spec_bob_signed_decapsulation_succeeds(parameters@) && spec_bob_one_time_consistent(
            parameters@,
        ) && spec_bob_one_time_decapsulation_succeeds(parameters@)
            && spec_bob_signature_made_by_alice(parameters@) ==> res is Ok,
        res matches Ok(s) ==> spec_bob_session(parameters@, s),
        res matches Err(e) ==> spec_bob_error(parameters@, e),
{
    let local_identity = parameters.our_identity_key_pair().identity_key();

    let ss1 = parameters.our_signed_kem_pre_key_pair().secret_key.decapsulate(
        parameters.their_kem_ciphertext().as_slice(),
    )?;

    let ss2: Option<Vec<u8>> = match (
        parameters.our_one_time_kem_pre_key_pair(),
        parameters.their_one_time_kem_ciphertext(),
    ) {
        (Some(key_pair), Some(ciphertext)) => Some(
            key_pair.secret_key.decapsulate(ciphertext.as_slice())?,
        ),
        (None, None) => None,
        _ => {
            return Err(
                SignalProtocolError::InvalidArgument(
                    String::from_str(
                        "one-time KEM prekey and ciphertext must both be present or both absent",
                    ),
                ),
            );
        },
    };

    let secrets = secret_input(ss1.as_slice(), ss2.as_ref());
    let (root_key, chain_key) = derive_keys(secrets.as_slice());

    let ct2_bytes: &[u8] = match parameters.their_one_time_kem_ciphertext() {
        Some(ct) => ct.as_slice(),
        None => &[],
    };
    let transcript = handshake_transcript(
        parameters.their_identity_key(),
        parameters.their_kem_ciphertext().as_slice(),
        ct2_bytes,
        local_identity,
        &parameters.our_ratchet_key_pair().public_key,
        parameters.their_base_key(),
    );
    proof {
        assert(ct2_bytes@ == spec_or_empty(parameters@.their_one_time_kem_ciphertext));
    }
    if !parameters.their_identity_key().verify_signature(transcript.as_slice(), parameters.their_signature()) {
        return Err(SignalProtocolError::SignatureValidationFailed);
    }

    let mut session = SessionState::new(
        message_version(),
        local_identity,
        parameters.their_identity_key(),
        &root_key,
        parameters.their_base_key(),
    );
    session.sender_chain = Some(SenderChain { ratchet_key_pair: *parameters.our_ratchet_key_pair(), chain_key });
    Ok(session)
}

/// Bob's half of the handshake, as a session record.
pub fn initialize_bob_session_record(parameters: &BobSignalProtocolParameters) -> (res: Result<SessionRecord>)
    ensures
        res is Ok <==> spec_bob_accepts(parameters@),
        res matches Ok(r) ==> r.previous_sessions@.len() == 0,
        res matches Ok(r) ==> (r.current_session matches Some(s) && spec_bob_session(
            parameters@,
            s,
        )),
        res matches Err(e) ==> spec_bob_error(parameters@, e),
{
    Ok(SessionRecord::new(initialize_bob_session(parameters)?))
}

/// The random bytes that Alice's half of the handshake consumes, in the order
/// in which it draws them: the private key of her first sending ratchet key,
/// the message and salt of each encapsulation (the one-time ones only used if
/// Bob offered a one-time KEM prekey; an ML-KEM-1024 encapsulation takes the
/// message as its randomness and no salt), and the signing randomness.
#[derive(Clone, Copy)]
pub struct AliceHandshakeRandomness {
    pub sending_ratchet_key: [u8; curve::KEY_LENGTH],
    pub signed_kem_message: [u8; kem::hqc256::MESSAGE_LENGTH],
    pub signed_kem_salt: [u8; kem::hqc256::SALT_LENGTH],
    pub one_time_kem_message: [u8; kem::hqc256::MESSAGE_LENGTH],
    pub one_time_kem_salt: [u8; kem::hqc256::SALT_LENGTH],
    pub signature: [u8; dsa::RANDOMNESS_LENGTH],
}

/// Whether Bob's KEM public keys have the lengths their type needs.
pub open spec fn spec_alice_keys_valid(p: AliceParametersView) -> bool {
    &&& p.their_signed_kem_pre_key.1.len() == p.their_signed_kem_pre_key.0.spec_public_key_length()
    &&& p.their_one_time_kem_pre_key matches Some(k) ==> k.1.len() == k.0.spec_public_key_length()
}

/// The (shared secret, serialized ciphertext) of the encapsulation to Bob's signed KEM prekey.
pub open spec fn spec_alice_encapsulation_1(p: AliceParametersView, r: AliceHandshakeRandomness) -> (
    Seq<u8>,
    Seq<u8>,
) {
    kem::spec_encapsulate(
        p.their_signed_kem_pre_key.0,
        p.their_signed_kem_pre_key.1,
        r.signed_kem_message@,
        r.signed_kem_salt@,
    )
}

/// The (shared secret, serialized ciphertext) of the encapsulation to Bob's
/// one-time KEM prekey, if he offered one.
pub open spec fn spec_alice_encapsulation_2(p: AliceParametersView, r: AliceHandshakeRandomness) -> Option<
    (Seq<u8>, Seq<u8>),
> {
    match p.their_one_time_kem_pre_key {
        Some(k) => Some(kem::spec_encapsulate(k.0, k.1, r.one_time_kem_message@, r.one_time_kem_salt@)),
        None => None,
    }
}

/// The one-time shared secret, if any.
pub open spec fn spec_alice_ss2(p: AliceParametersView, r: AliceHandshakeRandomness) -> Option<Seq<u8>> {
    match spec_alice_encapsulation_2(p, r) {
        Some(e) => Some(e.0),
        None => None,
    }
}

/// The one-time ciphertext, if any.
pub open spec fn spec_alice_ct2(p: AliceParametersView, r: AliceHandshakeRandomness) -> Option<Seq<u8>> {
    match spec_alice_encapsulation_2(p, r) {
        Some(e) => Some(e.1),
        None => None,
    }
}

/// The 64 bytes of Alice's first root and chain keys.
pub open spec fn spec_alice_derived(p: AliceParametersView, r: AliceHandshakeRandomness) -> Seq<u8> {
    spec_derive_keys(spec_secret_input(spec_alice_encapsulation_1(p, r).0, spec_alice_ss2(p, r)))
}

/// The transcript that Alice signs.
pub open spec fn spec_alice_transcript(p: AliceParametersView, r: AliceHandshakeRandomness) -> Seq<u8> {
    spec_handshake_transcript(
        p.our_identity_key_pair.spec_identity_key()@,
        spec_alice_encapsulation_1(p, r).1,
        spec_or_empty(spec_alice_ct2(p, r)),
        p.their_identity_key@,
        p.their_ratchet_key@,
        p.our_base_key_pair.public_key@,
    )
}

/// Alice's signature over the transcript, if signing succeeds.
pub open spec fn spec_alice_signature(p: AliceParametersView, r: AliceHandshakeRandomness) -> Option<Seq<u8>> {
    mldsa87_sign(
        p.our_identity_key_pair.spec_private_key()@,
        spec_alice_transcript(p, r),
        spec_context(),
        r.signature@,
    )
}

/// The session that Alice sets up: she receives on Bob's ratchet key with the
/// first chain key, and sends on a new ratchet key whose chain comes from one
/// root-key ratchet step; the ciphertexts and her signature wait to be sent.
/// Nothing else is pending yet and there are no registration ids.
pub open spec fn spec_alice_session(p: AliceParametersView, r: AliceHandshakeRandomness, s: SessionState) -> bool {
    &&& spec_alice_session_keys(p, r, s)
    &&& s.unacknowledged_pre_key_message is None
    &&& s.unacknowledged_kyber_pre_key_id is None
    &&& s.pq_one_time_pre_key_id is None
    &&& s.local_registration_id == 0
    &&& s.remote_registration_id == 0
}

/// Alice's session but for what is pending and the registration ids.
pub open spec fn spec_alice_session_keys(p: AliceParametersView, r: AliceHandshakeRandomness, s: SessionState) -> bool {
    let derived = spec_alice_derived(p, r);
    let stepped = spec_create_chain(derived.subrange(0, 32), p.their_ratchet_key@, r.sending_ratchet_key@);
    &&& s.session_version == CIPHERTEXT_MESSAGE_CURRENT_VERSION
    &&& s.local_identity_key == p.our_identity_key_pair.spec_identity_key()
    &&& s.remote_identity_key == p.their_identity_key
    &&& s.root_key.key@ == stepped.subrange(0, 32)
    &&& s.alice_base_key == p.our_base_key_pair.public_key
    &&& s.receiver_chains@.len() == 1
    &&& s.receiver_chains@[0].ratchet_key == p.their_ratchet_key
    &&& s.receiver_chains@[0].chain_key.key@ == derived.subrange(32, 64)
    &&& s.receiver_chains@[0].chain_key.index == 0
    &&& s.sender_chain matches Some(c) && c.ratchet_key_pair.private_key@ == r.sending_ratchet_key@
        && c.ratchet_key_pair.public_key@ == curve::x25519_public_key(r.sending_ratchet_key@)
        && c.chain_key.key@ == stepped.subrange(32, 64) && c.chain_key.index == 0
    &&& s.kyber_ciphertext matches Some(c) && c@ == spec_alice_encapsulation_1(p, r).1
    &&& match spec_alice_ct2(p, r) {
        Some(ct) => s.pq_one_time_ciphertext matches Some(c) && c@ == ct,
        None => s.pq_one_time_ciphertext is None,
    }
    &&& s.identity_signature matches Some(sig) && spec_alice_signature(p, r) == Some(sig@)
        && sig@.len() == SIGNATURE_LENGTH
}

/// Whether Alice's half of the handshake succeeds.
pub open spec fn spec_alice_succeeds(p: AliceParametersView, r: AliceHandshakeRandomness) -> bool {
    spec_alice_keys_valid(p) && spec_alice_signature(p, r) is Some
}

/// Whether `e` is the error of Alice's half of the handshake: a bad KEM key
/// length for the first of Bob's KEM keys of the wrong length, else the
/// signing error when signing fails.
pub open spec fn spec_alice_error(p: AliceParametersView, r: AliceHandshakeRandomness, e: SignalProtocolError) -> bool {
    if p.their_signed_kem_pre_key.1.len() != p.their_signed_kem_pre_key.0.spec_public_key_length() {
        e matches SignalProtocolError::BadKEMKeyLength(t, n) && t == p.their_signed_kem_pre_key.0
            && n == p.their_signed_kem_pre_key.1.len()
    } else if !spec_alice_keys_valid(p) {
        e matches SignalProtocolError::BadKEMKeyLength(t, n) && p.their_one_time_kem_pre_key
            == Some((t, p.their_one_time_kem_pre_key.unwrap().1)) && n
            == p.their_one_time_kem_pre_key.unwrap().1.len()
    } else {
        dsa::spec_signing_failed(e)
    }
}

/// Alice's half of the handshake, with the random bytes it consumes given.
pub fn initialize_alice_session(
    parameters: &AliceSignalProtocolParameters,
    randomness: &AliceHandshakeRandomness,
) -> (res: Result<SessionState>)
    ensures
        res is Ok <==> spec_alice_succeeds(parameters@, *randomness),
        res matches Ok(s) ==> spec_alice_session(parameters@, *randomness, s),
        res matches Err(e) ==> spec_alice_error(parameters@, *randomness, e),
{
    let local_identity = parameters.our_identity_key_pair().identity_key();

    let sending_ratchet_key = KeyPair::generate(randomness.sending_ratchet_key);

    let (ss1, ct1) = parameters.their_signed_kem_pre_key().encapsulate(
        randomness.signed_kem_message,
        randomness.signed_kem_salt,
    )?;
    let (ss2, ct2): (Option<Vec<u8>>, Option<Vec<u8>>) = match parameters.their_one_time_kem_pre_key() {
        Some(one_time) => {
            let (ss, ct) = one_time.encapsulate(
                randomness.one_time_kem_message,
                randomness.one_time_kem_salt,
            )?;
            (Some(ss), Some(ct))
        },
        None => (None, None),
    };

    let secrets = secret_input(ss1.as_slice(), ss2.as_ref());
    let (root_key, chain_key) = derive_keys(secrets.as_slice());

    let (sending_chain_root_key, sending_chain_chain_key) = root_key.create_chain(
        parameters.their_ratchet_key(),
        &sending_ratchet_key.private_key,
    );

    let ct2_bytes: &[u8] = match &ct2 {
        Some(ct) => ct.as_slice(),
        None => &[],
    };
    let transcript = handshake_transcript(
        local_identity,
        ct1.as_slice(),
        ct2_bytes,
        parameters.their_identity_key(),
        parameters.their_ratchet_key(),
        &parameters.our_base_key_pair().public_key,
    );
    proof {
        assert(ct2_bytes@ == spec_or_empty(spec_alice_ct2(parameters@, *randomness)));
    }
    let signature = parameters.our_identity_key_pair().sign(transcript.as_slice(), randomness.signature)?;

    let mut session = SessionState::new(
        message_version(),
        local_identity,
        parameters.their_identity_key(),
        &sending_chain_root_key,
        &parameters.our_base_key_pair().public_key,
    );
    session.receiver_chains.push(ReceiverChain { ratchet_key: *parameters.their_ratchet_key(), chain_key });
    session.sender_chain = Some(SenderChain { ratchet_key_pair: sending_ratchet_key, chain_key: sending_chain_chain_key });
    session.kyber_ciphertext = Some(ct1);
    session.pq_one_time_ciphertext = ct2;
    session.identity_signature = Some(signature);
    Ok(session)
}

/// Alice's half of the handshake, as a session record.
pub fn initialize_alice_session_record(
    parameters: &AliceSignalProtocolParameters,
    randomness: &AliceHandshakeRandomness,
) -> (res: Result<SessionRecord>)
    ensures
        res is Ok <==> spec_alice_succeeds(parameters@, *randomness),
        res matches Ok(r) ==> r.previous_sessions@.len() == 0,
        res matches Ok(r) ==> (r.current_session matches Some(s) && spec_alice_session(
            parameters@,
            *randomness,
            s,
        )),
        res matches Err(e) ==> spec_alice_error(parameters@, *randomness, e),
{
    Ok(SessionRecord::new(initialize_alice_session(parameters, randomness)?))
}

/// Transcripts determine their parts: equal transcripts come from the same
/// identities, ciphertexts, ratchet key and base key (ciphertexts shorter than
/// 2^32 bytes, so that their length prefixes are exact).
pub proof fn law_handshake_transcript_injective(
    alice_identity: IdentityKey,
    ct1: Seq<u8>,
    ct2: Seq<u8>,
    bob_identity: IdentityKey,
    bob_ratchet_key: PublicKey,
    alice_base_key: PublicKey,
    other_alice_identity: IdentityKey,
    other_ct1: Seq<u8>,
    other_ct2: Seq<u8>,
    other_bob_identity: IdentityKey,
    other_bob_ratchet_key: PublicKey,
    other_alice_base_key: PublicKey,
)
    requires
        ct1.len() < 0x1_0000_0000,
        ct2.len() < 0x1_0000_0000,
        other_ct1.len() < 0x1_0000_0000,
        other_ct2.len() < 0x1_0000_0000,
        spec_handshake_transcript(
            alice_identity@,
            ct1,
            ct2,
            bob_identity@,
            bob_ratchet_key@,
            alice_base_key@,
        ) == spec_handshake_transcript(
            other_alice_identity@,
            other_ct1,
            other_ct2,
            other_bob_identity@,
            other_bob_ratchet_key@,
            other_alice_base_key@,
        ),
    ensures
        alice_identity == other_alice_identity,
        ct1 == other_ct1,
        ct2 == other_ct2,
        bob_identity == other_bob_identity,
        bob_ratchet_key == other_bob_ratchet_key,
        alice_base_key == other_alice_base_key,
{
    let a = spec_transcript_parts(alice_identity@, ct1, ct2, bob_identity@, bob_ratchet_key@, alice_base_key@);
    let b = spec_transcript_parts(
        other_alice_identity@,
        other_ct1,
        other_ct2,
        other_bob_identity@,
        other_bob_ratchet_key@,
        other_alice_base_key@,
    );
    IdentityKey::lemma_view_len(alice_identity);
    IdentityKey::lemma_view_len(bob_identity);
    IdentityKey::lemma_view_len(other_alice_identity);
    IdentityKey::lemma_view_len(other_bob_identity);
    PublicKey::lemma_view_len(bob_ratchet_key);
    PublicKey::lemma_view_len(alice_base_key);
    PublicKey::lemma_view_len(other_bob_ratchet_key);
    PublicKey::lemma_view_len(other_alice_base_key);
    assert(forall|i: int| 0 <= i < a.len() ==> #[trigger] a[i].len() < 0x1_0000_0000);
    assert(forall|i: int| 0 <= i < b.len() ==> #[trigger] b[i].len() < 0x1_0000_0000);
    lemma_encode_parts_injective(a, b);
    assert(a[1] == b[1] && a[4] == b[4] && a[5] == b[5] && a[6] == b[6]);
    assert(alice_identity@ =~= a[1].drop_first());
    assert(other_alice_identity@ =~= b[1].drop_first());
    assert(bob_identity@ =~= a[4].drop_first());
    assert(other_bob_identity@ =~= b[4].drop_first());
    assert(bob_ratchet_key@ =~= a[5].drop_first());
    assert(other_bob_ratchet_key@ =~= b[5].drop_first());
    assert(alice_base_key@ =~= a[6].drop_first());
    assert(other_alice_base_key@ =~= b[6].drop_first());
    IdentityKey::lemma_view_injective(alice_identity, other_alice_identity);
    IdentityKey::lemma_view_injective(bob_identity, other_bob_identity);
    PublicKey::lemma_view_injective(bob_ratchet_key, other_bob_ratchet_key);
    PublicKey::lemma_view_injective(alice_base_key, other_alice_base_key);
}

/// Alice and Bob agree. When Bob's parameters are Alice's handshake seen from
/// his side (his identity and ratchet key are the ones she used, hers and her
/// base key are the ones he got, and he got exactly her ciphertexts and
/// signature, with a one-time prekey exactly when she used one), and his
/// decapsulations recover the shared secrets she encapsulated, then Bob
/// verifies her signature over exactly the transcript she signed, accepts
/// exactly when that signature verifies, and sends with the chain key that
/// Alice receives on for his ratchet key. If her identity key pair was
/// generated, her signature is one that Bob's check accepts.
pub proof fn law_alice_and_bob_agree(
    pa: AliceParametersView,
    r: AliceHandshakeRandomness,
    sa: SessionState,
    pb: BobParametersView,
)
    requires
        spec_alice_session_keys(pa, r, sa),
        pb.our_identity_key_pair.spec_identity_key() == pa.their_identity_key,
        pb.their_identity_key == pa.our_identity_key_pair.spec_identity_key(),
        pb.our_ratchet_key_pair.public_key == pa.their_ratchet_key,
        pb.their_base_key == pa.our_base_key_pair.public_key,
        sa.kyber_ciphertext matches Some(c) && pb.their_kem_ciphertext == c@,
        pb.their_one_time_kem_ciphertext == match sa.pq_one_time_ciphertext {
            Some(c) => Some(c@),
            None => None,
        },
        sa.identity_signature matches Some(sig) && pb.their_signature == sig@,
        pb.our_one_time_kem_secret_key is Some == pa.their_one_time_kem_pre_key is Some,
        spec_bob_ss1(pb) == spec_alice_encapsulation_1(pa, r).0,
        spec_bob_ss2(pb) == spec_alice_ss2(pa, r),
    ensures
        spec_bob_transcript(pb) == spec_alice_transcript(pa, r),
        spec_bob_one_time_consistent(pb),
        spec_bob_signed_decapsulation_succeeds(pb) && spec_bob_one_time_decapsulation_succeeds(pb)
            ==> (spec_bob_accepts(pb) <==> mldsa87_verify(
            pa.our_identity_key_pair.spec_identity_key()@,
            spec_alice_transcript(pa, r),
            spec_context(),
            pb.their_signature,
        )),
        forall|sb: SessionState|
            spec_bob_session_keys(pb, sb) ==> (#[trigger] sb.sender_chain matches Some(c)
                && c.chain_key.key@ == sa.receiver_chains@[0].chain_key.key@
                && c.ratchet_key_pair.public_key == sa.receiver_chains@[0].ratchet_key),
        pa.our_identity_key_pair.spec_is_generated() ==> spec_bob_signature_made_by_alice(pb),
{
    assert(spec_or_empty(pb.their_one_time_kem_ciphertext) == spec_or_empty(spec_alice_ct2(pa, r)));
    if pa.our_identity_key_pair.spec_is_generated() {
        let pair = pa.our_identity_key_pair;
        let seed = choose|seed: Seq<u8>|
            #[trigger] dsa::mldsa87_generate_key_pair(seed) == (
                pair.spec_identity_key()@,
                pair.spec_private_key()@,
            );
        assert(mldsa87_sign(
            dsa::mldsa87_generate_key_pair(seed).1,
            spec_bob_transcript(pb),
            spec_context(),
            r.signature@,
        ) == Some(pb.their_signature));
    }
}


/// The handshake secret is 32 bytes of `0xFF`, then the shared secret of the
/// signed KEM prekey, then (only after it) the one-time shared secret, if any.
pub proof fn law_secret_input_layout(ss1: Seq<u8>, ss2: Option<Seq<u8>>)
    ensures
        ({
            let ikm = spec_secret_input(ss1, ss2);
            let rest = match ss2 {
                Some(s) => s,
                None => Seq::<u8>::empty(),
            };
            &&& ikm.len() == 32 + ss1.len() as int + rest.len()
            &&& forall|i: int| 0 <= i < 32 ==> ikm[i] == 0xFFu8
            &&& ikm.subrange(32, 32 + ss1.len() as int) == ss1
            &&& ikm.subrange(32 + ss1.len() as int, ikm.len() as int) == rest
        }),
{
    let ikm = spec_secret_input(ss1, ss2);
    let rest = match ss2 {
        Some(s) => s,
        None => Seq::<u8>::empty(),
    };
    assert(ikm =~= DISCONTINUITY_BYTES@ + ss1 + rest);
    assert(ikm.subrange(32, 32 + ss1.len() as int) =~= ss1);
    assert(ikm.subrange(32 + ss1.len() as int, ikm.len() as int) =~= rest);
}

/// One step of the root-key ratchet is HKDF-SHA-256 with the old root key as
/// salt, the X25519 agreement of our private key with their public key as
/// input and `WhisperRatchet` as info.
pub proof fn law_create_chain_is_hkdf(root: Seq<u8>, their_public: Seq<u8>, our_private: Seq<u8>)
    ensures
        spec_create_chain(root, their_public, our_private) == hkdf_sha256_64(
            Some(root),
            curve::x25519_agreement(our_private, their_public),
            RATCHET_LABEL@,
        ),
{
}

/// The transcript is the length-prefixed label, Alice's serialized identity,
/// the ciphertext to Bob's signed KEM prekey, the one to his one-time KEM
/// prekey, Bob's serialized identity, his serialized ratchet key and Alice's
/// serialized base key, in this order.
pub proof fn law_handshake_transcript_layout(
    alice_identity: Seq<u8>,
    ct1: Seq<u8>,
    ct2: Seq<u8>,
    bob_identity: Seq<u8>,
    bob_ratchet_key: Seq<u8>,
    alice_base_key: Seq<u8>,
)
    ensures
        spec_handshake_transcript(alice_identity, ct1, ct2, bob_identity, bob_ratchet_key, alice_base_key)
            == spec_length_prefixed(PQXDH_TRANSCRIPT_LABEL@) + spec_length_prefixed(
            spec_serialize_key(alice_identity),
        ) + spec_length_prefixed(ct1) + spec_length_prefixed(ct2) + spec_length_prefixed(
            spec_serialize_key(bob_identity),
        ) + spec_length_prefixed(spec_serialize_public(bob_ratchet_key)) + spec_length_prefixed(
            spec_serialize_public(alice_base_key),
        ),
{
    let parts = spec_transcript_parts(alice_identity, ct1, ct2, bob_identity, bob_ratchet_key, alice_base_key);
    assert(parts.take(7) =~= parts);
    lemma_encode_parts_push(parts, 0);
    lemma_encode_parts_push(parts, 1);
    lemma_encode_parts_push(parts, 2);
    lemma_encode_parts_push(parts, 3);
    lemma_encode_parts_push(parts, 4);
    lemma_encode_parts_push(parts, 5);
    lemma_encode_parts_push(parts, 6);
    assert(parts.take(0) =~= Seq::<Seq<u8>>::empty());
    assert(spec_encode_parts(parts.take(0)) =~= Seq::<u8>::empty());
    assert(spec_encode_parts(parts) =~= spec_length_prefixed(parts[0]) + spec_length_prefixed(parts[1])
        + spec_length_prefixed(parts[2]) + spec_length_prefixed(parts[3]) + spec_length_prefixed(parts[4])
        + spec_length_prefixed(parts[5]) + spec_length_prefixed(parts[6]));
}

/// Bob's session keys come from the handshake secret `0xFF*32 || ss1 || ss2`,
/// where `ss1` is what his signed KEM secret key recovers from the first
/// ciphertext and `ss2` what his one-time KEM secret key recovers from the
/// one-time ciphertext (nothing without them): HKDF-SHA-256 with no salt and
/// the PQXDH label gives his root key (first half) and the chain key he sends
/// on with his signed ratchet key pair (second half).
pub proof fn law_bob_keys_from_primitives(p: BobParametersView, s: SessionState)
    requires
        spec_bob_session_keys(p, s),
    ensures
        ({
            let ss1 = kem::spec_decapsulate(
                p.our_signed_kem_secret_key.0,
                p.our_signed_kem_secret_key.1,
                p.their_kem_ciphertext.drop_first(),
            );
            let ss2 = match (p.our_one_time_kem_secret_key, p.their_one_time_kem_ciphertext) {
                (Some(k), Some(c)) => kem::spec_decapsulate(k.0, k.1, c.drop_first()),
                _ => Seq::<u8>::empty(),
            };
            let h = hkdf_sha256_64(None, Seq::new(32, |_i: int| 0xFFu8) + ss1 + ss2, PQXDH_LABEL@);
            &&& s.root_key.key@ == h.subrange(0, 32)
            &&& s.sender_chain matches Some(c) && c.chain_key.key@ == h.subrange(32, 64)
                && c.ratchet_key_pair == p.our_ratchet_key_pair
        }),
{
    let ss1 = spec_bob_ss1(p);
    let ss2 = spec_bob_ss2(p);
    let rest = match ss2 {
        Some(x) => x,
        None => Seq::<u8>::empty(),
    };
    assert(DISCONTINUITY_BYTES@ =~= Seq::new(32, |_i: int| 0xFFu8));
    assert(spec_secret_input(ss1, ss2) =~= Seq::new(32, |_i: int| 0xFFu8) + ss1 + rest);
}

/// Alice's session keys: the handshake secret is `0xFF*32 || ss1 || ss2`, with
/// `ss1` from her encapsulation to Bob's signed KEM prekey (with the signed
/// message and salt) and `ss2` from the one to his one-time KEM prekey if he
/// offered one. HKDF-SHA-256 (no salt, PQXDH label) gives the handshake root
/// key and the chain key she receives on for Bob's ratchet key. One root-key
/// ratchet step (HKDF-SHA-256 salted with that root key, over the X25519
/// agreement of her sending ratchet private key with Bob's ratchet key, info
/// `WhisperRatchet`) gives her root key (first half) and sending chain key
/// (second half). She keeps the signed ciphertext first and the one-time
/// ciphertext second, and her signature signs the transcript with them in
/// that order.
pub proof fn law_alice_keys_from_primitives(p: AliceParametersView, r: AliceHandshakeRandomness, s: SessionState)
    requires
        spec_alice_session_keys(p, r, s),
    ensures
        ({
            let e1 = kem::spec_encapsulate(
                p.their_signed_kem_pre_key.0,
                p.their_signed_kem_pre_key.1,
                r.signed_kem_message@,
                r.signed_kem_salt@,
            );
            let e2 = match p.their_one_time_kem_pre_key {
                Some(k) => Some(
                    kem::spec_encapsulate(k.0, k.1, r.one_time_kem_message@, r.one_time_kem_salt@),
                ),
                None => None,
            };
            let ss2 = match e2 {
                Some(e) => e.0,
                None => Seq::<u8>::empty(),
            };
            let ct2 = match e2 {
                Some(e) => e.1,
                None => Seq::<u8>::empty(),
            };
            let h = hkdf_sha256_64(None, Seq::new(32, |_i: int| 0xFFu8) + e1.0 + ss2, PQXDH_LABEL@);
            let step = hkdf_sha256_64(
                Some(h.subrange(0, 32)),
                curve::x25519_agreement(r.sending_ratchet_key@, p.their_ratchet_key@),
                RATCHET_LABEL@,
            );
            &&& s.receiver_chains@.len() == 1
            &&& s.receiver_chains@[0].ratchet_key == p.their_ratchet_key
            &&& s.receiver_chains@[0].chain_key.key@ == h.subrange(32, 64)
            &&& s.root_key.key@ == step.subrange(0, 32)
            &&& s.sender_chain matches Some(c) && c.chain_key.key@ == step.subrange(32, 64)
                && c.ratchet_key_pair.private_key@ == r.sending_ratchet_key@
            &&& s.kyber_ciphertext matches Some(c) && c@ == e1.1
            &&& match e2 {
                Some(e) => s.pq_one_time_ciphertext matches Some(c) && c@ == e.1,
                None => s.pq_one_time_ciphertext is None,
            }
            &&& s.identity_signature matches Some(sig) && mldsa87_sign(
                p.our_identity_key_pair.spec_private_key()@,
                spec_handshake_transcript(
                    p.our_identity_key_pair.spec_identity_key()@,
                    e1.1,
                    ct2,
                    p.their_identity_key@,
                    p.their_ratchet_key@,
                    p.our_base_key_pair.public_key@,
                ),
                CONTEXT_BYTES@,
                r.signature@,
            ) == Some(sig@)
        }),
{
    let e1 = spec_alice_encapsulation_1(p, r);
    let ss2 = spec_alice_ss2(p, r);
    let rest = match ss2 {
        Some(x) => x,
        None => Seq::<u8>::empty(),
    };
    assert(DISCONTINUITY_BYTES@ =~= Seq::new(32, |_i: int| 0xFFu8));
    assert(spec_secret_input(e1.0, ss2) =~= Seq::new(32, |_i: int| 0xFFu8) + e1.0 + rest);
    dsa::law_context_is_the_signal_pqxdh_string();
}

/// Bob checks Alice's signature over the transcript whose ciphertext parts are
/// the one his signed KEM secret key decapsulates first and the one-time
/// ciphertext (empty without one) second, with Alice's identity first and his
/// own identity and signed ratchet key after them, and her base key last.
pub proof fn law_bob_checks_the_documented_transcript(p: BobParametersView)
    ensures
        spec_bob_signature_valid(p) <==> (p.their_signature.len() == SIGNATURE_LENGTH
            && mldsa87_verify(
            p.their_identity_key@,
            spec_handshake_transcript(
                p.their_identity_key@,
                p.their_kem_ciphertext,
                match p.their_one_time_kem_ciphertext {
                    Some(c) => c,
                    None => Seq::<u8>::empty(),
                },
                p.our_identity_key_pair.spec_identity_key()@,
                p.our_ratchet_key_pair.public_key@,
                p.their_base_key@,
            ),
            CONTEXT_BYTES@,
            p.their_signature,
        )),
{
    dsa::law_context_is_the_signal_pqxdh_string();
}

/// The HKDF labels are the ASCII bytes of `PQXDH_MLKEM1024_MLDSA87_SHA-256`
/// (handshake secret), `PQXDH_MLKEM1024_MLDSA87_transcript` (transcript) and
/// `WhisperRatchet` (root-key ratchet step).
pub proof fn law_labels_are_the_documented_strings()
    ensures
        PQXDH_LABEL@.len() == 31,
        forall|i: int|
            0 <= i < 31 ==> PQXDH_LABEL@[i] as char == #[trigger] "PQXDH_MLKEM1024_MLDSA87_SHA-256"@[i],
        PQXDH_TRANSCRIPT_LABEL@.len() == 34,
        forall|i: int|
            0 <= i < 34 ==> PQXDH_TRANSCRIPT_LABEL@[i] as char
                == #[trigger] "PQXDH_MLKEM1024_MLDSA87_transcript"@[i],
        RATCHET_LABEL@.len() == 14,
        forall|i: int| 0 <= i < 14 ==> RATCHET_LABEL@[i] as char == #[trigger] "WhisperRatchet"@[i],
{
    reveal_strlit("PQXDH_MLKEM1024_MLDSA87_SHA-256");
    reveal_strlit("PQXDH_MLKEM1024_MLDSA87_transcript");
    reveal_strlit("WhisperRatchet");
}

} // verus!
