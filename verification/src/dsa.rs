//! ML-DSA-87 (FIPS 204) signatures for post-quantum identity keys.
//!
//! The identity key is an ML-DSA-87 signing key pair. It performs no key
//! agreement: it signs prekeys (Bob) and the handshake transcript (Alice).
//! Serialized keys carry a single type byte in front of the raw key.

use libcrux_ml_dsa::ml_dsa_87;
use subtle::ConstantTimeEq;
use vstd::prelude::*;

use crate::error::{Result, SignalProtocolError};

verus! {

/// Length in bytes of a raw ML-DSA-87 verification (public) key.
pub const PUBLIC_KEY_LENGTH: usize = 2592;
/// Length in bytes of a raw ML-DSA-87 signing (secret) key.
pub const SECRET_KEY_LENGTH: usize = 4896;
/// Length in bytes of an ML-DSA-87 signature.
pub const SIGNATURE_LENGTH: usize = 4627;
/// Length in bytes of the randomness consumed by key generation and by signing.
pub const RANDOMNESS_LENGTH: usize = 32;

/// Type-prefix byte identifying an ML-DSA-87 key in serialized form.
pub const ML_DSA_87_TYPE: u8 = 0x09;

/// Domain-separation context passed to every ML-DSA operation of this crate.
pub const CONTEXT_BYTES: [u8; 20] = [
    0x53, 0x69, 0x67, 0x6e, 0x61, 0x6c, 0x5f, 0x50, 0x51, 0x58,
    0x44, 0x48, 0x5f, 0x4d, 0x4c, 0x44, 0x53, 0x41, 0x38, 0x37,
];

/// The context string `Signal_PQXDH_MLDSA87` as a byte sequence.
pub open spec fn spec_context() -> Seq<u8> {
    seq![
        0x53u8, 0x69, 0x67, 0x6e, 0x61, 0x6c, 0x5f, 0x50, 0x51, 0x58,
        0x44, 0x48, 0x5f, 0x4d, 0x4c, 0x44, 0x53, 0x41, 0x38, 0x37,
    ]
}

/// The context string of every signature is the 20 bytes of
/// `Signal_PQXDH_MLDSA87`, which are `CONTEXT_BYTES`.
pub proof fn law_context_is_the_signal_pqxdh_string()
    ensures
        spec_context() == CONTEXT_BYTES@,
        spec_context().len() == 20,
        forall|i: int| 0 <= i < 20 ==> spec_context()[i] as char == #[trigger] "Signal_PQXDH_MLDSA87"@[i],
{
    reveal_strlit("Signal_PQXDH_MLDSA87");
    assert(spec_context() =~= CONTEXT_BYTES@);
}

/// Whether `signature` is a valid ML-DSA-87 signature of `message` under
/// `verification_key` and `context`, as `libcrux_ml_dsa::ml_dsa_87::verify` decides.
pub uninterp spec fn mldsa87_verify(
    verification_key: Seq<u8>,
    message: Seq<u8>,
    context: Seq<u8>,
    signature: Seq<u8>,
) -> bool;

/// The signature that `libcrux_ml_dsa::ml_dsa_87::sign` computes from its inputs,
/// or `None` where it reports an error.
pub uninterp spec fn mldsa87_sign(
    signing_key: Seq<u8>,
    message: Seq<u8>,
    context: Seq<u8>,
    randomness: Seq<u8>,
) -> Option<Seq<u8>>;

/// The (verification key, signing key) pair that
/// `libcrux_ml_dsa::ml_dsa_87::generate_key_pair` derives from its randomness.
pub uninterp spec fn mldsa87_generate_key_pair(randomness: Seq<u8>) -> (Seq<u8>, Seq<u8>);

/// Whether `signature` is one that the key pair generated from some randomness,
/// with verification key `verification_key`, made over `message` and `context`.
pub open spec fn spec_made_by_generated_pair(
    verification_key: Seq<u8>,
    message: Seq<u8>,
    context: Seq<u8>,
    signature: Seq<u8>,
) -> bool {
    exists|seed: Seq<u8>, randomness: Seq<u8>|
        mldsa87_generate_key_pair(seed).0 == verification_key && #[trigger] mldsa87_sign(
            mldsa87_generate_key_pair(seed).1,
            message,
            context,
            randomness,
        ) == Some(signature)
}

/// Calls `libcrux_ml_dsa::ml_dsa_87::verify` and reports whether it returned `Ok`.
/// ML-DSA is correct (FIPS 204; the crate's documentation asserts it in its
/// example): a signature that `sign` made with a generated key pair verifies
/// under that pair's verification key, for the same message and context.
#[verifier::external_body]
fn ml_dsa_87_verify(
    verification_key: &[u8; PUBLIC_KEY_LENGTH],
    message: &[u8],
    context: &[u8],
    signature: &[u8; SIGNATURE_LENGTH],
) -> (ok: bool)
    ensures
        ok == mldsa87_verify(verification_key@, message@, context@, signature@),
        spec_made_by_generated_pair(verification_key@, message@, context@, signature@) ==> ok,
{
    let key = ml_dsa_87::MLDSA87VerificationKey::new(*verification_key);
    let sig = ml_dsa_87::MLDSA87Signature::new(*signature);
    ml_dsa_87::verify(&key, message, context, &sig).is_ok()
}

/// Calls `libcrux_ml_dsa::ml_dsa_87::sign`; the signature is a fixed-size array of
/// `SIGNATURE_LENGTH` bytes, returned here as a vector.
#[verifier::external_body]
fn ml_dsa_87_sign(
    signing_key: &[u8; SECRET_KEY_LENGTH],
    message: &[u8],
    context: &[u8],
    randomness: [u8; RANDOMNESS_LENGTH],
) -> (res: Option<Vec<u8>>)
    ensures
        match res {
            Some(sig) => mldsa87_sign(signing_key@, message@, context@, randomness@) == Some(sig@)
                && sig@.len() == SIGNATURE_LENGTH,
            None => mldsa87_sign(signing_key@, message@, context@, randomness@) is None,
        },
{
    let key = ml_dsa_87::MLDSA87SigningKey::new(*signing_key);
    match ml_dsa_87::sign(&key, message, context, randomness) {
        Ok(sig) => Some(sig.as_slice().to_vec()),
        Err(_) => None,
    }
}

/// Calls `libcrux_ml_dsa::ml_dsa_87::generate_key_pair`; both keys are fixed-size arrays.
#[verifier::external_body]
fn ml_dsa_87_generate_key_pair(randomness: [u8; RANDOMNESS_LENGTH]) -> (res: (
    [u8; PUBLIC_KEY_LENGTH],
    [u8; SECRET_KEY_LENGTH],
))
    ensures
        mldsa87_generate_key_pair(randomness@) == (res.0@, res.1@),
{
    let pair = ml_dsa_87::generate_key_pair(randomness);
    (*pair.verification_key.as_ref(), *pair.signing_key.as_ref())
}

/// Calls `subtle`'s `ConstantTimeEq::ct_eq` on two byte slices, which is true
/// exactly when they have the same length and the same bytes.
#[verifier::external_body]
pub(crate) fn ct_eq_bytes(a: &[u8], b: &[u8]) -> (eq: bool)
    ensures
        eq == (a@ == b@),
{
    bool::from(a.ct_eq(b))
}

/// The decimal digit character of `d`, for `d < 10`.
pub open spec fn spec_digit(d: nat) -> char {
    ('0' as int + d) as char
}

/// The decimal form of `n`, most significant digit first, without leading zeros.
pub open spec fn spec_decimal(n: nat) -> Seq<char>
    decreases n,
{
    if n < 10 {
        seq![spec_digit(n)]
    } else {
        spec_decimal(n / 10) + seq![spec_digit(n % 10)]
    }
}

/// The lowercase hexadecimal digit character of `d`, for `d < 16`.
pub open spec fn spec_hex_digit(d: u8) -> char {
    if d < 10 {
        ('0' as int + d) as char
    } else {
        ('a' as int + d - 10) as char
    }
}

/// The lowercase hexadecimal form of `bytes`: two digits per byte, high nibble first.
pub open spec fn spec_hex(bytes: Seq<u8>) -> Seq<char>
    decreases bytes.len(),
{
    if bytes.len() == 0 {
        Seq::empty()
    } else {
        seq![spec_hex_digit(bytes[0] / 16), spec_hex_digit(bytes[0] % 16)] + spec_hex(
            bytes.drop_first(),
        )
    }
}

/// The one-character string of the decimal digit `d`.
fn digit_str(d: u8) -> (s: &'static str)
    requires
        d < 10,
    ensures
        s@ == seq![spec_digit(d as nat)],
{
    match d {
        0 => {
            proof {
                reveal_strlit("0");
            }
            "0"
        },
        1 => {
            proof {
                reveal_strlit("1");
            }
            "1"
        },
        2 => {
            proof {
                reveal_strlit("2");
            }
            "2"
        },
        3 => {
            proof {
                reveal_strlit("3");
            }
            "3"
        },
        4 => {
            proof {
                reveal_strlit("4");
            }
            "4"
        },
        5 => {
            proof {
                reveal_strlit("5");
            }
            "5"
        },
        6 => {
            proof {
                reveal_strlit("6");
            }
            "6"
        },
        7 => {
            proof {
                reveal_strlit("7");
            }
            "7"
        },
        8 => {
            proof {
                reveal_strlit("8");
            }
            "8"
        },
        _ => {
            proof {
                reveal_strlit("9");
            }
            "9"
        },
    }
}

/// The decimal form of `n`.
fn decimal_string(n: usize) -> (s: String)
    ensures
        s@ == spec_decimal(n as nat),
{
    let mut s = String::from_str(digit_str((n % 10) as u8));
    let mut m: usize = n / 10;
    while m > 0
        invariant
            spec_decimal(n as nat) == if m == 0 {
                s@
            } else {
                spec_decimal(m as nat) + s@
            },
        decreases m,
    {
        let head = String::from_str(digit_str((m % 10) as u8));
        let ghost tail = s@;
        s = head.concat(s.as_str());
        proof {
            if m >= 10 {
                assert(spec_decimal(m as nat) == spec_decimal((m / 10) as nat) + seq![
                    spec_digit((m % 10) as nat),
                ]);
                assert(spec_decimal((m / 10) as nat) + s@ =~= spec_decimal((m / 10) as nat) + seq![
                    spec_digit((m % 10) as nat),
                ] + tail);
            } else {
                assert(s@ =~= seq![spec_digit((m % 10) as nat)] + tail);
            }
        }
        m = m / 10;
    }
    s
}

/// Calls `hex::encode`, which writes each byte as two lowercase hexadecimal
/// digits, high nibble first.
#[verifier::external_body]
fn hex_encode(bytes: &[u8]) -> (s: String)
    ensures
        s@ == spec_hex(bytes@),
{
    hex::encode(bytes)
}

/// The message of the error for a `kind` key of the wrong length `len`.
pub open spec fn spec_bad_length_text(kind: Seq<char>, len: nat) -> Seq<char> {
    "bad ML-DSA-87 "@ + kind + " key length "@ + spec_decimal(len)
}

/// Formats the length error of a deserialized key.
fn bad_length_message(kind: &str, len: usize) -> (s: String)
    ensures
        s@ == spec_bad_length_text(kind@, len as nat),
{
    let digits = decimal_string(len);
    String::from_str("bad ML-DSA-87 ").concat(kind).concat(" key length ").concat(digits.as_str())
}

/// Whether `e` is the error reported when ML-DSA-87 signing fails.
pub open spec fn spec_signing_failed(e: SignalProtocolError) -> bool {
    e matches SignalProtocolError::InvalidArgument(m) && m@ == "ML-DSA-87 signing failed"@
}

/// The serialized form of a raw key: its type byte, then the key bytes.
pub open spec fn spec_serialize_key(key: Seq<u8>) -> Seq<u8> {
    seq![ML_DSA_87_TYPE] + key
}

/// The concatenation of the parts of a multipart message.
pub open spec fn spec_flatten(parts: Seq<Seq<u8>>) -> Seq<u8>
    decreases parts.len(),
{
    if parts.len() == 0 {
        Seq::empty()
    } else {
        spec_flatten(parts.drop_last()) + parts.last()
    }
}

/// The byte sequences of a list of borrowed slices.
pub open spec fn spec_parts(parts: Seq<&[u8]>) -> Seq<Seq<u8>> {
    parts.map_values(|p: &[u8]| p@)
}

/// A message of one part flattens to that part.
proof fn lemma_flatten_single(parts: Seq<&[u8]>, part: &[u8])
    requires
        parts.len() == 1,
        parts[0] == part,
    ensures
        spec_flatten(spec_parts(parts)) == part@,
{
    let ps = spec_parts(parts);
    assert(ps.drop_last() =~= Seq::<Seq<u8>>::empty());
    assert(spec_flatten(ps.drop_last()) =~= Seq::<u8>::empty());
    assert(spec_flatten(ps) =~= part@);
}

/// Concatenate the parts of a multipart message into one buffer.
pub fn flatten(message: &[&[u8]]) -> (out: Vec<u8>)
    ensures
        out@ == spec_flatten(spec_parts(message@)),
{
    let mut out: Vec<u8> = Vec::new();
    let mut i: usize = 0;
    while i < message.len()
        invariant
            i <= message@.len(),
            out@ == spec_flatten(spec_parts(message@).take(i as int)),
        decreases message@.len() - i,
    {
        let part: &[u8] = message[i];
        out.extend_from_slice(part);
        proof {
            let parts = spec_parts(message@);
            assert(parts.take(i + 1).drop_last() =~= parts.take(i as int));
            assert(parts.take(i + 1).last() == part@);
            assert(out@ =~= spec_flatten(parts.take(i as int)) + part@);
        }
        i = i + 1;
    }
    proof {
        assert(spec_parts(message@).take(message@.len() as int) =~= spec_parts(message@));
    }
    out
}

/// Copy a slice of exactly `N` bytes into an array.
fn copy_to_array<const N: usize>(s: &[u8]) -> (out: [u8; N])
    requires
        s@.len() == N,
    ensures
        out@ == s@,
{
    let mut out = [0u8; N];
    let mut i: usize = 0;
    while i < N
        invariant
            s@.len() == N,
            i <= N,
            out@.len() == N,
            forall|j: int| 0 <= j < i ==> out@[j] == s@[j],
        decreases N - i,
    {
        out[i] = s[i];
        i = i + 1;
    }
    assert(out@ =~= s@);
    out
}

/// Serialize a raw key with the ML-DSA-87 type byte.
fn serialize_key(key: &[u8]) -> (out: Vec<u8>)
    ensures
        out@ == spec_serialize_key(key@),
{
    let mut out: Vec<u8> = Vec::new();
    out.push(ML_DSA_87_TYPE);
    out.extend_from_slice(key);
    assert(out@ =~= spec_serialize_key(key@));
    out
}

/// Whether `value` is the serialized form of some raw key of `len` bytes.
pub open spec fn spec_well_formed_key(value: Seq<u8>, len: nat) -> bool {
    value.len() == len + 1 && value[0] == ML_DSA_87_TYPE
}

/// The error that deserializing a malformed `value` as a `kind` key of `len`
/// bytes reports: no type byte, a wrong type byte, or a wrong length.
pub open spec fn spec_key_error(value: Seq<u8>, len: nat, kind: Seq<char>, e: SignalProtocolError) -> bool {
    if value.len() == 0 {
        e == SignalProtocolError::NoKeyTypeIdentifier
    } else if value[0] != ML_DSA_87_TYPE {
        e == SignalProtocolError::BadKeyType(value[0])
    } else {
        e matches SignalProtocolError::InvalidArgument(m) && m@ == spec_bad_length_text(
            kind,
            (value.len() - 1) as nat,
        )
    }
}

/// An ML-DSA-87 verification (public) key. Keys are ordered by their bytes.
#[derive(Clone, Copy, PartialOrd, Ord)]
pub struct PublicKey {
    data: [u8; PUBLIC_KEY_LENGTH],
}

impl View for PublicKey {
    type V = Seq<u8>;

    closed spec fn view(&self) -> Seq<u8> {
        self.data@
    }
}

impl PublicKey {
    /// Every verification key holds exactly `PUBLIC_KEY_LENGTH` bytes.
    pub broadcast proof fn lemma_view_len(key: PublicKey)
        ensures
            #[trigger] key@.len() == PUBLIC_KEY_LENGTH,
    {
    }

    /// Two verification keys with the same bytes are the same key.
    pub broadcast proof fn lemma_view_injective(a: PublicKey, b: PublicKey)
        ensures
            #[trigger] a@ == #[trigger] b@ ==> a == b,
    {
        if a@ == b@ {
            assert(a.data =~= b.data);
        }
    }

    /// Deserialize a verification key from its type-prefixed byte representation.
    pub fn deserialize(value: &[u8]) -> (res: Result<Self>)
        ensures
            res is Ok <==> spec_well_formed_key(value@, PUBLIC_KEY_LENGTH as nat),
            res matches Ok(k) ==> value@ == spec_serialize_key(k@),
            res matches Err(e) ==> spec_key_error(value@, PUBLIC_KEY_LENGTH as nat, "public"@, e),
    {
        if value.len() == 0 {
            return Err(SignalProtocolError::NoKeyTypeIdentifier);
        }
        let type_byte = value[0];
        if type_byte != ML_DSA_87_TYPE {
            return Err(SignalProtocolError::BadKeyType(type_byte));
        }
        let key_bytes = &value[1..value.len()];
        if key_bytes.len() != PUBLIC_KEY_LENGTH {
            return Err(
                SignalProtocolError::InvalidArgument(bad_length_message("public", key_bytes.len())),
            );
        }
        let data: [u8; PUBLIC_KEY_LENGTH] = copy_to_array(key_bytes);
        let key = PublicKey { data };
        assert(value@ =~= spec_serialize_key(key@));
        Ok(key)
    }

    /// The same as [`PublicKey::deserialize`].
    pub fn try_from(value: &[u8]) -> (res: Result<Self>)
        ensures
            res is Ok <==> spec_well_formed_key(value@, PUBLIC_KEY_LENGTH as nat),
            res matches Ok(k) ==> value@ == spec_serialize_key(k@),
            res matches Err(e) ==> spec_key_error(value@, PUBLIC_KEY_LENGTH as nat, "public"@, e),
    {
        Self::deserialize(value)
    }

    /// Serialize the verification key with its type-prefix byte.
    pub fn serialize(&self) -> (out: Vec<u8>)
        ensures
            out@ == spec_serialize_key(self@),
            out@.len() == PUBLIC_KEY_LENGTH + 1,
    {
        serialize_key(&self.data)
    }

    /// Verify an ML-DSA-87 `signature` over a single-part `message`. A signature
    /// that a generated key pair made verifies under its public key.
    pub fn verify_signature(&self, message: &[u8], signature: &[u8]) -> (ok: bool)
        ensures
            ok == (signature@.len() == SIGNATURE_LENGTH && mldsa87_verify(
                self@,
                message@,
                spec_context(),
                signature@,
            )),
            signature@.len() == SIGNATURE_LENGTH && spec_made_by_generated_pair(
                self@,
                message@,
                spec_context(),
                signature@,
            ) ==> ok,
    {
        let parts: [&[u8]; 1] = [message];
        let ok = self.verify_signature_for_multipart_message(&parts, signature);
        proof {
            lemma_flatten_single(parts@, message);
        }
        ok
    }

    /// Verify an ML-DSA-87 `signature` over the concatenation of `message` parts.
    pub fn verify_signature_for_multipart_message(
        &self,
        message: &[&[u8]],
        signature: &[u8],
    ) -> (ok: bool)
        ensures
            ok == (signature@.len() == SIGNATURE_LENGTH && mldsa87_verify(
                self@,
                spec_flatten(spec_parts(message@)),
                spec_context(),
                signature@,
            )),
            signature@.len() == SIGNATURE_LENGTH && spec_made_by_generated_pair(
                self@,
                spec_flatten(spec_parts(message@)),
                spec_context(),
                signature@,
            ) ==> ok,
    {
        if signature.len() != SIGNATURE_LENGTH {
            return false;
        }
        let sig: [u8; SIGNATURE_LENGTH] = copy_to_array(signature);
        let flat = flatten(message);
        let context: &[u8] = &CONTEXT_BYTES;
        assert(context@ =~= spec_context());
        ml_dsa_87_verify(&self.data, flat.as_slice(), context, &sig)
    }

    /// Constant-time comparison of the key bytes.
    pub fn ct_eq(&self, other: &PublicKey) -> (eq: bool)
        ensures
            eq == (self@ == other@),
    {
        ct_eq_bytes(&self.data, &other.data)
    }

    /// A short description of the key for logs: its type and its first eight
    /// bytes in hexadecimal.
    pub fn debug_string(&self) -> (s: String)
        ensures
            s@ == "ML-DSA-87 PublicKey { "@ + spec_hex(self@.subrange(0, 8)) + " }"@,
    {
        let mut head: Vec<u8> = Vec::new();
        let mut i: usize = 0;
        while i < 8
            invariant
                i <= 8,
                head@ == self.data@.subrange(0, i as int),
            decreases 8 - i,
        {
            head.push(self.data[i]);
            i += 1;
            assert(head@ =~= self.data@.subrange(0, i as int));
        }
        let digits = hex_encode(head.as_slice());
        String::from_str("ML-DSA-87 PublicKey { ").concat(digits.as_str()).concat(" }")
    }
}

impl PartialEq for PublicKey {
    fn eq(&self, other: &Self) -> (eq: bool) {
        self.ct_eq(other)
    }
}

impl vstd::std_specs::cmp::PartialEqSpecImpl for PublicKey {
    open spec fn obeys_eq_spec() -> bool {
        true
    }

    open spec fn eq_spec(&self, other: &Self) -> bool {
        self@ == other@
    }
}

impl Eq for PublicKey {}

/// An ML-DSA-87 signing (secret) key.
#[derive(Clone, Copy)]
pub struct SecretKey {
    data: [u8; SECRET_KEY_LENGTH],
}

impl View for SecretKey {
    type V = Seq<u8>;

    closed spec fn view(&self) -> Seq<u8> {
        self.data@
    }
}

impl SecretKey {
    /// Every signing key holds exactly `SECRET_KEY_LENGTH` bytes.
    pub broadcast proof fn lemma_view_len(key: SecretKey)
        ensures
            #[trigger] key@.len() == SECRET_KEY_LENGTH,
    {
    }

    /// Two signing keys with the same bytes are the same key.
    pub broadcast proof fn lemma_view_injective(a: SecretKey, b: SecretKey)
        ensures
            #[trigger] a@ == #[trigger] b@ ==> a == b,
    {
        if a@ == b@ {
            assert(a.data =~= b.data);
        }
    }

    /// Deserialize a signing key from its type-prefixed byte representation.
    pub fn deserialize(value: &[u8]) -> (res: Result<Self>)
        ensures
            res is Ok <==> spec_well_formed_key(value@, SECRET_KEY_LENGTH as nat),
            res matches Ok(k) ==> value@ == spec_serialize_key(k@),
            res matches Err(e) ==> spec_key_error(value@, SECRET_KEY_LENGTH as nat, "secret"@, e),
    {
        if value.len() == 0 {
            return Err(SignalProtocolError::NoKeyTypeIdentifier);
        }
        let type_byte = value[0];
        if type_byte != ML_DSA_87_TYPE {
            return Err(SignalProtocolError::BadKeyType(type_byte));
        }
        let key_bytes = &value[1..value.len()];
        if key_bytes.len() != SECRET_KEY_LENGTH {
            return Err(
                SignalProtocolError::InvalidArgument(bad_length_message("secret", key_bytes.len())),
            );
        }
        let data: [u8; SECRET_KEY_LENGTH] = copy_to_array(key_bytes);
        let key = SecretKey { data };
        assert(value@ =~= spec_serialize_key(key@));
        Ok(key)
    }

    /// The same as [`SecretKey::deserialize`].
    pub fn try_from(value: &[u8]) -> (res: Result<Self>)
        ensures
            res is Ok <==> spec_well_formed_key(value@, SECRET_KEY_LENGTH as nat),
            res matches Ok(k) ==> value@ == spec_serialize_key(k@),
            res matches Err(e) ==> spec_key_error(value@, SECRET_KEY_LENGTH as nat, "secret"@, e),
    {
        Self::deserialize(value)
    }

    /// Serialize the signing key with its type-prefix byte.
    pub fn serialize(&self) -> (out: Vec<u8>)
        ensures
            out@ == spec_serialize_key(self@),
            out@.len() == SECRET_KEY_LENGTH + 1,
    {
        serialize_key(&self.data)
    }

    /// A description of the key for logs, which shows none of its bytes.
    pub fn debug_string(&self) -> (s: String)
        ensures
            s@ == "ML-DSA-87 SecretKey { <redacted> }"@,
    {
        String::from_str("ML-DSA-87 SecretKey { <redacted> }")
    }

    /// Produce an ML-DSA-87 signature over a single-part `message`, using
    /// `randomness` as the signing randomness.
    pub fn calculate_signature(&self, message: &[u8], randomness: [u8; RANDOMNESS_LENGTH]) -> (res:
        Result<Vec<u8>>)
        ensures
            match res {
                Ok(sig) => mldsa87_sign(self@, message@, spec_context(), randomness@) == Some(sig@)
                    && sig@.len() == SIGNATURE_LENGTH,
                Err(e) => mldsa87_sign(self@, message@, spec_context(), randomness@) is None
                    && spec_signing_failed(e),
            },
    {
        let parts: [&[u8]; 1] = [message];
        let res = self.calculate_signature_for_multipart_message(&parts, randomness);
        proof {
            lemma_flatten_single(parts@, message);
        }
        res
    }

    /// Produce an ML-DSA-87 signature over the concatenation of `message` parts.
    pub fn calculate_signature_for_multipart_message(
        &self,
        message: &[&[u8]],
        randomness: [u8; RANDOMNESS_LENGTH],
    ) -> (res: Result<Vec<u8>>)
        ensures
            match res {
                Ok(sig) => mldsa87_sign(
                    self@,
                    spec_flatten(spec_parts(message@)),
                    spec_context(),
                    randomness@,
                ) == Some(sig@) && sig@.len() == SIGNATURE_LENGTH,
                Err(e) => mldsa87_sign(
                    self@,
                    spec_flatten(spec_parts(message@)),
                    spec_context(),
                    randomness@,
                ) is None && spec_signing_failed(e),
            },
    {
        let flat = flatten(message);
        let context: &[u8] = &CONTEXT_BYTES;
        assert(context@ =~= spec_context());
        match ml_dsa_87_sign(&self.data, flat.as_slice(), context, randomness) {
            Some(sig) => Ok(sig),
            None => Err(SignalProtocolError::InvalidArgument(String::from_str("ML-DSA-87 signing failed"))),
        }
    }
}

/// An ML-DSA-87 signing key pair.
#[derive(Clone, Copy)]
pub struct KeyPair {
    pub public_key: PublicKey,
    pub secret_key: SecretKey,
}

impl KeyPair {
    /// Generate an ML-DSA-87 key pair from 32 bytes of randomness.
    pub fn generate(randomness: [u8; RANDOMNESS_LENGTH]) -> (pair: Self)
        ensures
            mldsa87_generate_key_pair(randomness@) == (pair.public_key@, pair.secret_key@),
    {
        let (public_data, secret_data) = ml_dsa_87_generate_key_pair(randomness);
        KeyPair {
            public_key: PublicKey { data: public_data },
            secret_key: SecretKey { data: secret_data },
        }
    }

    /// Reconstruct a key pair from serialized public and secret keys.
    pub fn from_public_and_private(public_key: &[u8], secret_key: &[u8]) -> (res: Result<Self>)
        ensures
            res is Ok <==> (spec_well_formed_key(public_key@, PUBLIC_KEY_LENGTH as nat)
                && spec_well_formed_key(secret_key@, SECRET_KEY_LENGTH as nat)),
            res matches Ok(pair) ==> public_key@ == spec_serialize_key(pair.public_key@)
                && secret_key@ == spec_serialize_key(pair.secret_key@),
            res matches Err(e) ==> if !spec_well_formed_key(public_key@, PUBLIC_KEY_LENGTH as nat) {
                spec_key_error(public_key@, PUBLIC_KEY_LENGTH as nat, "public"@, e)
            } else {
                spec_key_error(secret_key@, SECRET_KEY_LENGTH as nat, "secret"@, e)
            },
    {
        let public = PublicKey::deserialize(public_key)?;
        let secret = SecretKey::deserialize(secret_key)?;
        Ok(KeyPair { public_key: public, secret_key: secret })
    }
}

/// Deserializing a serialized verification key accepts it and gives back the same key.
pub proof fn law_public_key_serialization_round_trip(key: PublicKey)
    ensures
        spec_well_formed_key(spec_serialize_key(key@), PUBLIC_KEY_LENGTH as nat),
        forall|other: PublicKey|
            spec_serialize_key(#[trigger] other@) == spec_serialize_key(key@) ==> other == key,
{
    assert forall|other: PublicKey|
        spec_serialize_key(#[trigger] other@) == spec_serialize_key(key@) implies other == key by {
        assert(other@ =~= spec_serialize_key(other@).drop_first());
        assert(key@ =~= spec_serialize_key(key@).drop_first());
        PublicKey::lemma_view_injective(other, key);
    }
}

/// Deserializing a serialized signing key accepts it and gives back the same key.
pub proof fn law_secret_key_serialization_round_trip(key: SecretKey)
    ensures
        spec_well_formed_key(spec_serialize_key(key@), SECRET_KEY_LENGTH as nat),
        forall|other: SecretKey|
            spec_serialize_key(#[trigger] other@) == spec_serialize_key(key@) ==> other == key,
{
    assert forall|other: SecretKey|
        spec_serialize_key(#[trigger] other@) == spec_serialize_key(key@) implies other == key by {
        assert(other@ =~= spec_serialize_key(other@).drop_first());
        assert(key@ =~= spec_serialize_key(key@).drop_first());
        SecretKey::lemma_view_injective(other, key);
    }
}

} // verus!
