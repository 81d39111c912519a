//! X25519 keys. In the post-quantum handshake they contribute nothing to the
//! shared secret: Bob's signed X25519 key only starts the Double Ratchet, and
//! Alice's base key identifies the session and is bound into the transcript.

use vstd::prelude::*;

verus! {

/// Type-prefix byte of a serialized X25519 public key.
pub const DJB_TYPE: u8 = 0x05;
/// Length in bytes of a raw X25519 public or private key.
pub const KEY_LENGTH: usize = 32;

/// The X25519 public key of the private scalar `private`, as
/// `x25519_dalek::PublicKey::from(&StaticSecret::from(private))` computes it.
pub uninterp spec fn x25519_public_key(private: Seq<u8>) -> Seq<u8>;

/// The X25519 shared secret of `private` and `public`, as
/// `StaticSecret::from(private).diffie_hellman(&PublicKey::from(public))` computes it.
pub uninterp spec fn x25519_agreement(private: Seq<u8>, public: Seq<u8>) -> Seq<u8>;

/// Calls `x25519_dalek::PublicKey::from` on `x25519_dalek::StaticSecret::from(private)`.
#[verifier::external_body]
fn x25519_derive_public(private: &[u8; KEY_LENGTH]) -> (public: [u8; KEY_LENGTH])
    ensures
        public@ == x25519_public_key(private@),
{
    let secret = x25519_dalek::StaticSecret::from(*private);
    *x25519_dalek::PublicKey::from(&secret).as_bytes()
}

/// Calls `x25519_dalek::StaticSecret::diffie_hellman`.
#[verifier::external_body]
fn x25519_diffie_hellman(private: &[u8; KEY_LENGTH], public: &[u8; KEY_LENGTH]) -> (shared: [u8;
    KEY_LENGTH])
    ensures
        shared@ == x25519_agreement(private@, public@),
{
    let secret = x25519_dalek::StaticSecret::from(*private);
    *secret.diffie_hellman(&x25519_dalek::PublicKey::from(*public)).as_bytes()
}

/// The serialized form of an X25519 public key: its type byte, then the key.
pub open spec fn spec_serialize_public(key: Seq<u8>) -> Seq<u8> {
    seq![DJB_TYPE] + key
}

/// An X25519 public key.
#[derive(Clone, Copy, Debug)]
pub struct PublicKey {
    data: [u8; KEY_LENGTH],
}

impl View for PublicKey {
    type V = Seq<u8>;

    closed spec fn view(&self) -> Seq<u8> {
        self.data@
    }
}

impl PublicKey {
    /// Every public key holds exactly `KEY_LENGTH` bytes.
    pub broadcast proof fn lemma_view_len(key: PublicKey)
        ensures
            #[trigger] key@.len() == KEY_LENGTH,
    {
    }

    /// Two public keys with the same bytes are the same key.
    pub broadcast proof fn lemma_view_injective(a: PublicKey, b: PublicKey)
        ensures
            #[trigger] a@ == #[trigger] b@ ==> a == b,
    {
        if a@ == b@ {
            assert(a.data =~= b.data);
        }
    }

    /// A public key with the given raw bytes.
    pub fn from_djb_public_key_bytes(bytes: [u8; KEY_LENGTH]) -> (key: Self)
        ensures
            key@ == bytes@,
    {
        PublicKey { data: bytes }
    }

    /// The raw key bytes.
    pub fn public_key_bytes(&self) -> (bytes: &[u8; KEY_LENGTH])
        ensures
            bytes@ == self@,
    {
        &self.data
    }

    /// Serialize the key with its type-prefix byte.
    pub fn serialize(&self) -> (out: Vec<u8>)
        ensures
            out@ == spec_serialize_public(self@),
            out@.len() == KEY_LENGTH + 1,
    {
        let mut out: Vec<u8> = Vec::new();
        out.push(DJB_TYPE);
        out.extend_from_slice(&self.data);
        assert(out@ =~= spec_serialize_public(self@));
        out
    }
}

impl PartialEq for PublicKey {
    fn eq(&self, other: &Self) -> (eq: bool) {
        crate::dsa::ct_eq_bytes(&self.data, &other.data)
    }
}

impl vstd::std_specs::cmp::PartialEqSpecImpl for PublicKey {
    open spec fn obeys_eq_spec() -> bool {
        true
    }

    open spec fn eq_spec(&self, other: &Self) -> bool {
        self@ == other@
    }
}

impl Eq for PublicKey {}

/// An X25519 private key.
#[derive(Clone, Copy)]
pub struct PrivateKey {
    data: [u8; KEY_LENGTH],
}

impl View for PrivateKey {
    type V = Seq<u8>;

    closed spec fn view(&self) -> Seq<u8> {
        self.data@
    }
}

impl PrivateKey {
    /// A private key with the given raw scalar bytes.
    pub fn from_bytes(bytes: [u8; KEY_LENGTH]) -> (key: Self)
        ensures
            key@ == bytes@,
    {
        PrivateKey { data: bytes }
    }

    /// The public key of this private key.
    pub fn public_key(&self) -> (key: PublicKey)
        ensures
            key@ == x25519_public_key(self@),
    {
        PublicKey { data: x25519_derive_public(&self.data) }
    }

    /// The X25519 agreement of this private key with `their_key`.
    pub fn calculate_agreement(&self, their_key: &PublicKey) -> (shared: [u8; KEY_LENGTH])
        ensures
            shared@ == x25519_agreement(self@, their_key@),
    {
        x25519_diffie_hellman(&self.data, &their_key.data)
    }
}

/// An X25519 key pair.
#[derive(Clone, Copy)]
pub struct KeyPair {
    pub public_key: PublicKey,
    pub private_key: PrivateKey,
}

impl KeyPair {
    /// The key pair whose private scalar is the 32 bytes of `randomness`.
    pub fn generate(randomness: [u8; KEY_LENGTH]) -> (pair: Self)
        ensures
            pair.private_key@ == randomness@,
            pair.public_key@ == x25519_public_key(randomness@),
    {
        let private_key = PrivateKey::from_bytes(randomness);
        KeyPair { public_key: private_key.public_key(), private_key }
    }

    /// A key pair from its two halves.
    pub fn new(public_key: PublicKey, private_key: PrivateKey) -> (pair: Self)
        ensures
            pair.public_key == public_key,
            pair.private_key == private_key,
    {
        KeyPair { public_key, private_key }
    }
}

} // verus!
