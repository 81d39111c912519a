//! The parts of the handshake message that the session logic reads.

use vstd::prelude::*;

use crate::curve;
use crate::identity_key::IdentityKey;
use crate::state::{KyberPreKeyId, PreKeyId, SignedPreKeyId};

verus! {

/// The session version of sessions that carry KEM ciphertexts.
pub const CIPHERTEXT_MESSAGE_CURRENT_VERSION: u8 = 4;
/// The session version of sessions set up with a KEM prekey.
pub const KYBER_AWARE_MESSAGE_VERSION: u8 = 4;

/// The kinds of ciphertext message.
#[derive(Clone, Copy, Debug, PartialEq, Eq, Structural)]
pub enum CiphertextMessageType {
    Whisper,
    PreKey,
    SenderKey,
    Plaintext,
}

/// The fields of a received PreKey message that establishing a session reads.
#[derive(Clone)]
pub struct PreKeySignalMessage {
    pub message_version: u8,
    pub registration_id: u32,
    pub pre_key_id: Option<PreKeyId>,
    pub signed_pre_key_id: SignedPreKeyId,
    pub kyber_pre_key_id: Option<KyberPreKeyId>,
    pub kyber_ciphertext: Option<Vec<u8>>,
    pub pq_one_time_pre_key_id: Option<KyberPreKeyId>,
    pub pq_one_time_ciphertext: Option<Vec<u8>>,
    pub identity_signature: Vec<u8>,
    pub base_key: curve::PublicKey,
    pub identity_key: IdentityKey,
}

} // verus!
