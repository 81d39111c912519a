//! A verified model of the fully post-quantum PQXDH handshake: ML-DSA-87
//! identities, ML-KEM-1024 or HQC-256 KEM prekeys, and the session records
//! built from them.

pub mod address;
pub mod curve;
pub mod dsa;
pub mod error;
pub mod identity_key;
pub mod kem;
pub mod proto;
pub mod protocol;
pub mod ratchet;
pub mod session;
pub mod state;

pub use address::{DeviceId, ProtocolAddress};
pub use curve::{KeyPair, PrivateKey, PublicKey};
pub use error::{Result, SignalProtocolError};
pub use identity_key::{IdentityKey, IdentityKeyPair};
pub use protocol::{CiphertextMessageType, PreKeySignalMessage, KYBER_AWARE_MESSAGE_VERSION};
pub use ratchet::{
    initialize_alice_session_record, initialize_bob_session_record, AliceHandshakeRandomness,
    AliceSignalProtocolParameters, BobSignalProtocolParameters,
};
pub use session::{
    process_prekey, process_prekey_bundle, process_prekey_impl, validate_bundle, IdentityToSave,
    PreKeyProcessing, PreKeysUsed,
};
pub use state::bundle::{PreKeyBundle, PreKeyBundleContent};
pub use state::session::{SessionRecord, SessionState};
pub use state::{KyberPreKeyId, PreKeyId, SignedPreKeyId};
