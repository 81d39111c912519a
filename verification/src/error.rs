use vstd::prelude::*;

use crate::address::ProtocolAddress;
use crate::kem::KeyType;
use crate::protocol::CiphertextMessageType;

verus! {

/// Errors returned by the protocol operations of this crate.
#[derive(Debug, Clone)]
pub enum SignalProtocolError {
    /// A serialized key was empty, so it had no type byte.
    NoKeyTypeIdentifier,
    /// A serialized key carried an unknown type byte.
    BadKeyType(u8),
    /// An argument was malformed; the text says how.
    InvalidArgument(String),
    /// A protobuf structure could not be decoded.
    InvalidProtobufEncoding,
    /// A signature did not verify.
    SignatureValidationFailed,
    /// A serialized KEM key or ciphertext carried an unknown type byte.
    BadKEMKeyType(u8),
    /// A KEM ciphertext of one type was given to a key of another type.
    WrongKEMKeyType(u8, u8),
    /// A KEM key had the wrong length for its type.
    BadKEMKeyLength(KeyType, usize),
    /// A KEM ciphertext had the wrong length for its type.
    BadKEMCiphertextLength(KeyType, usize),
    /// The identity of the remote address is not trusted.
    UntrustedIdentity(ProtocolAddress),
    /// A message lacked a part that the protocol requires.
    InvalidMessage(CiphertextMessageType, &'static str),
    /// A session record was not in the state that an operation needs.
    InvalidState(&'static str),
}

/// Result type of this crate.
pub type Result<T> = core::result::Result<T, SignalProtocolError>;

} // verus!
