//! Prekey identifiers, prekey bundles and session records.

use vstd::prelude::*;

pub mod bundle;
pub mod session;

verus! {

/// Identifier of a one-time EC prekey.
#[derive(Clone, Copy, Debug, PartialEq, Eq, Structural)]
pub struct PreKeyId(pub u32);

/// Identifier of a signed X25519 prekey.
#[derive(Clone, Copy, Debug, PartialEq, Eq, Structural)]
pub struct SignedPreKeyId(pub u32);

/// Identifier of a KEM prekey.
#[derive(Clone, Copy, Debug, PartialEq, Eq, Structural)]
pub struct KyberPreKeyId(pub u32);

} // verus!
