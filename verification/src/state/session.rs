//! The state of a session and the record of a session with a peer.

use vstd::prelude::*;

use crate::curve;
use crate::error::{Result, SignalProtocolError};
use crate::identity_key::IdentityKey;
use crate::ratchet::keys::{ChainKey, RootKey};
use crate::state::{KyberPreKeyId, PreKeyId, SignedPreKeyId};

verus! {

/// How many earlier sessions a record keeps.
pub const ARCHIVED_STATES_MAX_LENGTH: usize = 40;

/// The chain that a party sends with: its ratchet key pair and chain key.
#[derive(Clone, Copy)]
pub struct SenderChain {
    pub ratchet_key_pair: curve::KeyPair,
    pub chain_key: ChainKey,
}

/// A chain that a party receives with: the peer's ratchet key and the chain key.
#[derive(Clone, Copy)]
pub struct ReceiverChain {
    pub ratchet_key: curve::PublicKey,
    pub chain_key: ChainKey,
}

/// What Alice sends in every PreKey message until Bob answers.
#[derive(Clone, Copy)]
pub struct UnacknowledgedPreKeyMessage {
    pub pre_key_id: Option<PreKeyId>,
    pub signed_pre_key_id: SignedPreKeyId,
    pub base_key: curve::PublicKey,
    /// Seconds since the UNIX epoch.
    pub timestamp: u64,
}

/// The state of one session.
pub struct SessionState {
    pub session_version: u8,
    pub local_identity_key: IdentityKey,
    pub remote_identity_key: IdentityKey,
    pub root_key: RootKey,
    pub alice_base_key: curve::PublicKey,
    pub sender_chain: Option<SenderChain>,
    pub receiver_chains: Vec<ReceiverChain>,
    /// The ciphertext to Bob's signed KEM prekey.
    pub kyber_ciphertext: Option<Vec<u8>>,
    /// The ciphertext to Bob's one-time KEM prekey.
    pub pq_one_time_ciphertext: Option<Vec<u8>>,
    /// Alice's signature over the handshake transcript.
    pub identity_signature: Option<Vec<u8>>,
    pub unacknowledged_pre_key_message: Option<UnacknowledgedPreKeyMessage>,
    pub unacknowledged_kyber_pre_key_id: Option<KyberPreKeyId>,
    pub pq_one_time_pre_key_id: Option<KyberPreKeyId>,
    pub local_registration_id: u32,
    pub remote_registration_id: u32,
}

impl SessionState {
    /// A session with no chains and nothing pending.
    pub fn new(
        version: u8,
        our_identity: &IdentityKey,
        their_identity: &IdentityKey,
        root_key: &RootKey,
        alice_base_key: &curve::PublicKey,
    ) -> (res: Self)
        ensures
            res.session_version == version,
            res.local_identity_key == *our_identity,
            res.remote_identity_key == *their_identity,
            res.root_key == *root_key,
            res.alice_base_key == *alice_base_key,
            res.sender_chain is None,
            res.receiver_chains@ == Seq::<ReceiverChain>::empty(),
            res.kyber_ciphertext is None,
            res.pq_one_time_ciphertext is None,
            res.identity_signature is None,
            res.unacknowledged_pre_key_message is None,
            res.unacknowledged_kyber_pre_key_id is None,
            res.pq_one_time_pre_key_id is None,
            res.local_registration_id == 0,
            res.remote_registration_id == 0,
    {
        SessionState {
            session_version: version,
            local_identity_key: *our_identity,
            remote_identity_key: *their_identity,
            root_key: *root_key,
            alice_base_key: *alice_base_key,
            sender_chain: None,
            receiver_chains: Vec::new(),
            kyber_ciphertext: None,
            pq_one_time_ciphertext: None,
            identity_signature: None,
            unacknowledged_pre_key_message: None,
            unacknowledged_kyber_pre_key_id: None,
            pq_one_time_pre_key_id: None,
            local_registration_id: 0,
            remote_registration_id: 0,
        }
    }

    /// The chain key of the receiver chain for `sender`, if there is one.
    pub fn get_receiver_chain_key(&self, sender: &curve::PublicKey) -> (res: Option<ChainKey>)
        ensures
            res is Some <==> exists|i: int|
                0 <= i < self.receiver_chains@.len() && self.receiver_chains@[i].ratchet_key@
                    == sender@,
            res matches Some(k) ==> exists|i: int|
                0 <= i < self.receiver_chains@.len() && self.receiver_chains@[i].ratchet_key@
                    == sender@ && self.receiver_chains@[i].chain_key == k && (forall|j: int|
                    0 <= j < i ==> self.receiver_chains@[j].ratchet_key@ != sender@),
    {
        let mut i: usize = 0;
        while i < self.receiver_chains.len()
            invariant
                i <= self.receiver_chains@.len(),
                forall|j: int| 0 <= j < i ==> self.receiver_chains@[j].ratchet_key@ != sender@,
            decreases self.receiver_chains@.len() - i,
        {
            let chain = &self.receiver_chains[i];
            if crate::dsa::ct_eq_bytes(chain.ratchet_key.public_key_bytes(), sender.public_key_bytes()) {
                return Some(chain.chain_key);
            }
            i = i + 1;
        }
        None
    }
}

/// The sessions with one peer: the current one, and earlier ones, newest first.
pub struct SessionRecord {
    pub current_session: Option<SessionState>,
    pub previous_sessions: Vec<SessionState>,
}

/// Whether `state` was set up by the PreKey message with `version` and `base_key`.
pub open spec fn spec_session_matches(state: SessionState, version: u8, base_key: Seq<u8>) -> bool {
    state.session_version == version && curve::spec_serialize_public(state.alice_base_key@)
        == base_key
}

/// The earlier sessions after `current`, if there is one, is archived in
/// front of `previous`: it goes first, without what it had pending, and the
/// oldest ones beyond the limit are dropped.
pub open spec fn spec_archive(current: Option<SessionState>, previous: Seq<SessionState>) -> Seq<
    SessionState,
> {
    match current {
        None => previous,
        Some(cur) => {
            let kept = if previous.len() >= ARCHIVED_STATES_MAX_LENGTH {
                previous.take(ARCHIVED_STATES_MAX_LENGTH - 1)
            } else {
                previous
            };
            seq![SessionState { unacknowledged_pre_key_message: None, ..cur }] + kept
        },
    }
}

/// Whether `previous` is what the earlier sessions of `record` become when its
/// current session is archived.
pub open spec fn spec_archived(record: SessionRecord, previous: Seq<SessionState>) -> bool {
    previous == spec_archive(record.current_session, record.previous_sessions@)
}

/// Whether `i` is the first index of `previous` whose session was set up by
/// the PreKey message with `version` and `base_key`.
pub open spec fn spec_is_first_match(previous: Seq<SessionState>, version: u8, base_key: Seq<u8>, i: int) -> bool {
    &&& 0 <= i < previous.len()
    &&& spec_session_matches(previous[i], version, base_key)
    &&& forall|j: int| 0 <= j < i ==> !spec_session_matches(#[trigger] previous[j], version, base_key)
}

/// The first index of `previous` whose session was set up by the PreKey
/// message with `version` and `base_key`.
pub open spec fn spec_first_match(previous: Seq<SessionState>, version: u8, base_key: Seq<u8>) -> int {
    choose|i: int| spec_is_first_match(previous, version, base_key, i)
}

/// What promoting the session of the PreKey message with `version` and
/// `base_key` does to a record that holds it: if the current session is that
/// session, nothing; otherwise the first earlier session that is leaves the
/// earlier ones and becomes current, and the old current session is archived.
pub open spec fn spec_promoted(old: SessionRecord, new: SessionRecord, version: u8, base_key: Seq<u8>) -> bool {
    if old.current_session matches Some(cur) && spec_session_matches(cur, version, base_key) {
        new.current_session == old.current_session && new.previous_sessions@
            == old.previous_sessions@
    } else {
        let i = spec_first_match(old.previous_sessions@, version, base_key);
        &&& new.current_session == Some(old.previous_sessions@[i])
        &&& new.previous_sessions@ == spec_archive(
            old.current_session,
            old.previous_sessions@.remove(i),
        )
    }
}

/// Whether `e` is the error of asking a record without a current session for it.
pub open spec fn spec_no_current_session(e: SignalProtocolError) -> bool {
    e matches SignalProtocolError::InvalidState(m) && m@ == "no current session"@
}

impl SessionRecord {
    /// A record whose current session is `state`.
    pub fn new(state: SessionState) -> (res: Self)
        ensures
            res.current_session == Some(state),
            res.previous_sessions@.len() == 0,
    {
        SessionRecord { current_session: Some(state), previous_sessions: Vec::new() }
    }

    /// A record with no session.
    pub fn new_fresh() -> (res: Self)
        ensures
            res.current_session is None,
            res.previous_sessions@.len() == 0,
    {
        SessionRecord { current_session: None, previous_sessions: Vec::new() }
    }

    /// Make `new_state` the current session; the old current session, if any,
    /// goes first among the earlier ones, without what it had pending, and the
    /// oldest earlier session is dropped once there are too many.
    pub fn promote_state(&mut self, new_state: SessionState)
        ensures
            final(self).current_session == Some(new_state),
            spec_archived(*old(self), final(self).previous_sessions@),
    {
        if let Some(mut current) = self.current_session.take() {
            let ghost before = self.previous_sessions@;
            while self.previous_sessions.len() >= ARCHIVED_STATES_MAX_LENGTH
                invariant
                    self.previous_sessions@.len() <= before.len(),
                    before.len() >= ARCHIVED_STATES_MAX_LENGTH ==> (self.previous_sessions@.len()
                        >= ARCHIVED_STATES_MAX_LENGTH - 1 && self.previous_sessions@
                        == before.take(self.previous_sessions@.len() as int)),
                    before.len() < ARCHIVED_STATES_MAX_LENGTH ==> self.previous_sessions@ == before,
                decreases self.previous_sessions@.len(),
            {
                let ghost prev = self.previous_sessions@;
                assert(before.len() >= ARCHIVED_STATES_MAX_LENGTH);
                self.previous_sessions.pop();
                assert(self.previous_sessions@ =~= prev.drop_last());
                assert(self.previous_sessions@ =~= before.take(self.previous_sessions@.len() as int));
            }
            current.unacknowledged_pre_key_message = None;
            self.previous_sessions.insert(0, current);
            proof {
                let old_rec = *old(self);
                let kept = if old_rec.previous_sessions@.len() >= ARCHIVED_STATES_MAX_LENGTH {
                    old_rec.previous_sessions@.take(ARCHIVED_STATES_MAX_LENGTH - 1)
                } else {
                    old_rec.previous_sessions@
                };
                assert(self.previous_sessions@ =~= seq![current] + kept);
            }
        }
        self.current_session = Some(new_state);
    }

    /// If the current session or an earlier one was set up by the PreKey
    /// message with `version` and `alice_base_key`, make it current and report
    /// `true`; otherwise leave the record as it is and report `false`.
    pub fn promote_matching_session(&mut self, version: u8, alice_base_key: &[u8]) -> (found: bool)
        ensures
            found <==> ((old(self).current_session matches Some(cur) && spec_session_matches(
                cur,
                version,
                alice_base_key@,
            )) || exists|i: int|
                0 <= i < old(self).previous_sessions@.len() && spec_session_matches(
                    #[trigger] old(self).previous_sessions@[i],
                    version,
                    alice_base_key@,
                )),
            found ==> (final(self).current_session matches Some(cur) && spec_session_matches(
                cur,
                version,
                alice_base_key@,
            )),
            found ==> spec_promoted(*old(self), *final(self), version, alice_base_key@),
            !found ==> final(self).current_session == old(self).current_session
                && final(self).previous_sessions@ == old(self).previous_sessions@,
    {
        if let Some(current) = &self.current_session {
            let current_base = current.alice_base_key.serialize();
            if current.session_version == version && crate::dsa::ct_eq_bytes(
                current_base.as_slice(),
                alice_base_key,
            ) {
                return true;
            }
        }
        let mut i: usize = 0;
        while i < self.previous_sessions.len()
            invariant
                i <= self.previous_sessions@.len(),
                self.current_session == old(self).current_session,
                self.previous_sessions@ == old(self).previous_sessions@,
                !(self.current_session matches Some(cur) && spec_session_matches(
                    cur,
                    version,
                    alice_base_key@,
                )),
                forall|j: int|
                    0 <= j < i ==> !spec_session_matches(
                        #[trigger] self.previous_sessions@[j],
                        version,
                        alice_base_key@,
                    ),
            decreases self.previous_sessions@.len() - i,
        {
            let state = &self.previous_sessions[i];
            let base = state.alice_base_key.serialize();
            if state.session_version == version && crate::dsa::ct_eq_bytes(
                base.as_slice(),
                alice_base_key,
            ) {
                let ghost prev = self.previous_sessions@;
                proof {
                    assert(spec_is_first_match(prev, version, alice_base_key@, i as int));
                    assert forall|k: int|
                        spec_is_first_match(prev, version, alice_base_key@, k) implies k == i by {
                        if k < i {
                            assert(!spec_session_matches(prev[k], version, alice_base_key@));
                        }
                        if k > i {
                            assert(!spec_session_matches(prev[i as int], version, alice_base_key@));
                        }
                    }
                    assert(spec_first_match(prev, version, alice_base_key@) == i);
                }
                let found = self.previous_sessions.remove(i);
                self.promote_state(found);
                return true;
            }
            i = i + 1;
        }
        false
    }

    /// The current session, or an error if there is none.
    fn current(&self) -> (res: Result<&SessionState>)
        ensures
            match self.current_session {
                Some(s) => res == Ok::<&SessionState, SignalProtocolError>(&s),
                None => res matches Err(e) && spec_no_current_session(e),
            },
    {
        match &self.current_session {
            Some(s) => Ok(s),
            None => Err(SignalProtocolError::InvalidState("no current session")),
        }
    }

    /// The version of the current session.
    pub fn session_version(&self) -> (res: Result<u32>)
        ensures
            match self.current_session {
                Some(s) => res == Ok::<u32, SignalProtocolError>(s.session_version as u32),
                None => res matches Err(e) && spec_no_current_session(e),
            },
    {
        let s = self.current()?;
        Ok(s.session_version as u32)
    }

    /// The ciphertext to the signed KEM prekey that the current session carries.
    pub fn get_kyber_ciphertext(&self) -> (res: Result<Option<&Vec<u8>>>)
        ensures
            match self.current_session {
                Some(s) => res matches Ok(c) && c == match s.kyber_ciphertext {
                    Some(v) => Some(&v),
                    None => None::<&Vec<u8>>,
                },
                None => res matches Err(e) && spec_no_current_session(e),
            },
    {
        let s = self.current()?;
        Ok(s.kyber_ciphertext.as_ref())
    }

    /// The ciphertext to the one-time KEM prekey that the current session carries.
    pub fn get_pq_one_time_ciphertext(&self) -> (res: Result<Option<&Vec<u8>>>)
        ensures
            match self.current_session {
                Some(s) => res matches Ok(c) && c == match s.pq_one_time_ciphertext {
                    Some(v) => Some(&v),
                    None => None::<&Vec<u8>>,
                },
                None => res matches Err(e) && spec_no_current_session(e),
            },
    {
        let s = self.current()?;
        Ok(s.pq_one_time_ciphertext.as_ref())
    }

    /// Alice's transcript signature that the current session carries.
    pub fn get_identity_signature(&self) -> (res: Result<Option<&Vec<u8>>>)
        ensures
            match self.current_session {
                Some(s) => res matches Ok(c) && c == match s.identity_signature {
                    Some(v) => Some(&v),
                    None => None::<&Vec<u8>>,
                },
                None => res matches Err(e) && spec_no_current_session(e),
            },
    {
        let s = self.current()?;
        Ok(s.identity_signature.as_ref())
    }

    /// The chain key bytes of the sender chain of the current session.
    pub fn get_sender_chain_key_bytes(&self) -> (res: Result<Vec<u8>>)
        ensures
            match self.current_session {
                Some(s) => match s.sender_chain {
                    Some(c) => res matches Ok(k) && k@ == c.chain_key.key@,
                    None => res matches Err(SignalProtocolError::InvalidState(m)) && m@
                        == "no sender chain"@,
                },
                None => res matches Err(e) && spec_no_current_session(e),
            },
    {
        let s = self.current()?;
        match &s.sender_chain {
            Some(c) => {
                let mut out: Vec<u8> = Vec::new();
                out.extend_from_slice(&c.chain_key.key);
                assert(out@ =~= c.chain_key.key@);
                Ok(out)
            },
            None => Err(SignalProtocolError::InvalidState("no sender chain")),
        }
    }

    /// The chain key bytes of the receiver chain for `sender` in the current session.
    pub fn get_receiver_chain_key_bytes(&self, sender: &curve::PublicKey) -> (res: Result<
        Option<Vec<u8>>,
    >)
        ensures
            match self.current_session {
                Some(s) => res matches Ok(k) && (k is Some <==> exists|i: int|
                    0 <= i < s.receiver_chains@.len() && s.receiver_chains@[i].ratchet_key@
                        == sender@) && (k matches Some(b) ==> exists|i: int|
                    0 <= i < s.receiver_chains@.len() && s.receiver_chains@[i].ratchet_key@
                        == sender@ && s.receiver_chains@[i].chain_key.key@ == b@ && (forall|
                        j: int,
                    |
                        0 <= j < i ==> s.receiver_chains@[j].ratchet_key@ != sender@)),
                None => res matches Err(e) && spec_no_current_session(e),
            },
    {
        let s = self.current()?;
        match s.get_receiver_chain_key(sender) {
            Some(c) => {
                let mut out: Vec<u8> = Vec::new();
                out.extend_from_slice(&c.key);
                assert(out@ =~= c.key@);
                Ok(Some(out))
            },
            None => Ok(None),
        }
    }
}

} // verus!
