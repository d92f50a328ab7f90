//! The single-session authentication and claim state machine.
//!
//! A session is bound to a random bearer token and a symmetric content key.
//! The first successful claim binds it to one client id; only that client can
//! keep using and eventually complete the session.

use crate::crypto::{random_bytes, EncryptionKey};
use crate::encoding::{base64_encode, base64_of, base64_url_encode};
use crate::text::{is_blank, spec_is_blank, str_eq};
use vstd::prelude::*;

verus! {

/// The claim state of a session: unclaimed, claimed by one client, or
/// completed by that client.
pub enum SessionState {
    Unclaimed,
    Claimed(String),
    Completed(String),
}

/// The client id a session state is bound to, if any.
pub open spec fn spec_owner(state: SessionState) -> Option<Seq<char>> {
    match state {
        SessionState::Unclaimed => None,
        SessionState::Claimed(c) => Some(c@),
        SessionState::Completed(c) => Some(c@),
    }
}

/// Whether a claim with this token and client id succeeds against a session
/// holding `stored_token` in state `state`: the token must match, the client
/// id must not be blank, and the session must be unclaimed or already claimed
/// by the same client. A completed session takes no further claims.
pub open spec fn spec_claim_ok(
    state: SessionState,
    stored_token: Seq<char>,
    token: Seq<char>,
    client_id: Seq<char>,
) -> bool {
    &&& stored_token == token
    &&& !spec_is_blank(client_id)
    &&& match state {
        SessionState::Unclaimed => true,
        SessionState::Claimed(c) => c@ == client_id,
        SessionState::Completed(_) => false,
    }
}

/// Whether a session holding `stored_token` in state `state` is active for
/// this token and client id: the token matches and the state is claimed or
/// completed by exactly this client.
pub open spec fn spec_active(
    state: SessionState,
    stored_token: Seq<char>,
    token: Seq<char>,
    client_id: Seq<char>,
) -> bool {
    stored_token == token && spec_owner(state) == Some(client_id)
}

/// Claim exclusivity: for any token, at most one client id is active; every
/// other client id is rejected.
pub proof fn lemma_active_exclusive(
    state: SessionState,
    stored_token: Seq<char>,
    token: Seq<char>,
    cid1: Seq<char>,
    cid2: Seq<char>,
)
    requires
        cid1 != cid2,
    ensures
        !(spec_active(state, stored_token, token, cid1) && spec_active(
            state,
            stored_token,
            token,
            cid2,
        )),
{
}

/// Session idempotence, stated over the state machine: a completed session
/// owned by a client is still active for that client, so a repeated
/// `complete` with the same token and client id succeeds again, and
/// `complete`'s own contract keeps the state completed with the same owner:
/// the state cannot regress.
pub proof fn lemma_complete_idempotent(
    state: SessionState,
    stored_token: Seq<char>,
    token: Seq<char>,
    client_id: Seq<char>,
)
    requires
        state is Completed,
        spec_owner(state) == Some(client_id),
        stored_token == token,
    ensures
        spec_active(state, stored_token, token, client_id),
{
}

/// Core session functionality shared by the send and receive sessions:
/// authentication, key custody, and the claim lifecycle.
pub trait Session: Sized {
    spec fn spec_token(&self) -> Seq<char>;

    spec fn spec_key(&self) -> Seq<u8>;

    spec fn spec_session_state(&self) -> SessionState;

    spec fn session_wf(&self) -> bool;

    /// Returns the session token used for authentication.
    fn token(&self) -> (t: &str)
        ensures
            t@ == self.spec_token(),
    ;

    /// Returns the session key encoded as base64, for the URL fragment handed
    /// to the client out of band.
    fn session_key_b64(&self) -> (s: String)
        requires
            self.session_wf(),
        ensures
            s@ == base64_of(self.spec_key()),
    ;

    /// Claims or validates the session for a client.
    fn claim(&mut self, token: &str, client_id: &str) -> (r: bool)
        ensures
            r == spec_claim_ok(
                old(self).spec_session_state(),
                old(self).spec_token(),
                token@,
                client_id@,
            ),
            final(self).spec_token() == old(self).spec_token(),
            final(self).spec_key() == old(self).spec_key(),
            final(self).session_wf() == old(self).session_wf(),
            if r && old(self).spec_session_state() is Unclaimed {
                (final(self).spec_session_state() matches SessionState::Claimed(c) && c@
                    == client_id@)
            } else {
                final(self).spec_session_state() == old(self).spec_session_state()
            },
    ;

    /// Checks whether the session is active for this token and client.
    fn is_active(&self, token: &str, client_id: &str) -> (r: bool)
        ensures
            r == spec_active(self.spec_session_state(), self.spec_token(), token@, client_id@),
    ;

    /// Marks the session as complete for this client; idempotent.
    fn complete(&mut self, token: &str, client_id: &str) -> (r: bool)
        ensures
            r == spec_active(
                old(self).spec_session_state(),
                old(self).spec_token(),
                token@,
                client_id@,
            ),
            final(self).spec_token() == old(self).spec_token(),
            final(self).spec_key() == old(self).spec_key(),
            final(self).session_wf() == old(self).session_wf(),
            if r {
                (final(self).spec_session_state() matches SessionState::Completed(c) && c@
                    == client_id@)
            } else {
                final(self).spec_session_state() == old(self).spec_session_state()
            },
    ;
}

/// A fresh random URL-safe bearer token: 24 bytes of operating-system
/// randomness, base64url-encoded to 32 characters.
pub fn new_token() -> (t: String)
    ensures
        t@.len() == 32,
{
    let bytes = random_bytes(24);
    base64_url_encode(bytes.as_slice())
}

/// The shared session implementation: token, content key, and claim state.
pub struct SessionCore {
    token: String,
    key: EncryptionKey,
    state: SessionState,
}

impl SessionCore {
    pub closed spec fn spec_token(&self) -> Seq<char> {
        self.token@
    }

    pub closed spec fn spec_key(&self) -> Seq<u8> {
        self.key.spec_bytes()
    }

    pub closed spec fn spec_session_state(&self) -> SessionState {
        self.state
    }

    pub closed spec fn wf(&self) -> bool {
        self.key.wf()
    }

    /// A new unclaimed session around a content key, with a fresh token.
    pub fn new(session_key: EncryptionKey) -> (s: Self)
        ensures
            s.spec_session_state() is Unclaimed,
            s.spec_key() == session_key.spec_bytes(),
            s.wf() == session_key.wf(),
            s.spec_token().len() == 32,
    {
        SessionCore { token: new_token(), key: session_key, state: SessionState::Unclaimed }
    }

    pub fn token(&self) -> (t: &str)
        ensures
            t@ == self.spec_token(),
    {
        self.token.as_str()
    }

    /// The raw content key bytes, for sealing and opening chunks.
    pub fn key(&self) -> (k: &EncryptionKey)
        ensures
            k.spec_bytes() == self.spec_key(),
            k.wf() == self.wf(),
    {
        &self.key
    }

    pub fn session_key_b64(&self) -> (s: String)
        requires
            self.wf(),
        ensures
            s@ == base64_of(self.spec_key()),
            s@.len() == 44,
    {
        base64_encode(self.key.bytes().as_slice())
    }

    pub fn claim(&mut self, token: &str, client_id: &str) -> (r: bool)
        ensures
            r == spec_claim_ok(
                old(self).spec_session_state(),
                old(self).spec_token(),
                token@,
                client_id@,
            ),
            final(self).spec_token() == old(self).spec_token(),
            final(self).spec_key() == old(self).spec_key(),
            final(self).wf() == old(self).wf(),
            if r && old(self).spec_session_state() is Unclaimed {
                (final(self).spec_session_state() matches SessionState::Claimed(c) && c@
                    == client_id@)
            } else {
                final(self).spec_session_state() == old(self).spec_session_state()
            },
    {
        if is_blank(client_id) {
            return false;
        }
        if !str_eq(self.token.as_str(), token) {
            return false;
        }
        match &self.state {
            SessionState::Unclaimed => {
                self.state = SessionState::Claimed(client_id.to_owned());
                true
            },
            SessionState::Claimed(c) => str_eq(c.as_str(), client_id),
            SessionState::Completed(_) => false,
        }
    }

    /// Whether the session has been completed.
    pub fn state_is_completed(&self) -> (r: bool)
        ensures
            r == (self.spec_session_state() is Completed),
    {
        match &self.state {
            SessionState::Completed(_) => true,
            _ => false,
        }
    }

    pub fn is_active(&self, token: &str, client_id: &str) -> (r: bool)
        ensures
            r == spec_active(self.spec_session_state(), self.spec_token(), token@, client_id@),
    {
        if !str_eq(self.token.as_str(), token) {
            return false;
        }
        match &self.state {
            SessionState::Unclaimed => false,
            SessionState::Claimed(c) => str_eq(c.as_str(), client_id),
            SessionState::Completed(c) => str_eq(c.as_str(), client_id),
        }
    }

    pub fn complete(&mut self, token: &str, client_id: &str) -> (r: bool)
        ensures
            r == spec_active(
                old(self).spec_session_state(),
                old(self).spec_token(),
                token@,
                client_id@,
            ),
            final(self).spec_token() == old(self).spec_token(),
            final(self).spec_key() == old(self).spec_key(),
            final(self).wf() == old(self).wf(),
            if r {
                (final(self).spec_session_state() matches SessionState::Completed(c) && c@
                    == client_id@)
            } else {
                final(self).spec_session_state() == old(self).spec_session_state()
            },
    {
        if !str_eq(self.token.as_str(), token) {
            return false;
        }
        let owner_matches = match &self.state {
            SessionState::Unclaimed => false,
            SessionState::Claimed(c) => str_eq(c.as_str(), client_id),
            SessionState::Completed(c) => str_eq(c.as_str(), client_id),
        };
        if !owner_matches {
            return false;
        }
        let already_complete = match &self.state {
            SessionState::Completed(_) => true,
            _ => false,
        };
        if !already_complete {
            self.state = SessionState::Completed(client_id.to_owned());
        }
        true
    }
}

} // verus!
