//! A one-shot token store for the streamed download path: each token maps
//! to a file and is valid until its first use.

use vstd::hash_map::StringHashMap;
use vstd::prelude::*;

verus! {

/// What one download token unlocks, and whether it was already used.
pub struct SessionData {
    /// The file served for this token.
    pub file_path: String,
    /// Set on first use so a token cannot be replayed.
    pub used: bool,
}

/// Relies on uuid's `Uuid::new_v4` with its `Display` form: a random
/// version-4 UUID rendered as the 36-character hyphenated string.
#[verifier::external_body]
fn new_uuid_token() -> (t: String)
    ensures
        t@.len() == 36,
{
    uuid::Uuid::new_v4().to_string()
}

/// Tokens handed out for streamed downloads, each good for one use.
pub struct SessionStore {
    sessions: StringHashMap<SessionData>,
}

impl SessionStore {
    pub closed spec fn spec_sessions(&self) -> Map<Seq<char>, SessionData> {
        self.sessions@
    }

    pub fn new() -> (s: Self)
        ensures
            s.spec_sessions() == Map::<Seq<char>, SessionData>::empty(),
    {
        SessionStore { sessions: StringHashMap::new() }
    }

    /// Mints a fresh token and registers the file it unlocks, unused.
    pub fn create_session(&mut self, file_path: String) -> (token: String)
        ensures
            token@.len() == 36,
            final(self).spec_sessions() == old(self).spec_sessions().insert(
                token@,
                (SessionData { file_path: file_path, used: false }),
            ),
    {
        let token = new_uuid_token();
        let token_copy = token.clone();
        self.sessions.insert(token_copy, SessionData { file_path, used: false });
        token
    }

    /// Redeems a token: if it exists and was never used, marks it used and
    /// returns its file path; a second redemption of the same token fails,
    /// which is what blocks replay.
    pub fn validate_and_mark_used(&mut self, token: &str) -> (r: Option<String>)
        ensures
            (r is Some) == (old(self).spec_sessions().dom().contains(token@) && !old(
                self,
            ).spec_sessions()[token@].used),
            r matches Some(p) ==> {
                &&& p == old(self).spec_sessions()[token@].file_path
                &&& final(self).spec_sessions() =~= old(self).spec_sessions().insert(
                    token@,
                    (SessionData { file_path: p, used: true }),
                )
            },
            r is None ==> final(self).spec_sessions() == old(self).spec_sessions(),
    {
        let data = match self.sessions.get(token) {
            Some(data) => data,
            None => {
                return None;
            },
        };
        if data.used {
            return None;
        }
        let path = data.file_path.clone();
        self.sessions.insert(token.to_owned(), SessionData { file_path: path.clone(), used: true });
        Some(path)
    }

    /// Whether a token exists and is still unused; reads change nothing.
    pub fn is_valid(&self, token: &str) -> (r: bool)
        ensures
            r == (self.spec_sessions().dom().contains(token@)
                && !self.spec_sessions()[token@].used),
    {
        match self.sessions.get(token) {
            Some(data) => !data.used,
            None => false,
        }
    }
}

} // verus!
