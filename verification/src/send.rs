//! The send-side session: manifest custody, chunk request validation, the
//! deduplicated sent-chunk set, and per-chunk sealing.

use crate::crypto::{
    encrypt_chunk_at_position, seal_of, spec_nonce_bytes, EncryptionKey, AEAD_PLAINTEXT_MAX,
    AEAD_TAG_LEN,
};
use crate::errors::AppError;
use crate::manifest::{chunk_bounds, FileEntry, Manifest};
use crate::session::{spec_active, Session, SessionCore, SessionState};
use crate::text::{is_blank, spec_is_blank};
use vstd::hash_set::HashSetWithView;
use vstd::prelude::*;

verus! {

broadcast use vstd::std_specs::hash::group_hash_axioms;

/// The dedup key of chunk `(file_index, chunk_index)`: both indices packed
/// into one 128-bit integer, the file index in the high 64 bits.
pub open spec fn spec_chunk_key(file_index: int, chunk_index: int) -> int {
    file_index * 0x10000000000000000 + chunk_index
}

/// Packing is injective: equal keys come from equal index pairs.
pub proof fn lemma_chunk_key_injective(i1: int, j1: int, i2: int, j2: int)
    requires
        0 <= i1 < 0x10000000000000000,
        0 <= j1 < 0x10000000000000000,
        0 <= i2 < 0x10000000000000000,
        0 <= j2 < 0x10000000000000000,
        spec_chunk_key(i1, j1) == spec_chunk_key(i2, j2),
    ensures
        i1 == i2,
        j1 == j2,
{
    assert(i1 == i2 && j1 == j2) by (nonlinear_arith)
        requires
            0 <= i1 < 0x10000000000000000,
            0 <= j1 < 0x10000000000000000,
            0 <= i2 < 0x10000000000000000,
            0 <= j2 < 0x10000000000000000,
            i1 * 0x10000000000000000 + j1 == i2 * 0x10000000000000000 + j2,
    ;
}

/// Packs a chunk position into its dedup key.
fn chunk_key(file_index: usize, chunk_index: usize) -> (k: u128)
    ensures
        k as int == spec_chunk_key(file_index as int, chunk_index as int),
{
    proof {
        assert((file_index as int) * 0x10000000000000000 + (chunk_index as int) <= u128::MAX)
            by (nonlinear_arith)
            requires
                0 <= file_index as int <= 0xffffffffffffffff,
                0 <= chunk_index as int <= 0xffffffffffffffff,
        ;
    }
    (file_index as u128) * 0x10000000000000000u128 + (chunk_index as u128)
}

/// Dedup monotonicity: marking a chunk that is already in the sent set
/// leaves the set exactly as it was.
pub proof fn lemma_dedup_idempotent(sent: Set<u128>, key: u128)
    requires
        sent.contains(key),
    ensures
        sent.insert(key) == sent,
{
    assert(sent.insert(key) =~= sent);
}

/// Whether chunk `(file_index, chunk_index)` exists under a manifest: the
/// file index is in bounds, the counter fits the 32-bit nonce counter, and
/// the chunk starts inside the file.
pub open spec fn spec_chunk_in_range(m: Manifest, file_index: int, chunk_index: int) -> bool {
    &&& 0 <= file_index < m.files@.len()
    &&& 0 <= chunk_index <= u32::MAX
    &&& chunk_index * m.config.chunk_size < m.files@[file_index].size
}

/// The query parameters of a chunk request.
pub struct ChunkParams {
    pub client_id: String,
}

/// The byte range and dedup answer for one validated chunk request.
#[derive(Debug)]
pub struct ChunkPlan {
    /// Offset of the chunk in the file.
    pub start: u64,
    /// Number of plaintext bytes to read from that offset.
    pub len: u64,
    /// Whether this position was requested for the first time.
    pub fresh: bool,
}

/// What a completion request reported.
#[derive(Debug)]
pub enum CompletionOutcome {
    /// The session was already completed; the success is re-sent.
    AlreadyComplete,
    /// The session completed now; the flag says whether fewer chunks were
    /// sent than the manifest announced.
    Completed { premature: bool },
}

/// The send-side session: the shared claim core plus the manifest, the
/// deduplicated set of sent chunk positions, and the sent counter.
pub struct SendSession {
    core: SessionCore,
    manifest: Manifest,
    total_chunks: u64,
    chunks_sent: u64,
    sent_chunks: HashSetWithView<u128>,
}

impl SendSession {
    pub closed spec fn spec_manifest(&self) -> Manifest {
        self.manifest
    }

    pub closed spec fn spec_total(&self) -> u64 {
        self.total_chunks
    }

    pub closed spec fn spec_chunks_sent(&self) -> u64 {
        self.chunks_sent
    }

    /// The set of packed chunk keys already served at least once.
    pub closed spec fn spec_sent(&self) -> Set<u128> {
        self.sent_chunks@
    }

    /// Whether chunk `(file_index, chunk_index)` has been served before.
    pub open spec fn spec_has_sent(&self, file_index: int, chunk_index: int) -> bool {
        self.spec_sent().contains(spec_chunk_key(file_index, chunk_index) as u128)
    }

    pub open spec fn wf(&self) -> bool {
        self.spec_session_wf() && self.spec_manifest().wf()
    }

    pub closed spec fn spec_session_wf(&self) -> bool {
        self.core.wf()
    }

    /// A new unclaimed send session owning a built manifest.
    pub fn new(manifest: Manifest, session_key: EncryptionKey, total_chunks: u64) -> (s: Self)
        ensures
            s.spec_session_state() is Unclaimed,
            s.spec_key() == session_key.spec_bytes(),
            s.spec_token().len() == 32,
            s.spec_manifest() == manifest,
            s.spec_total() == total_chunks,
            s.spec_chunks_sent() == 0,
            s.spec_sent() == Set::<u128>::empty(),
            s.spec_session_wf() == session_key.wf(),
    {
        SendSession {
            core: SessionCore::new(session_key),
            manifest,
            total_chunks,
            chunks_sent: 0,
            sent_chunks: HashSetWithView::new(),
        }
    }

    /// A stable reference to the manifest for the life of the session.
    pub fn manifest(&self) -> (m: &Manifest)
        ensures
            *m == self.spec_manifest(),
    {
        &self.manifest
    }

    /// Bounds-safe access to a file entry.
    pub fn get_file(&self, index: usize) -> (r: Option<&FileEntry>)
        ensures
            r matches Some(f) ==> index < self.spec_manifest().files@.len() && *f
                == self.spec_manifest().files@[index as int],
            (r is None) == (index >= self.spec_manifest().files@.len()),
    {
        self.manifest.get_file(index)
    }

    /// Counts one served chunk; returns `(sent, total)`.
    pub fn increment_sent_chunk(&mut self) -> (r: (u64, u64))
        requires
            old(self).spec_chunks_sent() < u64::MAX,
        ensures
            final(self).spec_chunks_sent() == old(self).spec_chunks_sent() + 1,
            r.0 == final(self).spec_chunks_sent(),
            r.1 == final(self).spec_total(),
            final(self).spec_total() == old(self).spec_total(),
            final(self).spec_manifest() == old(self).spec_manifest(),
            final(self).spec_sent() == old(self).spec_sent(),
            final(self).spec_token() == old(self).spec_token(),
            final(self).spec_key() == old(self).spec_key(),
            final(self).spec_session_state() == old(self).spec_session_state(),
            final(self).spec_session_wf() == old(self).spec_session_wf(),
    {
        self.chunks_sent = self.chunks_sent + 1;
        (self.chunks_sent, self.total_chunks)
    }

    /// Whether this chunk position was served before; reading changes
    /// nothing, so repeated queries agree until the next mark.
    pub fn has_chunk_been_sent(&self, file_index: usize, chunk_index: usize) -> (r: bool)
        ensures
            r == self.spec_has_sent(file_index as int, chunk_index as int),
    {
        self.sent_chunks.contains(&chunk_key(file_index, chunk_index))
    }

    /// Marks a chunk position as served; returns true exactly when the
    /// position is new. Marking an already sent position leaves the set
    /// unchanged, and no other position is ever affected.
    pub fn mark_chunk_sent(&mut self, file_index: usize, chunk_index: usize) -> (r: bool)
        ensures
            r == !old(self).spec_has_sent(file_index as int, chunk_index as int),
            final(self).spec_sent() == old(self).spec_sent().insert(
                spec_chunk_key(file_index as int, chunk_index as int) as u128,
            ),
            final(self).spec_has_sent(file_index as int, chunk_index as int),
            forall|i2: int, j2: int|
                0 <= i2 < 0x10000000000000000 && 0 <= j2 < 0x10000000000000000 && !(i2
                    == file_index as int && j2 == chunk_index as int)
                    ==> #[trigger] final(self).spec_has_sent(i2, j2) == old(self).spec_has_sent(
                    i2,
                    j2,
                ),
            final(self).spec_chunks_sent() == old(self).spec_chunks_sent(),
            final(self).spec_total() == old(self).spec_total(),
            final(self).spec_manifest() == old(self).spec_manifest(),
            final(self).spec_token() == old(self).spec_token(),
            final(self).spec_key() == old(self).spec_key(),
            final(self).spec_session_state() == old(self).spec_session_state(),
            final(self).spec_session_wf() == old(self).spec_session_wf(),
    {
        let key = chunk_key(file_index, chunk_index);
        let fresh = self.sent_chunks.insert(key);
        proof {
            let i = file_index as int;
            let j = chunk_index as int;
            assert forall|i2: int, j2: int|
                0 <= i2 < 0x10000000000000000 && 0 <= j2 < 0x10000000000000000 && !(i2 == i && j2
                    == j) implies #[trigger] self.spec_has_sent(i2, j2) == old(self).spec_has_sent(
                i2,
                j2,
            ) by {
                if spec_chunk_key(i2, j2) as u128 == key {
                    lemma_chunk_key_injective(i2, j2, i, j);
                }
            }
        }
        fresh
    }

    /// How many distinct chunk positions were served so far.
    pub fn unique_chunks_sent(&self) -> (r: usize)
        ensures
            r == self.spec_sent().len(),
    {
        self.sent_chunks.len()
    }

    pub fn get_chunks_sent(&self) -> (r: u64)
        ensures
            r == self.spec_chunks_sent(),
    {
        self.chunks_sent
    }

    pub fn get_total_chunks(&self) -> (r: u64)
        ensures
            r == self.spec_total(),
    {
        self.total_chunks
    }

    /// Validates one chunk request on an active session and plans it: where
    /// the chunk lies in the file, and whether the position is fresh. A
    /// fresh position is marked sent and counted; a retried position leaves
    /// both the sent set and the counter unchanged, and duplicate responses
    /// stay byte-identical because sealing is deterministic.
    pub fn prepare_chunk(
        &mut self,
        token: &str,
        client_id: &str,
        file_index: usize,
        chunk_index: usize,
    ) -> (r: Result<ChunkPlan, AppError>)
        requires
            old(self).wf(),
            old(self).spec_chunks_sent() < u64::MAX,
        ensures
            final(self).wf(),
            final(self).spec_token() == old(self).spec_token(),
            final(self).spec_key() == old(self).spec_key(),
            final(self).spec_session_state() == old(self).spec_session_state(),
            final(self).spec_session_wf() == old(self).spec_session_wf(),
            final(self).spec_manifest() == old(self).spec_manifest(),
            final(self).spec_total() == old(self).spec_total(),
            (r is Ok) == (!spec_is_blank(client_id@) && spec_active(
                old(self).spec_session_state(),
                old(self).spec_token(),
                token@,
                client_id@,
            ) && spec_chunk_in_range(
                old(self).spec_manifest(),
                file_index as int,
                chunk_index as int,
            )),
            r matches Err(e) ==> final(self).spec_sent() == old(self).spec_sent() && final(self).spec_chunks_sent() == old(self).spec_chunks_sent(),
            r matches Err(e) ==> (if !spec_is_blank(client_id@) && spec_active(
                old(self).spec_session_state(),
                old(self).spec_token(),
                token@,
                client_id@,
            ) {
                e is BadRequest
            } else {
                e is Unauthorized
            }),
            r matches Ok(p) ==> {
                &&& p.start == chunk_index * old(self).spec_manifest().config.chunk_size
                &&& p.len == (if p.start + old(self).spec_manifest().config.chunk_size <= old(self).spec_manifest().files@[file_index as int].size {
                    old(self).spec_manifest().config.chunk_size as int
                } else {
                    old(self).spec_manifest().files@[file_index as int].size - p.start
                })
                &&& 1 <= p.len <= old(self).spec_manifest().config.chunk_size
                &&& p.fresh == !old(self).spec_has_sent(file_index as int, chunk_index as int)
                &&& final(self).spec_sent() == old(self).spec_sent().insert(
                    spec_chunk_key(file_index as int, chunk_index as int) as u128,
                )
                &&& final(self).spec_chunks_sent() == old(self).spec_chunks_sent() + (if p.fresh {
                    1int
                } else {
                    0int
                })
            },
    {
        if is_blank(client_id) {
            return Err(AppError::Unauthorized("client id cannot be empty".to_string()));
        }
        if !self.core.is_active(token, client_id) {
            return Err(AppError::Unauthorized("invalid or inactive session".to_string()));
        }
        if file_index >= self.manifest.files.len() {
            return Err(AppError::BadRequest("file index out of bounds".to_string()));
        }
        if chunk_index > u32::MAX as usize {
            return Err(AppError::BadRequest("chunk out of range".to_string()));
        }
        let file_size = self.manifest.files[file_index].size;
        let chunk_size = self.manifest.config.chunk_size;
        match chunk_bounds(file_size, chunk_size, chunk_index as u64) {
            Err(e) => Err(e),
            Ok((start, len)) => {
                let fresh = !self.has_chunk_been_sent(file_index, chunk_index);
                self.mark_chunk_sent(file_index, chunk_index);
                if fresh {
                    self.increment_sent_chunk();
                }
                Ok(ChunkPlan { start, len, fresh })
            },
        }
    }

    /// Seals the plaintext of one chunk under the session key and the
    /// file's nonce base, with the chunk index as the nonce counter: the
    /// same position always produces the same ciphertext.
    pub fn encrypt_chunk(&self, file_index: usize, chunk_index: usize, plaintext: &[u8]) -> (r:
        Result<Vec<u8>, AppError>)
        requires
            self.wf(),
            chunk_index <= u32::MAX,
        ensures
            (r is Ok) == (file_index < self.spec_manifest().files@.len() && plaintext@.len()
                <= AEAD_PLAINTEXT_MAX),
            r matches Err(e) ==> (if file_index >= self.spec_manifest().files@.len() {
                e is BadRequest
            } else {
                e is Internal
            }),
            r matches Ok(c) ==> {
                &&& c@ == seal_of(
                    self.spec_key(),
                    spec_nonce_bytes(
                        self.spec_manifest().files@[file_index as int].nonce.spec_bytes(),
                        chunk_index as u32,
                    ),
                    plaintext@,
                )
                &&& c@.len() == plaintext@.len() + AEAD_TAG_LEN
                &&& crate::crypto::open_of(
                    self.spec_key(),
                    spec_nonce_bytes(
                        self.spec_manifest().files@[file_index as int].nonce.spec_bytes(),
                        chunk_index as u32,
                    ),
                    c@,
                ) == Some(plaintext@)
            },
    {
        let entry = match self.manifest.get_file(file_index) {
            Some(entry) => entry,
            None => {
                return Err(AppError::BadRequest("file index out of bounds".to_string()));
            },
        };
        encrypt_chunk_at_position(self.core.key(), &entry.nonce, plaintext, chunk_index as u32)
    }

    /// Handles a completion request: an already completed session answers
    /// with success again; an active one is completed, noting whether the
    /// client announced completion before all chunks were served; anyone
    /// else is rejected.
    pub fn complete_request(&mut self, token: &str, client_id: &str) -> (r: Result<
        CompletionOutcome,
        AppError,
    >)
        ensures
            final(self).spec_token() == old(self).spec_token(),
            final(self).spec_key() == old(self).spec_key(),
            final(self).spec_session_wf() == old(self).spec_session_wf(),
            final(self).spec_manifest() == old(self).spec_manifest(),
            final(self).spec_total() == old(self).spec_total(),
            final(self).spec_sent() == old(self).spec_sent(),
            final(self).spec_chunks_sent() == old(self).spec_chunks_sent(),
            (r is Ok) == (!spec_is_blank(client_id@) && spec_active(
                old(self).spec_session_state(),
                old(self).spec_token(),
                token@,
                client_id@,
            )),
            r matches Ok(o) ==> {
                &&& (final(self).spec_session_state() matches SessionState::Completed(c) && c@
                    == client_id@)
                &&& (o is AlreadyComplete) == (old(self).spec_session_state() is Completed)
                &&& (o matches CompletionOutcome::Completed { premature } ==> premature == (old(self).spec_chunks_sent() < old(self).spec_total()))
            },
            r matches Err(e) ==> e is Unauthorized && final(self).spec_session_state() == old(self).spec_session_state(),
    {
        if is_blank(client_id) {
            return Err(AppError::Unauthorized("client id cannot be empty".to_string()));
        }
        if !self.core.is_active(token, client_id) {
            return Err(AppError::Unauthorized("invalid or inactive session".to_string()));
        }
        let already = self.core.state_is_completed();
        let premature = self.chunks_sent < self.total_chunks;
        self.core.complete(token, client_id);
        if already {
            Ok(CompletionOutcome::AlreadyComplete)
        } else {
            Ok(CompletionOutcome::Completed { premature })
        }
    }
}

impl Session for SendSession {
    closed spec fn spec_token(&self) -> Seq<char> {
        self.core.spec_token()
    }

    closed spec fn spec_key(&self) -> Seq<u8> {
        self.core.spec_key()
    }

    closed spec fn spec_session_state(&self) -> SessionState {
        self.core.spec_session_state()
    }

    closed spec fn session_wf(&self) -> bool {
        self.core.wf()
    }

    fn token(&self) -> (t: &str) {
        self.core.token()
    }

    fn session_key_b64(&self) -> (s: String) {
        self.core.session_key_b64()
    }

    fn claim(&mut self, token: &str, client_id: &str) -> (r: bool) {
        self.core.claim(token, client_id)
    }

    fn is_active(&self, token: &str, client_id: &str) -> (r: bool) {
        self.core.is_active(token, client_id)
    }

    fn complete(&mut self, token: &str, client_id: &str) -> (r: bool) {
        self.core.complete(token, client_id)
    }
}

} // verus!
