//! The receive-side session: manifest intake with path-safety validation,
//! chunk acceptance with AEAD verification and offset placement, and
//! finalization.
//!
//! Chunks may arrive in any order: each one is written at offset
//! `chunk_index * chunk_size`, and a file whose every chunk range holds the
//! right bytes equals the sender's file.

use crate::crypto::{open_of, spec_nonce_bytes, EncryptionKey};
use crate::errors::AppError;
use crate::manifest::{chunk_bounds, FileEntry, Manifest};
use crate::security::{spec_validate_filename, validate_filename};
use crate::send::spec_chunk_in_range;
use crate::session::{spec_active, Session, SessionCore, SessionState};
use crate::text::{is_blank, spec_is_blank};
use vstd::hash_set::HashSetWithView;
use vstd::prelude::*;

verus! {

broadcast use vstd::std_specs::hash::group_hash_axioms;

/// A manifest entry the receiver accepts: a safe bare filename and an
/// 8-byte nonce base.
pub open spec fn spec_file_ok(f: FileEntry) -> bool {
    spec_validate_filename(f.name@) is Ok && f.nonce.wf()
}

pub open spec fn spec_files_ok(files: Seq<FileEntry>) -> bool {
    forall|i: int| 0 <= i < files.len() ==> spec_file_ok(#[trigger] files[i])
}

/// No two manifest entries may claim the same file index.
pub open spec fn spec_indices_unique(files: Seq<FileEntry>) -> bool {
    forall|i: int, j: int|
        0 <= i < j < files.len() ==> (#[trigger] files[i]).index != (#[trigger] files[j]).index
}

/// The plaintext length of chunk `chunk_index` of a file of `size` bytes.
pub open spec fn spec_chunk_len(size: u64, chunk_size: u64, chunk_index: int) -> int {
    if chunk_index * chunk_size + chunk_size <= size {
        chunk_size as int
    } else {
        size - chunk_index * chunk_size
    }
}

/// One decrypted chunk, ready to be written at its offset.
#[derive(Debug)]
pub struct ChunkWrite {
    /// Which file the bytes belong to.
    pub file_index: usize,
    /// The byte offset `chunk_index * chunk_size` to write at.
    pub offset: u64,
    /// The decrypted plaintext.
    pub data: Vec<u8>,
}

/// The receive-side session: the shared claim core plus the destination,
/// the manifest once the client posts it, and the received-chunk counter.
pub struct ReceiveSession {
    core: SessionCore,
    destination: String,
    manifest: Option<Manifest>,
    total_chunks: u64,
    chunks_received: u64,
    finalized: HashSetWithView<u64>,
}

impl ReceiveSession {
    pub closed spec fn spec_destination(&self) -> Seq<char> {
        self.destination@
    }

    pub closed spec fn spec_manifest(&self) -> Option<Manifest> {
        self.manifest
    }

    pub closed spec fn spec_total(&self) -> u64 {
        self.total_chunks
    }

    pub closed spec fn spec_chunks_received(&self) -> u64 {
        self.chunks_received
    }

    /// The file indices already finalized.
    pub closed spec fn spec_finalized(&self) -> Set<u64> {
        self.finalized@
    }

    pub closed spec fn spec_session_wf(&self) -> bool {
        self.core.wf()
    }

    pub open spec fn wf(&self) -> bool {
        &&& self.spec_session_wf()
        &&& (self.spec_manifest() matches Some(m) ==> m.wf())
    }

    /// A new unclaimed receive session for a destination directory; the
    /// manifest and the expected chunk count arrive later from the client.
    pub fn new(destination: String, session_key: EncryptionKey) -> (s: Self)
        ensures
            s.spec_session_state() is Unclaimed,
            s.spec_key() == session_key.spec_bytes(),
            s.spec_token().len() == 32,
            s.spec_destination() == destination@,
            s.spec_manifest() is None,
            s.spec_total() == 0,
            s.spec_chunks_received() == 0,
            s.spec_finalized() == Set::<u64>::empty(),
            s.spec_session_wf() == session_key.wf(),
            s.wf() == session_key.wf(),
    {
        ReceiveSession {
            core: SessionCore::new(session_key),
            destination,
            manifest: None,
            total_chunks: 0,
            chunks_received: 0,
            finalized: HashSetWithView::new(),
        }
    }

    /// The destination directory received files are placed under.
    pub fn destination(&self) -> (d: &str)
        ensures
            d@ == self.spec_destination(),
    {
        self.destination.as_str()
    }

    /// Whether the client has posted its manifest yet.
    pub fn has_manifest(&self) -> (r: bool)
        ensures
            r == (self.spec_manifest() is Some),
    {
        self.manifest.is_some()
    }

    /// The manifest the client posted, if any.
    pub fn manifest(&self) -> (m: &Option<Manifest>)
        ensures
            *m == self.spec_manifest(),
    {
        &self.manifest
    }

    pub fn get_chunks_received(&self) -> (r: u64)
        ensures
            r == self.spec_chunks_received(),
    {
        self.chunks_received
    }

    pub fn get_total_chunks(&self) -> (r: u64)
        ensures
            r == self.spec_total(),
    {
        self.total_chunks
    }

    /// Adopts the client-authored manifest, exactly once: every filename
    /// must be a safe bare name, every nonce base 8 bytes, file indices
    /// unique, and the total chunk count must fit 64 bits. The expected
    /// total is fixed from the file sizes and the chunk size.
    pub fn set_manifest(&mut self, m: Manifest) -> (r: Result<(), AppError>)
        ensures
            final(self).spec_token() == old(self).spec_token(),
            final(self).spec_key() == old(self).spec_key(),
            final(self).spec_session_state() == old(self).spec_session_state(),
            final(self).spec_session_wf() == old(self).spec_session_wf(),
            final(self).spec_destination() == old(self).spec_destination(),
            final(self).spec_chunks_received() == old(self).spec_chunks_received(),
            final(self).spec_finalized() == old(self).spec_finalized(),
            old(self).wf() ==> final(self).wf(),
            (r is Ok) == (old(self).spec_manifest() is None && m.config.chunk_size > 0
                && spec_files_ok(m.files@) && spec_indices_unique(m.files@)
                && crate::manifest::spec_total_chunks(m.files@, m.config.chunk_size) <= u64::MAX),
            r is Ok ==> final(self).spec_manifest() == Some(m) && final(self).spec_total()
                == crate::manifest::spec_total_chunks(m.files@, m.config.chunk_size),
            r is Err ==> final(self).spec_manifest() == old(self).spec_manifest() && final(self).spec_total() == old(self).spec_total(),
            r matches Err(e) ==> {
                if old(self).spec_manifest() is Some {
                    e is Conflict
                } else if m.config.chunk_size == 0 {
                    e is BadRequest
                } else if !spec_files_ok(m.files@) {
                    e is BadRequest
                } else if !spec_indices_unique(m.files@) {
                    e is Conflict
                } else {
                    e is BadRequest
                }
            },
    {
        if self.manifest.is_some() {
            return Err(AppError::Conflict("manifest already set".to_string()));
        }
        if m.config.chunk_size == 0 {
            return Err(AppError::BadRequest("chunk size must be positive".to_string()));
        }
        let n = m.files.len();
        let mut i: usize = 0;
        while i < n
            invariant
                *self == *old(self),
                old(self).spec_manifest() is None,
                m.config.chunk_size > 0,
                n == m.files@.len(),
                0 <= i <= n,
                forall|k: int| 0 <= k < i ==> spec_file_ok(#[trigger] m.files@[k]),
            decreases n - i,
        {
            let entry = &m.files[i];
            if validate_filename(entry.name.as_str()).is_err() {
                proof {
                    assert(!spec_file_ok(m.files@[i as int]));
                }
                return Err(AppError::BadRequest("unsafe filename in manifest".to_string()));
            }
            if entry.nonce.bytes().len() != 8 {
                proof {
                    assert(!spec_file_ok(m.files@[i as int]));
                }
                return Err(AppError::BadRequest("malformed nonce base in manifest".to_string()));
            }
            i = i + 1;
        }
        let mut a: usize = 1;
        while a < n
            invariant
                *self == *old(self),
                old(self).spec_manifest() is None,
                m.config.chunk_size > 0,
                spec_files_ok(m.files@),
                n == m.files@.len(),
                1 <= a <= n || n == 0,
                forall|x: int, y: int|
                    0 <= x < y < a ==> (#[trigger] m.files@[x]).index != (
                    #[trigger] m.files@[y]).index,
            decreases n - a,
        {
            let mut b: usize = 0;
            while b < a
                invariant
                    *self == *old(self),
                    old(self).spec_manifest() is None,
                    m.config.chunk_size > 0,
                    spec_files_ok(m.files@),
                    n == m.files@.len(),
                    0 <= b <= a < n,
                    forall|x: int|
                        0 <= x < b ==> (#[trigger] m.files@[x]).index != m.files@[a as int].index,
                decreases a - b,
            {
                if m.files[b].index == m.files[a].index {
                    proof {
                        assert(m.files@[b as int].index == m.files@[a as int].index && b < a);
                        assert(!spec_indices_unique(m.files@));
                    }
                    return Err(AppError::Conflict("duplicate file index in manifest".to_string()));
                }
                b = b + 1;
            }
            proof {
                let fs = m.files@;
                assert forall|x: int, y: int| 0 <= x < y < a + 1 implies (#[trigger] fs[x]).index
                    != (#[trigger] fs[y]).index by {
                    if y == a as int {
                        assert(fs[x].index != fs[a as int].index);
                    }
                }
            }
            a = a + 1;
        }
        match m.total_chunks() {
            None => Err(AppError::BadRequest("manifest chunk count overflows".to_string())),
            Some(total) => {
                self.total_chunks = total;
                self.manifest = Some(m);
                Ok(())
            },
        }
    }

    /// Accepts one chunk on an active session: validates its position,
    /// opens the ciphertext with the position-derived nonce, and hands back
    /// the bytes with the offset `chunk_index * chunk_size` they belong at.
    /// A ciphertext that fails authentication, like any other rejected
    /// request, changes nothing: no write is handed out and the counter
    /// stays.
    pub fn accept_chunk(
        &mut self,
        token: &str,
        client_id: &str,
        file_index: usize,
        chunk_index: usize,
        ciphertext: &[u8],
    ) -> (r: Result<ChunkWrite, AppError>)
        requires
            old(self).wf(),
            old(self).spec_chunks_received() < u64::MAX,
        ensures
            final(self).wf(),
            final(self).spec_token() == old(self).spec_token(),
            final(self).spec_key() == old(self).spec_key(),
            final(self).spec_session_state() == old(self).spec_session_state(),
            final(self).spec_session_wf() == old(self).spec_session_wf(),
            final(self).spec_destination() == old(self).spec_destination(),
            final(self).spec_manifest() == old(self).spec_manifest(),
            final(self).spec_total() == old(self).spec_total(),
            final(self).spec_finalized() == old(self).spec_finalized(),
            (r is Ok) == (!spec_is_blank(client_id@) && spec_active(
                old(self).spec_session_state(),
                old(self).spec_token(),
                token@,
                client_id@,
            ) && (old(self).spec_manifest() matches Some(m) && spec_chunk_in_range(
                m,
                file_index as int,
                chunk_index as int,
            ) && (open_of(
                old(self).spec_key(),
                spec_nonce_bytes(m.files@[file_index as int].nonce.spec_bytes(), chunk_index as u32),
                ciphertext@,
            ) matches Some(p) && p.len() == spec_chunk_len(
                m.files@[file_index as int].size,
                m.config.chunk_size,
                chunk_index as int,
            )))),
            r matches Ok(w) ==> (old(self).spec_manifest() matches Some(m) && {
                &&& w.file_index == file_index
                &&& w.offset == chunk_index * m.config.chunk_size
                &&& Some(w.data@) == open_of(
                    old(self).spec_key(),
                    spec_nonce_bytes(
                        m.files@[file_index as int].nonce.spec_bytes(),
                        chunk_index as u32,
                    ),
                    ciphertext@,
                )
                &&& w.offset + w.data@.len() <= m.files@[file_index as int].size
                &&& final(self).spec_chunks_received() == old(self).spec_chunks_received() + 1
            }),
            r matches Err(e) ==> final(self).spec_chunks_received() == old(self).spec_chunks_received() && (if !spec_is_blank(client_id@) && spec_active(
                old(self).spec_session_state(),
                old(self).spec_token(),
                token@,
                client_id@,
            ) {
                e is BadRequest
            } else {
                e is Unauthorized
            }),
    {
        if is_blank(client_id) {
            return Err(AppError::Unauthorized("client id cannot be empty".to_string()));
        }
        if !self.core.is_active(token, client_id) {
            return Err(AppError::Unauthorized("invalid or inactive session".to_string()));
        }
        let m = match &self.manifest {
            Some(m) => m,
            None => {
                return Err(AppError::BadRequest("no manifest set".to_string()));
            },
        };
        if file_index >= m.files.len() {
            return Err(AppError::BadRequest("file index out of bounds".to_string()));
        }
        if chunk_index > u32::MAX as usize {
            return Err(AppError::BadRequest("chunk out of range".to_string()));
        }
        let entry = &m.files[file_index];
        let (start, expected_len) = match chunk_bounds(
            entry.size,
            m.config.chunk_size,
            chunk_index as u64,
        ) {
            Ok(p) => p,
            Err(e) => {
                return Err(e);
            },
        };
        let plaintext = match crate::crypto::decrypt_chunk_at_position(
            self.core.key(),
            &entry.nonce,
            ciphertext,
            chunk_index as u32,
        ) {
            Ok(p) => p,
            Err(e) => {
                return Err(e);
            },
        };
        if plaintext.len() as u64 != expected_len {
            return Err(AppError::BadRequest("chunk length does not match its position".to_string()));
        }
        self.chunks_received = self.chunks_received + 1;
        Ok(ChunkWrite { file_index, offset: start, data: plaintext })
    }

    /// Checks a file after its writer was flushed: the size on disk must
    /// equal the declared size, and a file is finalized at most once.
    pub fn finalize(&mut self, file_index: usize, on_disk_size: u64) -> (r: Result<(), AppError>)
        ensures
            final(self).spec_token() == old(self).spec_token(),
            final(self).spec_key() == old(self).spec_key(),
            final(self).spec_session_state() == old(self).spec_session_state(),
            final(self).spec_session_wf() == old(self).spec_session_wf(),
            final(self).spec_destination() == old(self).spec_destination(),
            final(self).spec_manifest() == old(self).spec_manifest(),
            final(self).spec_total() == old(self).spec_total(),
            final(self).spec_chunks_received() == old(self).spec_chunks_received(),
            (r is Ok) == (old(self).spec_manifest() matches Some(m) && file_index
                < m.files@.len() && !old(self).spec_finalized().contains(file_index as u64)
                && m.files@[file_index as int].size == on_disk_size),
            r is Ok ==> final(self).spec_finalized() == old(self).spec_finalized().insert(
                file_index as u64,
            ),
            r is Err ==> final(self).spec_finalized() == old(self).spec_finalized(),
            r matches Err(e) ==> {
                if old(self).spec_manifest() matches Some(m) && file_index < m.files@.len()
                    && old(self).spec_finalized().contains(file_index as u64) {
                    e is Conflict
                } else {
                    e is BadRequest
                }
            },
    {
        let m = match &self.manifest {
            Some(m) => m,
            None => {
                return Err(AppError::BadRequest("no manifest set".to_string()));
            },
        };
        if file_index >= m.files.len() {
            return Err(AppError::BadRequest("file index out of bounds".to_string()));
        }
        if self.finalized.contains(&(file_index as u64)) {
            return Err(AppError::Conflict("file already finalized".to_string()));
        }
        if m.files[file_index].size != on_disk_size {
            return Err(AppError::BadRequest("file size does not match manifest".to_string()));
        }
        self.finalized.insert(file_index as u64);
        Ok(())
    }

    /// Completes the transfer for the claiming client once every expected
    /// chunk has arrived; repeating the call succeeds again and the state
    /// stays completed.
    pub fn complete_transfer(&mut self, token: &str, client_id: &str) -> (r: Result<(), AppError>)
        ensures
            final(self).spec_token() == old(self).spec_token(),
            final(self).spec_key() == old(self).spec_key(),
            final(self).spec_session_wf() == old(self).spec_session_wf(),
            final(self).spec_destination() == old(self).spec_destination(),
            final(self).spec_manifest() == old(self).spec_manifest(),
            final(self).spec_total() == old(self).spec_total(),
            final(self).spec_chunks_received() == old(self).spec_chunks_received(),
            final(self).spec_finalized() == old(self).spec_finalized(),
            (r is Ok) == (!spec_is_blank(client_id@) && spec_active(
                old(self).spec_session_state(),
                old(self).spec_token(),
                token@,
                client_id@,
            ) && old(self).spec_manifest() is Some && old(self).spec_chunks_received() >= old(self).spec_total()),
            r is Ok ==> (final(self).spec_session_state() matches SessionState::Completed(c) && c@
                == client_id@),
            r is Err ==> final(self).spec_session_state() == old(self).spec_session_state(),
            r matches Err(e) ==> {
                if !spec_is_blank(client_id@) && spec_active(
                    old(self).spec_session_state(),
                    old(self).spec_token(),
                    token@,
                    client_id@,
                ) {
                    e is BadRequest
                } else {
                    e is Unauthorized
                }
            },
    {
        if is_blank(client_id) {
            return Err(AppError::Unauthorized("client id cannot be empty".to_string()));
        }
        if !self.core.is_active(token, client_id) {
            return Err(AppError::Unauthorized("invalid or inactive session".to_string()));
        }
        if self.manifest.is_none() {
            return Err(AppError::BadRequest("no manifest set".to_string()));
        }
        if self.chunks_received < self.total_chunks {
            return Err(AppError::BadRequest("transfer incomplete".to_string()));
        }
        self.core.complete(token, client_id);
        Ok(())
    }
}

/// Chunk `j` of a byte sequence cut into `chunk_size` pieces: the bytes
/// from `j * chunk_size` to the next chunk boundary or the end.
pub open spec fn spec_chunk_of(file: Seq<u8>, chunk_size: int, j: int) -> Seq<u8>
    recommends
        chunk_size > 0,
        0 <= j,
        j * chunk_size < file.len(),
{
    file.subrange(
        j * chunk_size,
        if j * chunk_size + chunk_size <= file.len() {
            j * chunk_size + chunk_size
        } else {
            file.len() as int
        },
    )
}

/// Writes `data` into `buf` at `offset`, leaving every byte outside the
/// written range unchanged — the positioned write chunks are placed with.
pub fn write_chunk_at(buf: &mut Vec<u8>, offset: usize, data: &[u8])
    requires
        offset + data@.len() <= old(buf)@.len(),
    ensures
        final(buf)@.len() == old(buf)@.len(),
        forall|k: int| 0 <= k < offset ==> final(buf)@[k] == old(buf)@[k],
        forall|k: int| 0 <= k < data@.len() ==> final(buf)@[offset + k] == data@[k],
        forall|k: int|
            offset + data@.len() <= k < old(buf)@.len() ==> final(buf)@[k] == old(buf)@[k],
{
    let n = data.len();
    let total = buf.len();
    let mut i: usize = 0;
    while i < n
        invariant
            n == data@.len(),
            total == buf@.len(),
            offset + n <= buf@.len(),
            buf@.len() == old(buf)@.len(),
            0 <= i <= n,
            forall|k: int| 0 <= k < offset ==> buf@[k] == old(buf)@[k],
            forall|k: int| 0 <= k < i ==> buf@[offset + k] == data@[k],
            forall|k: int| offset + n <= k < buf@.len() ==> buf@[k] == old(buf)@[k],
        decreases n - i,
    {
        buf[offset + i] = data[i];
        i = i + 1;
    }
}

/// Positional independence: once every chunk range of `out` holds the
/// matching chunk of `file`, `out` equals `file` byte for byte. The
/// hypothesis does not mention any delivery order, so a receiver that wrote
/// each chunk at its offset reproduces the sender's bytes under every
/// permutation of chunk arrival.
pub proof fn lemma_chunks_reassemble(file: Seq<u8>, out: Seq<u8>, chunk_size: int)
    requires
        chunk_size > 0,
        out.len() == file.len(),
        forall|j: int|
            0 <= j && j * chunk_size < file.len() ==> #[trigger] spec_chunk_of(out, chunk_size, j)
                == spec_chunk_of(file, chunk_size, j),
    ensures
        out == file,
{
    assert forall|x: int| 0 <= x < file.len() implies out[x] == file[x] by {
        let j = x / chunk_size;
        let r = x % chunk_size;
        vstd::arithmetic::div_mod::lemma_fundamental_div_mod(x, chunk_size);
        vstd::arithmetic::div_mod::lemma_mod_bound(x, chunk_size);
        assert(x == chunk_size * j + r);
        assert(j >= 0) by (nonlinear_arith)
            requires
                chunk_size > 0,
                0 <= r < chunk_size,
                x == chunk_size * j + r,
                x >= 0,
        ;
        assert(j * chunk_size <= x) by (nonlinear_arith)
            requires
                x == chunk_size * j + r,
                r >= 0,
        ;
        assert(j * chunk_size < file.len());
        assert(spec_chunk_of(out, chunk_size, j) == spec_chunk_of(file, chunk_size, j));
        assert(x < j * chunk_size + chunk_size) by (nonlinear_arith)
            requires
                x == chunk_size * j + r,
                r < chunk_size,
        ;
        let hi = if j * chunk_size + chunk_size <= file.len() {
            j * chunk_size + chunk_size
        } else {
            file.len() as int
        };
        assert(j * chunk_size + r == x) by (nonlinear_arith)
            requires
                x == chunk_size * j + r,
        ;
        assert(x < hi);
        assert(0 <= r < hi - j * chunk_size);
        assert(spec_chunk_of(file, chunk_size, j)[r] == file[j * chunk_size + r]);
        assert(spec_chunk_of(out, chunk_size, j)[r] == out[j * chunk_size + r]);
        assert(out[x] == file[x]);
    }
    assert(out =~= file);
}

impl Session for ReceiveSession {
    closed spec fn spec_token(&self) -> Seq<char> {
        self.core.spec_token()
    }

    closed spec fn spec_key(&self) -> Seq<u8> {
        self.core.spec_key()
    }

    closed spec fn spec_session_state(&self) -> SessionState {
        self.core.spec_session_state()
    }

    closed spec fn session_wf(&self) -> bool {
        self.core.wf()
    }

    fn token(&self) -> (t: &str) {
        self.core.token()
    }

    fn session_key_b64(&self) -> (s: String) {
        self.core.session_key_b64()
    }

    fn claim(&mut self, token: &str, client_id: &str) -> (r: bool) {
        self.core.claim(token, client_id)
    }

    fn is_active(&self, token: &str, client_id: &str) -> (r: bool) {
        self.core.is_active(token, client_id)
    }

    fn complete(&mut self, token: &str, client_id: &str) -> (r: bool) {
        self.core.complete(token, client_id)
    }
}

} // verus!
