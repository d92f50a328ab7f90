//! The manifest of one transfer: the ordered file list with sizes and
//! per-file nonce bases, and the chunk arithmetic derived from it.

use crate::config::TransferConfig;
use crate::crypto::Nonce;
use crate::errors::AppError;
use vstd::prelude::*;

verus! {

/// One file in a transfer, immutable once the manifest is built.
pub struct FileEntry {
    /// Position of the file in the manifest.
    pub index: u32,
    /// The name shown to and written by the peer.
    pub name: String,
    /// Where the file lives locally (send side only).
    pub full_path: String,
    /// Size in bytes.
    pub size: u64,
    /// The file's 8-byte nonce base.
    pub nonce: Nonce,
}

impl FileEntry {
    pub open spec fn wf(&self) -> bool {
        self.nonce.wf()
    }
}

/// How many chunks a file of `size` bytes has when cut into `chunk_size`
/// pieces: the ceiling of their quotient.
pub open spec fn spec_chunks_for_size(size: u64, chunk_size: u64) -> int
    recommends
        chunk_size > 0,
{
    (size + chunk_size - 1) / (chunk_size as int)
}

/// The chunk count of the first `i` files summed up.
pub open spec fn spec_total_chunks_prefix(files: Seq<FileEntry>, chunk_size: u64, i: int) -> int
    decreases i,
{
    if i <= 0 {
        0
    } else {
        spec_total_chunks_prefix(files, chunk_size, i - 1) + spec_chunks_for_size(
            files[i - 1].size,
            chunk_size,
        )
    }
}

/// The total chunk count of a transfer: the per-file counts summed up.
pub open spec fn spec_total_chunks(files: Seq<FileEntry>, chunk_size: u64) -> int {
    spec_total_chunks_prefix(files, chunk_size, files.len() as int)
}

/// Every prefix sum is at most the total: each file contributes a
/// nonnegative chunk count.
pub proof fn lemma_total_chunks_prefix_le(files: Seq<FileEntry>, chunk_size: u64, i: int)
    requires
        chunk_size > 0,
        0 <= i <= files.len(),
    ensures
        spec_total_chunks_prefix(files, chunk_size, i) <= spec_total_chunks(files, chunk_size),
        spec_total_chunks_prefix(files, chunk_size, i) >= 0,
    decreases files.len() - i,
{
    if i < files.len() {
        lemma_total_chunks_prefix_le(files, chunk_size, i + 1);
    }
    if i > 0 {
        lemma_total_chunks_prefix_nonneg(files, chunk_size, i);
    }
}

proof fn lemma_total_chunks_prefix_nonneg(files: Seq<FileEntry>, chunk_size: u64, i: int)
    requires
        chunk_size > 0,
        0 <= i,
    ensures
        spec_total_chunks_prefix(files, chunk_size, i) >= 0,
    decreases i,
{
    if i > 0 {
        lemma_total_chunks_prefix_nonneg(files, chunk_size, i - 1);
    }
}

/// Ceiling division, computed without overflowing: `size / chunk_size`,
/// plus one when there is a remainder.
pub fn chunks_for_size(size: u64, chunk_size: u64) -> (r: u64)
    requires
        chunk_size > 0,
    ensures
        r == spec_chunks_for_size(size, chunk_size),
{
    let q = size / chunk_size;
    let rem = size % chunk_size;
    if rem == 0 {
        assert(q == (size + chunk_size - 1) / (chunk_size as int)) by (nonlinear_arith)
            requires
                chunk_size > 0,
                q == size as int / chunk_size as int,
                size as int % chunk_size as int == 0,
        ;
        q
    } else {
        assert(q + 1 == (size + chunk_size - 1) / (chunk_size as int) && q < u64::MAX)
            by (nonlinear_arith)
            requires
                chunk_size > 0,
                size <= u64::MAX,
                q == size as int / chunk_size as int,
                size as int % chunk_size as int != 0,
        ;
        q + 1
    }
}

/// The ordered file list of a transfer with its settings, immutable once
/// built.
pub struct Manifest {
    pub files: Vec<FileEntry>,
    pub config: TransferConfig,
}

impl Manifest {
    pub open spec fn wf(&self) -> bool {
        &&& self.config.chunk_size > 0
        &&& forall|i: int| 0 <= i < self.files@.len() ==> (#[trigger] self.files@[i]).wf()
    }

    pub fn new(files: Vec<FileEntry>, config: TransferConfig) -> (m: Self)
        ensures
            m.files == files,
            m.config == config,
    {
        Manifest { files, config }
    }

    /// The total chunk count of the transfer under its own chunk size, or
    /// `None` when the sum does not fit in 64 bits.
    pub fn total_chunks(&self) -> (r: Option<u64>)
        requires
            self.config.chunk_size > 0,
        ensures
            r matches Some(t) ==> t == spec_total_chunks(self.files@, self.config.chunk_size),
            (r is None) == (spec_total_chunks(self.files@, self.config.chunk_size) > u64::MAX),
    {
        let n = self.files.len();
        let mut total: u64 = 0;
        let mut i: usize = 0;
        while i < n
            invariant
                n == self.files@.len(),
                0 <= i <= n,
                self.config.chunk_size > 0,
                total == spec_total_chunks_prefix(self.files@, self.config.chunk_size, i as int),
            decreases n - i,
        {
            let c = chunks_for_size(self.files[i].size, self.config.chunk_size);
            match total.checked_add(c) {
                Some(t) => {
                    total = t;
                },
                None => {
                    proof {
                        lemma_total_chunks_prefix_le(
                            self.files@,
                            self.config.chunk_size,
                            i as int + 1,
                        );
                    }
                    return None;
                },
            }
            i = i + 1;
        }
        Some(total)
    }

    /// Bounds-safe access to a file entry.
    pub fn get_file(&self, index: usize) -> (r: Option<&FileEntry>)
        ensures
            r matches Some(f) ==> index < self.files@.len() && *f == self.files@[index as int],
            (r is None) == (index >= self.files@.len()),
    {
        if index < self.files.len() {
            Some(&self.files[index])
        } else {
            None
        }
    }
}

/// The byte range of one chunk inside a file: its start offset and length.
///
/// A request is in range exactly when `chunk_index * chunk_size` lies inside
/// the file; the chunk then runs to the next chunk boundary or the end of
/// the file, whichever comes first.
pub fn chunk_bounds(file_size: u64, chunk_size: u64, chunk_index: u64) -> (r: Result<
    (u64, u64),
    AppError,
>)
    requires
        chunk_size > 0,
    ensures
        (r is Ok) == (chunk_index * chunk_size < file_size),
        r matches Ok(p) ==> {
            &&& p.0 == chunk_index * chunk_size
            &&& p.1 == if p.0 + chunk_size <= file_size {
                chunk_size as int
            } else {
                file_size - p.0
            }
            &&& 1 <= p.1 <= chunk_size
        },
        r matches Err(e) ==> e is BadRequest,
{
    match chunk_index.checked_mul(chunk_size) {
        Some(start) => {
            if start >= file_size {
                Err(AppError::BadRequest("chunk out of range".to_string()))
            } else {
                let len = if chunk_size <= file_size - start {
                    chunk_size
                } else {
                    file_size - start
                };
                Ok((start, len))
            }
        },
        None => {
            proof {
                assert(chunk_index * chunk_size > u64::MAX >= file_size);
            }
            Err(AppError::BadRequest("chunk out of range".to_string()))
        },
    }
}

} // verus!
