//! Path safety validation for names that travel in manifests, and path
//! hashing for safe directory names.

use crate::encoding::{sha256_hex, sha256_hex_of};
use vstd::prelude::*;
use vstd::string::{StrSliceExecFns, StringSliceAdditionalSpecFns};

verus! {

/// Why a path or filename was rejected.
#[derive(Debug, PartialEq, Eq, Structural)]
pub enum ValidationError {
    /// The path contains a parent directory (`..`) component.
    ContainsParentDir,
    /// The path is absolute.
    AbsolutePath,
    /// The path contains a component that is neither a name nor `.`.
    InvalidComponent,
    /// The path contains a NUL byte.
    NullByte,
    /// The path is empty.
    Empty,
    /// The filename contains a directory separator.
    ContainsDirectorySeparator,
}

pub open spec fn spec_has_nul_upto(s: Seq<char>, m: int) -> bool {
    exists|k: int| 0 <= k < m && s[k] == '\u{0}'
}

pub open spec fn spec_has_nul(s: Seq<char>) -> bool {
    spec_has_nul_upto(s, s.len() as int)
}

pub open spec fn spec_has_separator_upto(s: Seq<char>, m: int) -> bool {
    exists|k: int| 0 <= k < m && (s[k] == '/' || s[k] == '\\')
}

pub open spec fn spec_has_separator(s: Seq<char>) -> bool {
    spec_has_separator_upto(s, s.len() as int)
}

/// Whether a parent-directory component `..` starts at position `i`: the two
/// dots stand between path separators (or the ends of the string).
pub open spec fn spec_parent_at(s: Seq<char>, i: int) -> bool {
    &&& 0 <= i
    &&& i + 2 <= s.len()
    &&& s[i] == '.'
    &&& s[i + 1] == '.'
    &&& (i == 0 || s[i - 1] == '/')
    &&& (i + 2 == s.len() || s[i + 2] == '/')
}

pub open spec fn spec_has_parent_upto(s: Seq<char>, m: int) -> bool {
    exists|k: int| 0 <= k < m && spec_parent_at(s, k)
}

pub open spec fn spec_has_parent_component(s: Seq<char>) -> bool {
    spec_has_parent_upto(s, s.len() as int)
}

/// What validating a relative path yields: empty paths, NUL bytes, absolute
/// paths and parent-directory components are rejected, in that order.
pub open spec fn spec_validate_path(s: Seq<char>) -> Result<(), ValidationError> {
    if s.len() == 0 {
        Err(ValidationError::Empty)
    } else if spec_has_nul(s) {
        Err(ValidationError::NullByte)
    } else if s[0] == '/' {
        Err(ValidationError::AbsolutePath)
    } else if spec_has_parent_component(s) {
        Err(ValidationError::ContainsParentDir)
    } else {
        Ok(())
    }
}

/// What validating a bare filename yields: everything a path must satisfy,
/// and no directory separators at all.
pub open spec fn spec_validate_filename(s: Seq<char>) -> Result<(), ValidationError> {
    match spec_validate_path(s) {
        Err(e) => Err(e),
        Ok(_) => if spec_has_separator(s) {
            Err(ValidationError::ContainsDirectorySeparator)
        } else {
            Ok(())
        },
    }
}

/// Core validation shared by `validate_path` and `validate_filename`:
/// rejects empty strings, NUL bytes, absolute paths and parent-directory
/// traversal.
pub fn validate_path_components(path_str: &str) -> (r: Result<(), ValidationError>)
    ensures
        r == spec_validate_path(path_str@),
{
    let n = path_str.unicode_len();
    if n == 0 {
        return Err(ValidationError::Empty);
    }
    let mut has_nul = false;
    let mut has_parent = false;
    let mut i: usize = 0;
    while i < n
        invariant
            n == path_str@.len(),
            0 <= i <= n,
            has_nul == spec_has_nul_upto(path_str@, i as int),
            has_parent == spec_has_parent_upto(path_str@, i as int),
        decreases n - i,
    {
        let c = path_str.get_char(i);
        if c == '\u{0}' {
            has_nul = true;
        }
        let parent_here = c == '.' && i + 1 < n && path_str.get_char(i + 1) == '.' && (i == 0
            || path_str.get_char(i - 1) == '/') && (i + 2 == n || path_str.get_char(i + 2) == '/');
        proof {
            assert(parent_here == spec_parent_at(path_str@, i as int));
        }
        if parent_here {
            has_parent = true;
        }
        proof {
            let s = path_str@;
            let m = i as int;
            if spec_has_parent_upto(s, m + 1) {
                let k = choose|k: int| 0 <= k < m + 1 && spec_parent_at(s, k);
                assert(k < m || k == m);
                assert(spec_has_parent_upto(s, m) || spec_parent_at(s, m));
            }
            if spec_has_nul_upto(s, m + 1) {
                let k = choose|k: int| 0 <= k < m + 1 && s[k] == '\u{0}';
                assert(spec_has_nul_upto(s, m) || s[m] == '\u{0}');
            }
        }
        i = i + 1;
    }
    if has_nul {
        Err(ValidationError::NullByte)
    } else if path_str.get_char(0) == '/' {
        Err(ValidationError::AbsolutePath)
    } else if has_parent {
        Err(ValidationError::ContainsParentDir)
    } else {
        Ok(())
    }
}

/// Validates a relative path received in a manifest: no parent-directory
/// traversal, no absolute paths, no NUL bytes.
pub fn validate_path(path: &str) -> (r: Result<(), ValidationError>)
    ensures
        r == spec_validate_path(path@),
{
    validate_path_components(path)
}

/// Validates a bare filename offered for sending: everything `validate_path`
/// checks, and no directory separators.
pub fn validate_filename(filename: &str) -> (r: Result<(), ValidationError>)
    ensures
        r == spec_validate_filename(filename@),
{
    match validate_path_components(filename) {
        Err(e) => Err(e),
        Ok(_) => {
            let n = filename.unicode_len();
            let mut i: usize = 0;
            while i < n
                invariant
                    n == filename@.len(),
                    0 <= i <= n,
                    spec_validate_path(filename@) is Ok,
                    !spec_has_separator_upto(filename@, i as int),
                decreases n - i,
            {
                let c = filename.get_char(i);
                if c == '/' || c == '\\' {
                    proof {
                        assert(filename@[i as int] == '/' || filename@[i as int] == '\\');
                        assert(spec_has_separator(filename@));
                    }
                    return Err(ValidationError::ContainsDirectorySeparator);
                }
                i = i + 1;
            }
            Ok(())
        },
    }
}

/// Hashes a path to a short stable name for a destination directory: the
/// first 16 hex characters of its SHA-256 digest.
pub fn hash_path(path: &str) -> (r: String)
    ensures
        r@ == sha256_hex_of(path.spec_bytes()).subrange(0, 16),
        r@.len() == 16,
{
    let hex = sha256_hex(path.as_bytes());
    let prefix = hex.as_str().substring_char(0, 16);
    prefix.to_owned()
}

} // verus!
