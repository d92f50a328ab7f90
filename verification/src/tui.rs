//! The data the terminal UI renders: per-file and aggregate progress, and
//! its static configuration.

use crate::config::Transport;
use vstd::prelude::*;

verus! {

/// Status of an individual file transfer; the payload of `InProgress` is a
/// percentage in whole points.
#[derive(Clone, Debug, PartialEq)]
pub enum FileStatus {
    Waiting,
    InProgress(u64),
    Complete,
    Failed(String),
}

/// Progress of a single file.
#[derive(Clone, Debug)]
pub struct FileProgress {
    pub filename: String,
    pub status: FileStatus,
}

/// Aggregate transfer progress shown in the UI.
#[derive(Clone, Debug, Default)]
pub struct TransferProgress {
    pub files: Vec<FileProgress>,
    pub completed: usize,
    pub total: usize,
}

impl TransferProgress {
    /// A transfer is complete once it has a known, reached total.
    pub fn is_complete(&self) -> (r: bool)
        ensures
            r == (self.total > 0 && self.completed >= self.total),
    {
        self.total > 0 && self.completed >= self.total
    }
}

/// Static configuration handed to the terminal UI at startup.
#[derive(Clone, Debug)]
pub struct TuiConfig {
    pub is_receiving: bool,
    pub transport: Transport,
    pub url: String,
    pub qr_code: String,
    pub display_name: String,
    pub show_qr: bool,
    pub show_url: bool,
}

} // verus!
