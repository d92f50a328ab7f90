//! Chunked, authenticated peer-to-peer file transfer: session and claim state
//! machinery, deterministic per-chunk nonces, AES-256-GCM chunk sealing, the
//! send- and receive-side chunk pipelines, and the progress lifecycle.

pub mod auth;
pub mod buffer_pool;
pub mod config;
pub mod crypto;
pub mod encoding;
pub mod errors;
pub mod manifest;
pub mod progress;
pub mod receive;
pub mod security;
pub mod send;
pub mod session;
pub mod store;
pub mod text;
pub mod tui;

pub use auth::{claim_or_validate_session, require_active_session, ClientIdParam};
pub use buffer_pool::BufferPool;
pub use config::{get_transfer_config, ServerMode, TransferConfig, Transport};
pub use crypto::{
    decrypt_chunk_at_position, encrypt_chunk_at_position, EncryptionKey, Encryptor, Nonce,
};
pub use errors::AppError;
pub use manifest::{chunk_bounds, chunks_for_size, FileEntry, Manifest};
pub use progress::ProgressTracker;
pub use receive::{ChunkWrite, ReceiveSession};
pub use security::{
    hash_path, validate_filename, validate_path, validate_path_components, ValidationError,
};
pub use send::{ChunkParams, ChunkPlan, CompletionOutcome, SendSession};
pub use session::{Session, SessionCore, SessionState};
pub use store::{SessionData, SessionStore};
pub use tui::{FileProgress, FileStatus, TransferProgress, TuiConfig};
