//! Transfer settings: chunk size and concurrency, tuned per transport.

use vstd::prelude::*;

verus! {

/// Settings for the chunked transfer: how large each chunk is and how many
/// chunk requests the client may keep in flight.
///
/// Local and tunneled transports use different values.
pub struct TransferConfig {
    pub chunk_size: u64,
    pub concurrency: usize,
}

impl TransferConfig {
    /// Settings for a transfer over the local network: 10 MiB chunks.
    pub fn local() -> (c: Self)
        ensures
            c.chunk_size == 10 * 1024 * 1024,
            c.concurrency == 8,
    {
        Self { chunk_size: 10 * 1024 * 1024, concurrency: 8 }
    }

    /// Settings for a transfer through a tunnel: 1 MiB chunks.
    pub fn tunnel() -> (c: Self)
        ensures
            c.chunk_size == 1024 * 1024,
            c.concurrency == 2,
    {
        Self { chunk_size: 1024 * 1024, concurrency: 2 }
    }
}

/// The transport a session runs over, as shown to the terminal UI.
#[derive(Clone, Copy, Debug)]
pub enum Transport {
    Local,
    Tunnel,
}

/// How the server is reached, chosen from the command line.
#[derive(Clone, Copy, Debug)]
pub enum ServerMode {
    Local,
    Tunnel,
}

/// Picks the transfer settings that match the server mode.
pub fn get_transfer_config(mode: &ServerMode) -> (c: TransferConfig)
    ensures
        match mode {
            ServerMode::Local => c.chunk_size == 10 * 1024 * 1024 && c.concurrency == 8,
            ServerMode::Tunnel => c.chunk_size == 1024 * 1024 && c.concurrency == 2,
        },
{
    match mode {
        ServerMode::Tunnel => TransferConfig::tunnel(),
        ServerMode::Local => TransferConfig::local(),
    }
}

} // verus!
