//! Core engine of a bounded-concurrency download gateway.
//!
//! The library holds the decision logic of the service: admission control
//! under a fixed concurrency budget, credential freshness coordination,
//! downloader command construction, bounded diagnostic capture, output
//! judgment, and the per-request resource lifecycle. The surrounding
//! process (HTTP routing, subprocess spawning, filesystem access) feeds
//! these functions plain observations and carries out the actions they
//! decide on.

pub mod admission;
pub mod command;
pub mod config;
pub mod credential;
pub mod errors;
pub mod handlers;
pub mod job;
pub mod media;
pub mod outcome;
pub mod tail;
pub mod text;
pub mod util;

use vstd::prelude::*;

verus! {

/// Number of bytes read per chunk when streaming a finished output file.
pub const STREAM_CHUNK_BYTES: usize = 65536;

} // verus!
