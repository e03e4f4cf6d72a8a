//! Verified core of a continuous internet-radio playback engine.
//!
//! The crate models the streaming pipeline as plain data and verified
//! transition functions: a bounded byte buffer between network ingestion and
//! decoding, a pull-style media source adapter, a FIFO hand-off queue for
//! decoded PCM batches, the decoder's starvation/backoff controller, the
//! playback state machine with cooperative cancellation, and the
//! retry/reconnect controller.  Playlist resolution and the station catalog
//! helpers are verified here as well.  All network, device and decoding I/O
//! lives outside this crate and drives these functions with plain values.

pub mod actions;
pub mod buffer;
pub mod controller;
pub mod decoder;
pub mod events;
pub mod fetch;
pub mod player;
pub mod playlist;
pub mod queue;
pub mod source;
pub mod station;
pub mod text;

use vstd::prelude::*;

verus! {

/// Hard ceiling on the byte buffer: above this, the oldest data is evicted.
pub const MAX_BUFFER_BYTES: usize = 8 * 1024 * 1024;

/// Above this fill level the network side pauses briefly before appending,
/// letting the decoder catch up.
pub const BACKPRESSURE_THRESHOLD: usize = 6 * 1024 * 1024;

/// Once the read cursor has advanced past this many bytes, the buffer is
/// compacted so that already-read data does not accumulate.
pub const CLEANUP_THRESHOLD: usize = 2 * 1024 * 1024;

} // verus!
