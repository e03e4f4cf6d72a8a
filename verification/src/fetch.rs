//! The network fetcher's pure decisions: when an HTTP status counts as a
//! fetch failure, how often buffer progress is published, and how much
//! data must arrive before decoding starts.
//!
//! The fetch loop itself performs the HTTP streaming and the backpressure
//! sleeps; before each append it asks the byte buffer for a
//! `WriteDirective` and consults these rules.

use vstd::prelude::*;

verus! {

/// A `BufferProgress` event is published whenever the total byte count
/// crosses a multiple of this interval.
pub const PROGRESS_EVENT_INTERVAL: usize = 256 * 1024;

/// Decoding begins only once this many bytes have been buffered.
pub const INITIAL_BUFFER_BYTES: usize = 64 * 1024;

/// Whether an HTTP status code counts as success; any other status is a
/// fetch failure, surfaced to the session controller.
pub fn is_success_status(code: u16) -> (b: bool)
    ensures
        b == (200 <= code && code < 300),
{
    code >= 200 && code < 300
}

/// Whether a progress event is due after `total_bytes` bytes fetched.
pub fn should_emit_progress(total_bytes: usize) -> (b: bool)
    ensures
        b == (total_bytes % PROGRESS_EVENT_INTERVAL == 0),
{
    total_bytes % PROGRESS_EVENT_INTERVAL == 0
}

/// Whether enough initial data is buffered for the decoder to start
/// probing the container format.
pub fn has_initial_data(buffered: usize) -> (b: bool)
    ensures
        b == (buffered >= INITIAL_BUFFER_BYTES),
{
    buffered >= INITIAL_BUFFER_BYTES
}

} // verus!
