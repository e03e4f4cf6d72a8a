//! The pull-style, non-seekable byte source that the demux/decode stage
//! reads from.
//!
//! The adapter presents the shared `ByteBuffer` as a live stream: a read
//! that returns no bytes means "no data has arrived yet", never end of
//! stream, so the decoder backs off and retries instead of giving up during
//! a network hiccup.  Seeking is unsupported and fails explicitly.

use vstd::prelude::*;

use crate::buffer::ByteBuffer;

verus! {

/// Why a source operation was refused.
#[derive(Debug, Clone, Copy, PartialEq, Eq, Structural)]
pub enum SourceError {
    /// The stream is live and non-seekable.
    SeekUnsupported,
}

/// Pull-based facade over the byte buffer for the decode stage.
pub struct MediaSourceAdapter {
    /// The shared byte queue this adapter reads from; the network side
    /// appends to it between reads.
    pub buffer: ByteBuffer,
}

impl MediaSourceAdapter {
    pub open spec fn wf(self) -> bool {
        self.buffer.wf()
    }

    /// The bytes not yet handed to the decoder.
    pub open spec fn unread(self) -> Seq<u8> {
        self.buffer.unread()
    }

    pub fn new(buffer: ByteBuffer) -> (a: MediaSourceAdapter)
        requires
            buffer.wf(),
        ensures
            a.wf(),
            a.buffer == buffer,
    {
        MediaSourceAdapter { buffer }
    }

    /// Hands out up to `max_len` of the oldest unread bytes and advances the
    /// cursor past them.  An empty result means the buffer is momentarily
    /// starved, not that the stream ended.
    pub fn read(&mut self, max_len: usize) -> (out: Vec<u8>)
        requires
            old(self).wf(),
        ensures
            final(self).wf(),
            out@.len() == vstd::math::min(max_len as int, old(self).unread().len() as int),
            out@ == old(self).unread().take(out@.len() as int),
            final(self).unread() == old(self).unread().skip(out@.len() as int),
            final(self).buffer.bytes() == old(self).buffer.bytes(),
            old(self).unread().len() == 0 ==> out@.len() == 0,
    {
        let out = self.buffer.read(max_len);
        proof {
            assert(final(self).unread() =~= old(self).unread().skip(out@.len() as int));
        }
        out
    }

    /// The stream is live: it cannot be seeked.
    pub fn is_seekable(&self) -> (b: bool)
        ensures
            !b,
    {
        false
    }

    /// The total stream length is unknown for a live stream.
    pub fn byte_len(&self) -> (r: Option<u64>)
        ensures
            r is None,
    {
        None
    }

    /// Seeking always fails explicitly.
    pub fn seek(&mut self, _pos: u64) -> (r: Result<u64, SourceError>)
        ensures
            r == Err::<u64, SourceError>(SourceError::SeekUnsupported),
            *final(self) == *old(self),
    {
        Err(SourceError::SeekUnsupported)
    }
}

} // verus!
