//! The bounded, shared byte queue between network ingestion and decoding.
//!
//! A `ByteBuffer` is an ordered sequence of bytes with a write end (the
//! network side appends) and a read cursor (the decode side advances).  The
//! invariant `read_cursor <= length` holds across every operation.  The
//! buffer is bounded by `MAX_BUFFER_BYTES`: when that is exceeded the oldest
//! data is evicted and the cursor shifted, saturating at zero.  Compaction
//! drops bytes before the cursor and resets it, preserving all unread data.

use vstd::prelude::*;

use crate::BACKPRESSURE_THRESHOLD;
use crate::CLEANUP_THRESHOLD;
use crate::MAX_BUFFER_BYTES;

verus! {

/// What the network side must do before appending the next chunk.
#[derive(Debug, Clone, Copy, PartialEq, Eq, Structural)]
pub enum WriteDirective {
    /// The buffer has room: append the chunk now.
    Proceed,
    /// The buffer is above the backpressure threshold: pause briefly,
    /// re-check cancellation, and ask again.
    Wait,
}

/// Bounded byte queue with a read cursor.
pub struct ByteBuffer {
    data: Vec<u8>,
    read_cursor: usize,
}

impl ByteBuffer {
    /// The whole buffered byte sequence, oldest first.
    pub closed spec fn bytes(self) -> Seq<u8> {
        self.data@
    }

    /// The read cursor as a mathematical integer.
    pub closed spec fn cursor(self) -> int {
        self.read_cursor as int
    }

    /// The buffer's invariant: the read cursor never exceeds the length.
    pub open spec fn wf(self) -> bool {
        0 <= self.cursor() <= self.bytes().len()
    }

    /// The bytes at and after the read cursor: what the decoder has not
    /// consumed yet.
    pub open spec fn unread(self) -> Seq<u8> {
        self.bytes().subrange(self.cursor(), self.bytes().len() as int)
    }

    pub fn new() -> (b: ByteBuffer)
        ensures
            b.wf(),
            b.bytes() == Seq::<u8>::empty(),
            b.cursor() == 0,
    {
        ByteBuffer { data: Vec::new(), read_cursor: 0 }
    }

    /// Number of buffered bytes (read and unread).
    pub fn len(&self) -> (n: usize)
        ensures
            n == self.bytes().len(),
    {
        self.data.len()
    }

    /// Current read cursor.
    pub fn position(&self) -> (p: usize)
        ensures
            p == self.cursor(),
    {
        self.read_cursor
    }

    /// Appends a chunk at the write end, in arrival order.
    pub fn write(&mut self, chunk: &[u8])
        requires
            old(self).wf(),
        ensures
            final(self).wf(),
            final(self).bytes() == old(self).bytes() + chunk@,
            final(self).cursor() == old(self).cursor(),
    {
        self.data.extend_from_slice(chunk);
        proof {
            assert(final(self).bytes() =~= old(self).bytes() + chunk@);
        }
    }

    /// Returns up to `max_len` unread bytes starting at the cursor and
    /// advances the cursor past them.  An empty result means "no data yet",
    /// not end of stream.  Never blocks and never fails.
    pub fn read(&mut self, max_len: usize) -> (out: Vec<u8>)
        requires
            old(self).wf(),
        ensures
            final(self).wf(),
            final(self).bytes() == old(self).bytes(),
            out@.len() == vstd::math::min(max_len as int, old(self).unread().len() as int),
            out@ == old(self).unread().take(out@.len() as int),
            final(self).cursor() == old(self).cursor() + out@.len(),
    {
        let total: usize = self.data.len();
        let avail: usize = total - self.read_cursor;
        let n: usize = if max_len < avail {
            max_len
        } else {
            avail
        };
        let mut out: Vec<u8> = Vec::new();
        let mut i: usize = 0;
        while i < n
            invariant
                self.wf(),
                total == self.data@.len(),
                n <= total - self.read_cursor,
                i <= n,
                self == old(self),
                out@ == self.data@.subrange(self.read_cursor as int, self.read_cursor + i as int),
            decreases n - i,
        {
            out.push(self.data[self.read_cursor + i]);
            i = i + 1;
            proof {
                assert(out@ =~= self.data@.subrange(
                    self.read_cursor as int,
                    self.read_cursor + i as int,
                ));
            }
        }
        self.read_cursor = self.read_cursor + n;
        proof {
            assert(out@ =~= old(self).unread().take(out@.len() as int));
        }
        out
    }

    /// Drops the bytes before the read cursor and resets the cursor to zero.
    /// Every previously-unread byte is preserved, in order.
    pub fn compact(&mut self)
        requires
            old(self).wf(),
        ensures
            final(self).wf(),
            final(self).cursor() == 0,
            final(self).bytes() == old(self).unread(),
            final(self).unread() == old(self).unread(),
    {
        let rest: Vec<u8> = self.data.split_off(self.read_cursor);
        self.data = rest;
        self.read_cursor = 0;
        proof {
            assert(final(self).unread() =~= final(self).bytes());
        }
    }

    /// Drops the `count` oldest bytes of the whole buffer and shifts the read
    /// cursor by the same amount, saturating at zero.  Used only under
    /// emergency overflow; unread data may be lost, but only from the oldest
    /// end, and nothing is reordered.
    pub fn evict_oldest(&mut self, count: usize)
        requires
            old(self).wf(),
            count <= old(self).bytes().len(),
        ensures
            final(self).wf(),
            final(self).bytes() == old(self).bytes().skip(count as int),
            final(self).cursor() == vstd::math::max(old(self).cursor() - count, 0),
    {
        let rest: Vec<u8> = self.data.split_off(count);
        self.data = rest;
        self.read_cursor = if self.read_cursor >= count {
            self.read_cursor - count
        } else {
            0
        };
        proof {
            assert(final(self).bytes() =~= old(self).bytes().skip(count as int));
        }
    }

    /// Enforces the hard memory ceiling: while the buffer holds
    /// `MAX_BUFFER_BYTES` or more after exceeding it, the oldest quarter is
    /// evicted.  Returns the total number of bytes dropped.  If the buffer
    /// was within the ceiling, nothing changes.
    pub fn enforce_capacity(&mut self) -> (dropped: usize)
        requires
            old(self).wf(),
        ensures
            final(self).wf(),
            dropped <= old(self).bytes().len(),
            final(self).bytes() == old(self).bytes().skip(dropped as int),
            final(self).bytes().len() == old(self).bytes().len() - dropped,
            final(self).cursor() == vstd::math::max(old(self).cursor() - dropped, 0),
            old(self).bytes().len() > MAX_BUFFER_BYTES ==> final(self).bytes().len()
                < MAX_BUFFER_BYTES,
            old(self).bytes().len() <= MAX_BUFFER_BYTES ==> dropped == 0 && *final(self)
                == *old(self),
    {
        let mut dropped: usize = 0;
        let initial_len: usize = self.data.len();
        if initial_len > MAX_BUFFER_BYTES {
            while self.data.len() >= MAX_BUFFER_BYTES
                invariant
                    self.wf(),
                    initial_len == old(self).bytes().len(),
                    dropped + self.bytes().len() == initial_len,
                    self.bytes() == old(self).bytes().skip(dropped as int),
                    self.cursor() == vstd::math::max(old(self).cursor() - dropped, 0),
                decreases self.bytes().len(),
            {
                let quarter: usize = self.data.len() / 4;
                let ghost pre = *self;
                let ghost d0: int = dropped as int;
                self.evict_oldest(quarter);
                dropped = dropped + quarter;
                proof {
                    assert(self.bytes() =~= old(self).bytes().skip(dropped as int));
                    assert(self.cursor() == vstd::math::max(old(self).cursor() - dropped, 0)) by {
                        assert(pre.cursor() == vstd::math::max(old(self).cursor() - d0, 0));
                        assert(self.cursor() == vstd::math::max(pre.cursor() - quarter, 0));
                    }
                }
            }
        }
        dropped
    }

    /// Admission control run by the network side before appending a chunk.
    /// Compacts once the cursor has passed `CLEANUP_THRESHOLD`, evicts under
    /// emergency overflow, and reports whether the writer should pause for
    /// backpressure.  Unread data only ever shrinks from its oldest end and
    /// is never reordered.
    pub fn prepare_for_write(&mut self) -> (d: WriteDirective)
        requires
            old(self).wf(),
        ensures
            final(self).wf(),
            final(self).unread() == old(self).unread().skip(
                old(self).unread().len() - final(self).unread().len(),
            ),
            final(self).unread().len() <= old(self).unread().len(),
            final(self).bytes().len() <= old(self).bytes().len(),
            d == WriteDirective::Proceed <==> final(self).bytes().len()
                <= BACKPRESSURE_THRESHOLD,
            old(self).bytes().len() > MAX_BUFFER_BYTES ==> final(self).bytes().len()
                <= MAX_BUFFER_BYTES,
            old(self).cursor() > CLEANUP_THRESHOLD ==> final(self).cursor() == 0
                && final(self).bytes().len() <= old(self).unread().len(),
    {
        let ghost u0: Seq<u8> = old(self).unread();
        if self.position() > CLEANUP_THRESHOLD {
            self.compact();
        }
        let ghost c_cursor: int = self.cursor();
        let ghost c_bytes: Seq<u8> = self.bytes();
        let dropped: usize = self.enforce_capacity();
        proof {
            // After compaction the unread bytes still equal `u0`; eviction
            // removes `dropped - cursor` of them when it digs past the cursor.
            assert(c_bytes.subrange(c_cursor, c_bytes.len() as int) =~= u0);
            let d: int = dropped as int;
            let c2: int = self.cursor();
            let lost: int = vstd::math::max(d - c_cursor, 0);
            assert(c2 + d == c_cursor + lost);
            assert(self.unread().len() == u0.len() - lost);
            assert forall|i: int| 0 <= i < self.unread().len() implies self.unread()[i]
                == u0.skip(lost)[i] by {
                assert(self.unread()[i] == self.bytes()[c2 + i]);
                assert(self.bytes()[c2 + i] == c_bytes[d + c2 + i]);
                assert(u0.skip(lost)[i] == u0[lost + i]);
                assert(u0[lost + i] == c_bytes[c_cursor + lost + i]);
            }
            assert(self.unread() =~= u0.skip(lost));
            assert(self.unread() =~= u0.skip(u0.len() - self.unread().len()));
        }
        if self.len() > BACKPRESSURE_THRESHOLD {
            WriteDirective::Wait
        } else {
            WriteDirective::Proceed
        }
    }
}

} // verus!
