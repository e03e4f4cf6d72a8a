//! The decode worker's control state: starvation backoff and error
//! classification.
//!
//! The decode loop runs on a dedicated worker and, each iteration, asks the
//! format reader for a packet and decodes it.  What happened is reported
//! here as a `DecodeEvent`; the controller decides what the worker does
//! next and keeps the backoff state.  Transient starvation (the buffer has
//! no new bytes yet) is not an error: it is answered with a bounded,
//! capped exponential backoff so the decoder does not give up during a
//! network hiccup.  A single corrupt frame is skipped; a format change or
//! decoder failure aborts the session attempt.

use vstd::prelude::*;

verus! {

/// Consecutive starvation reports tolerated before a long backoff sleep.
pub const MAX_CONSECUTIVE_EOF: u32 = 15;

/// Initial backoff delay, in milliseconds.
pub const BASE_BACKOFF_MS: u64 = 10;

/// Cap on the backoff delay, in milliseconds.
pub const MAX_BACKOFF_MS: u64 = 500;

/// What the last iteration of the decode loop observed.
#[derive(Debug, Clone, Copy, PartialEq, Eq, Structural)]
pub enum DecodeEvent {
    /// A packet arrived and decoded into a PCM frame.
    PacketDecoded,
    /// A packet arrived but its payload was corrupt (non-fatal).
    CorruptFrame,
    /// A packet arrived and the decoder failed fatally on it.
    DecoderFailed,
    /// No new bytes have reached the buffer yet.
    Starved,
    /// The format changed mid-stream and the reader must be rebuilt.
    ResetRequired,
    /// The format reader failed fatally.
    FormatFailed,
    /// The session's cancellation token fired.
    Cancelled,
}

/// Why the decode loop stops.
#[derive(Debug, Clone, Copy, PartialEq, Eq, Structural)]
pub enum StopReason {
    Cancelled,
    DecoderFailed,
    ResetRequired,
    FormatFailed,
}

/// What the decode worker must do next.
#[derive(Debug, Clone, Copy, PartialEq, Eq, Structural)]
pub enum DecodeAction {
    /// Convert the decoded frame to interleaved PCM and hand it to the sink
    /// queue.
    Deliver,
    /// Drop the corrupt frame and continue with the next packet.
    SkipFrame,
    /// Yield very briefly before asking for the next packet.
    BriefYield,
    /// Sleep for the given delay before retrying: the buffer is starved.
    Backoff { delay_ms: u64 },
    /// Leave the decode loop.
    Stop { reason: StopReason },
}

/// Starvation/backoff bookkeeping of the decode worker.
pub struct DecodeController {
    consecutive_eof: u32,
    backoff_ms: u64,
}

impl DecodeController {
    /// How many starvation reports arrived in a row.
    pub closed spec fn eof_count(self) -> int {
        self.consecutive_eof as int
    }

    /// The delay the next long backoff will sleep for.
    pub closed spec fn backoff(self) -> int {
        self.backoff_ms as int
    }

    /// The controller's invariant: the streak is bounded and the backoff
    /// delay stays between its base and its cap.
    pub open spec fn wf(self) -> bool {
        &&& 0 <= self.eof_count() <= MAX_CONSECUTIVE_EOF
        &&& BASE_BACKOFF_MS <= self.backoff() <= MAX_BACKOFF_MS
    }

    pub fn new() -> (c: DecodeController)
        ensures
            c.wf(),
            c.eof_count() == 0,
            c.backoff() == BASE_BACKOFF_MS,
    {
        DecodeController { consecutive_eof: 0, backoff_ms: BASE_BACKOFF_MS }
    }

    /// Advances the controller by one observed event and says what the
    /// worker does next.
    ///
    /// A packet arrival (decoded, corrupt or fatal) ends the starvation
    /// streak and resets the backoff.  A starvation report extends the
    /// streak; once the streak exceeds `MAX_CONSECUTIVE_EOF` the worker
    /// sleeps for the current backoff, and the delay doubles (plus a small
    /// deterministic jitter) up to `MAX_BACKOFF_MS`.  Fatal events and
    /// cancellation stop the loop.
    pub fn on_event(&mut self, ev: DecodeEvent) -> (a: DecodeAction)
        requires
            old(self).wf(),
        ensures
            final(self).wf(),
            ev == DecodeEvent::PacketDecoded ==> a == DecodeAction::Deliver
                && final(self).eof_count() == 0 && final(self).backoff() == BASE_BACKOFF_MS,
            ev == DecodeEvent::CorruptFrame ==> a == DecodeAction::SkipFrame
                && final(self).eof_count() == 0 && final(self).backoff() == BASE_BACKOFF_MS,
            ev == DecodeEvent::DecoderFailed ==> a == (DecodeAction::Stop {
                reason: StopReason::DecoderFailed,
            }) && final(self).eof_count() == 0 && final(self).backoff() == BASE_BACKOFF_MS,
            ev == DecodeEvent::ResetRequired ==> a == (DecodeAction::Stop {
                reason: StopReason::ResetRequired,
            }) && *final(self) == *old(self),
            ev == DecodeEvent::FormatFailed ==> a == (DecodeAction::Stop {
                reason: StopReason::FormatFailed,
            }) && *final(self) == *old(self),
            ev == DecodeEvent::Cancelled ==> a == (DecodeAction::Stop {
                reason: StopReason::Cancelled,
            }) && *final(self) == *old(self),
            ev == DecodeEvent::Starved && old(self).eof_count() + 1 <= MAX_CONSECUTIVE_EOF ==> a
                == DecodeAction::BriefYield && final(self).eof_count() == old(self).eof_count()
                + 1 && final(self).backoff() == old(self).backoff(),
            ev == DecodeEvent::Starved && old(self).eof_count() + 1 > MAX_CONSECUTIVE_EOF ==> {
                &&& a == (DecodeAction::Backoff { delay_ms: old(self).backoff() as u64 })
                &&& final(self).eof_count() == 0
                &&& final(self).backoff() == vstd::math::min(
                    old(self).backoff() * 2 + (old(self).eof_count() + 1) % 10,
                    MAX_BACKOFF_MS as int,
                )
            },
    {
        match ev {
            DecodeEvent::PacketDecoded => {
                self.consecutive_eof = 0;
                self.backoff_ms = BASE_BACKOFF_MS;
                DecodeAction::Deliver
            },
            DecodeEvent::CorruptFrame => {
                self.consecutive_eof = 0;
                self.backoff_ms = BASE_BACKOFF_MS;
                DecodeAction::SkipFrame
            },
            DecodeEvent::DecoderFailed => {
                self.consecutive_eof = 0;
                self.backoff_ms = BASE_BACKOFF_MS;
                DecodeAction::Stop { reason: StopReason::DecoderFailed }
            },
            DecodeEvent::ResetRequired => DecodeAction::Stop { reason: StopReason::ResetRequired },
            DecodeEvent::FormatFailed => DecodeAction::Stop { reason: StopReason::FormatFailed },
            DecodeEvent::Cancelled => DecodeAction::Stop { reason: StopReason::Cancelled },
            DecodeEvent::Starved => {
                let streak: u32 = self.consecutive_eof + 1;
                if streak > MAX_CONSECUTIVE_EOF {
                    let delay: u64 = self.backoff_ms;
                    let jitter: u64 = (streak % 10) as u64;
                    let doubled: u64 = self.backoff_ms * 2 + jitter;
                    self.backoff_ms = if doubled < MAX_BACKOFF_MS {
                        doubled
                    } else {
                        MAX_BACKOFF_MS
                    };
                    self.consecutive_eof = 0;
                    DecodeAction::Backoff { delay_ms: delay }
                } else {
                    self.consecutive_eof = streak;
                    DecodeAction::BriefYield
                }
            },
        }
    }
}

} // verus!
