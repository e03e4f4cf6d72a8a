//! Playback states, player events, and the single-slot event bus.
//!
//! The bus broadcasts only the most recent event: a slow observer may miss
//! intermediate events but always observes the latest, and a new subscriber
//! sees the latest event rather than history.

use vstd::prelude::*;

verus! {

/// The externally observable playback state.  Exactly one value holds at a
/// time.
#[derive(Debug, Clone, PartialEq)]
pub enum PlaybackState {
    Stopped,
    Playing,
    Paused,
    Connecting,
    Error(String),
}

/// An immutable notification value broadcast to observers.
#[derive(Debug, Clone, PartialEq)]
pub enum PlayerEvent {
    /// Starting connection to the given URL.
    Connecting(String),
    /// Successfully connected and decoding started.
    Connected,
    Stopped,
    Paused,
    Resumed,
    Error(String),
    /// Bytes buffered so far.
    BufferProgress(usize),
    /// In-stream metadata such as track titles.
    Metadata(String),
}

/// Single-slot, latest-value broadcast of player events.
pub struct EventBus {
    latest: PlayerEvent,
}

impl EventBus {
    /// The most recently sent event, which is what every observer sees.
    pub closed spec fn latest_event(self) -> PlayerEvent {
        self.latest
    }

    /// A fresh bus reports a stopped player until something is sent.
    pub fn new() -> (b: EventBus)
        ensures
            b.latest_event() == PlayerEvent::Stopped,
    {
        EventBus { latest: PlayerEvent::Stopped }
    }

    /// Replaces the slot: the new event is what observers see from now on;
    /// the previous event is gone.
    pub fn send(&mut self, ev: PlayerEvent)
        ensures
            final(self).latest_event() == ev,
    {
        self.latest = ev;
    }

    /// What a subscriber observes: always the latest event, never history.
    pub fn latest(&self) -> (ev: &PlayerEvent)
        ensures
            *ev == self.latest_event(),
    {
        &self.latest
    }
}

} // verus!
