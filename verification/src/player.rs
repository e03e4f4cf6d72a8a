//! The playback state machine, session bookkeeping and retry controller.
//!
//! One playback session exists per `play` command.  A session is named by a
//! monotonically increasing generation number, which doubles as the
//! cancellation token: a task created for generation `g` is live exactly
//! while `g` is the current generation and the session has not been stopped.
//! Reports from superseded or stopped sessions leave the model untouched, so
//! a stale task can never corrupt the state of its successor.
//!
//! The retry controller is explicit state (attempt counter, fixed delay):
//! a failed attempt is retried while auto-reconnect is on and attempts
//! remain below the ceiling; otherwise the session ends in `Error` with the
//! terminal failure reason.
//!
//! The functions here only decide; the caller performs the spawning,
//! sleeping and device work those decisions call for, and reports back.

use vstd::prelude::*;

use crate::events::PlaybackState;
use crate::events::PlayerEvent;

verus! {

/// Ceiling on attempts for one session; reaching it makes the failure
/// terminal.
pub const MAX_RETRY_ATTEMPTS: u32 = 5;

/// Fixed delay between session attempts, in milliseconds.
pub const RETRY_DELAY_MS: u64 = 2000;

/// What the session driver must do after reporting a failed attempt.
#[derive(Debug, Clone, Copy, PartialEq, Eq, Structural)]
pub enum RetryDecision {
    /// Wait for the delay (interruptibly), then start a fresh attempt
    /// against the same resolved URL.
    RetryAfter { delay_ms: u64 },
    /// The failure is terminal: stop retrying.
    GiveUp,
    /// The session was superseded or stopped: exit silently.
    Abandon,
}

/// The consolidated per-session state: current URL, playback state, output
/// handle flag, auto-reconnect setting, retry counter, and the generation
/// that names the live session.
pub struct PlayerModel {
    current_url: Option<String>,
    state: PlaybackState,
    has_sink: bool,
    auto_reconnect: bool,
    reconnect_attempts: u32,
    generation: u64,
    session_live: bool,
}

impl PlayerModel {
    /// The URL of the current session, if one is active.
    pub closed spec fn url(self) -> Option<String> {
        self.current_url
    }

    /// The externally observable playback state.
    pub closed spec fn playback(self) -> PlaybackState {
        self.state
    }

    /// Whether an output device handle is attached.
    pub closed spec fn sink_attached(self) -> bool {
        self.has_sink
    }

    /// Whether failed sessions are retried automatically.
    pub closed spec fn auto(self) -> bool {
        self.auto_reconnect
    }

    /// Failed attempts of the current session.
    pub closed spec fn attempts(self) -> int {
        self.reconnect_attempts as int
    }

    /// The generation number naming the current session.
    pub closed spec fn current_generation(self) -> u64 {
        self.generation
    }

    /// Whether a session is live at all (not stopped, not shut down).
    pub closed spec fn session_live(self) -> bool {
        self.session_live
    }

    /// Whether a task holding generation `g` is still the live session.
    /// This is the cancellation token: a task whose generation is stale
    /// observes itself as cancelled.
    pub open spec fn live(self, g: u64) -> bool {
        self.session_live() && g == self.current_generation()
    }

    /// The model's invariant: the retry counter never passes its ceiling,
    /// and a live session still has attempts left.
    pub open spec fn wf(self) -> bool {
        &&& 0 <= self.attempts() <= MAX_RETRY_ATTEMPTS
        &&& self.session_live() ==> self.attempts() < MAX_RETRY_ATTEMPTS
    }

    pub fn new() -> (m: PlayerModel)
        ensures
            m.wf(),
            m.url() is None,
            m.playback() == PlaybackState::Stopped,
            !m.sink_attached(),
            m.auto(),
            m.attempts() == 0,
            m.current_generation() == 0,
            !m.session_live(),
    {
        PlayerModel {
            current_url: None,
            state: PlaybackState::Stopped,
            has_sink: false,
            auto_reconnect: true,
            reconnect_attempts: 0,
            generation: 0,
            session_live: false,
        }
    }

    /// Stops playback: cancels the live session, releases the output
    /// handle, and resets the session bookkeeping.  Every outstanding task,
    /// of any generation, is cancelled.
    pub fn stop(&mut self) -> (ev: PlayerEvent)
        requires
            old(self).wf(),
        ensures
            final(self).wf(),
            final(self).url() is None,
            final(self).playback() == PlaybackState::Stopped,
            !final(self).sink_attached(),
            final(self).auto() == old(self).auto(),
            final(self).attempts() == 0,
            final(self).current_generation() == old(self).current_generation(),
            !final(self).session_live(),
            forall|g: u64| !final(self).live(g),
            ev == PlayerEvent::Stopped,
    {
        self.current_url = None;
        self.state = PlaybackState::Stopped;
        self.has_sink = false;
        self.reconnect_attempts = 0;
        self.session_live = false;
        PlayerEvent::Stopped
    }

    /// Graceful shutdown: identical to `stop`, leaving no live session
    /// behind.
    pub fn shutdown(&mut self) -> (ev: PlayerEvent)
        requires
            old(self).wf(),
        ensures
            final(self).wf(),
            final(self).url() is None,
            final(self).playback() == PlaybackState::Stopped,
            !final(self).sink_attached(),
            final(self).auto() == old(self).auto(),
            final(self).attempts() == 0,
            !final(self).session_live(),
            forall|g: u64| !final(self).live(g),
            ev == PlayerEvent::Stopped,
    {
        self.stop()
    }

    /// Starts a new session for `url`: any prior session is cancelled and
    /// discarded, a fresh generation is minted, and the state becomes
    /// `Connecting`.  Returns the events to broadcast, in order.
    pub fn play(&mut self, url: String) -> (evs: Vec<PlayerEvent>)
        requires
            old(self).wf(),
            old(self).current_generation() < u64::MAX,
        ensures
            final(self).wf(),
            final(self).url() == Some(url),
            final(self).playback() == PlaybackState::Connecting,
            !final(self).sink_attached(),
            final(self).auto() == old(self).auto(),
            final(self).attempts() == 0,
            final(self).current_generation() == old(self).current_generation() + 1,
            final(self).session_live(),
            final(self).live(final(self).current_generation()),
            forall|g: u64| old(self).live(g) ==> !final(self).live(g),
            evs@ == seq![PlayerEvent::Stopped, PlayerEvent::Connecting(url)],
    {
        let stop_ev = self.stop();
        self.current_url = Some(url.clone());
        self.state = PlaybackState::Connecting;
        self.reconnect_attempts = 0;
        self.generation = self.generation + 1;
        self.session_live = true;
        let mut evs: Vec<PlayerEvent> = Vec::new();
        evs.push(stop_ev);
        evs.push(PlayerEvent::Connecting(url));
        proof {
            assert(evs@ =~= seq![PlayerEvent::Stopped, PlayerEvent::Connecting(url)]);
        }
        evs
    }

    /// Pauses the live output, if a handle is attached; a no-op otherwise.
    pub fn pause(&mut self) -> (ev: Option<PlayerEvent>)
        requires
            old(self).wf(),
        ensures
            final(self).wf(),
            old(self).sink_attached() ==> {
                &&& ev == Some(PlayerEvent::Paused)
                &&& final(self).playback() == PlaybackState::Paused
                &&& final(self).url() == old(self).url()
                &&& final(self).sink_attached()
                &&& final(self).auto() == old(self).auto()
                &&& final(self).attempts() == old(self).attempts()
                &&& final(self).current_generation() == old(self).current_generation()
                &&& final(self).session_live() == old(self).session_live()
            },
            !old(self).sink_attached() ==> ev is None && *final(self) == *old(self),
    {
        if self.has_sink {
            self.state = PlaybackState::Paused;
            Some(PlayerEvent::Paused)
        } else {
            None
        }
    }

    /// Resumes the live output, if a handle is attached; a no-op otherwise.
    pub fn resume(&mut self) -> (ev: Option<PlayerEvent>)
        requires
            old(self).wf(),
        ensures
            final(self).wf(),
            old(self).sink_attached() ==> {
                &&& ev == Some(PlayerEvent::Resumed)
                &&& final(self).playback() == PlaybackState::Playing
                &&& final(self).url() == old(self).url()
                &&& final(self).sink_attached()
                &&& final(self).auto() == old(self).auto()
                &&& final(self).attempts() == old(self).attempts()
                &&& final(self).current_generation() == old(self).current_generation()
                &&& final(self).session_live() == old(self).session_live()
            },
            !old(self).sink_attached() ==> ev is None && *final(self) == *old(self),
    {
        if self.has_sink {
            self.state = PlaybackState::Playing;
            Some(PlayerEvent::Resumed)
        } else {
            None
        }
    }

    /// Enables or disables automatic reconnection.
    pub fn set_auto_reconnect(&mut self, enabled: bool)
        requires
            old(self).wf(),
        ensures
            final(self).wf(),
            final(self).auto() == enabled,
            final(self).url() == old(self).url(),
            final(self).playback() == old(self).playback(),
            final(self).sink_attached() == old(self).sink_attached(),
            final(self).attempts() == old(self).attempts(),
            final(self).current_generation() == old(self).current_generation(),
            final(self).session_live() == old(self).session_live(),
    {
        self.auto_reconnect = enabled;
    }

    /// A session attempt begins: the driver has created a fresh output
    /// handle.  Returns whether the attempt may proceed; a stale task is
    /// told to exit and changes nothing.
    pub fn on_attempt_start(&mut self, g: u64) -> (proceed: bool)
        requires
            old(self).wf(),
        ensures
            final(self).wf(),
            proceed == old(self).live(g),
            !old(self).live(g) ==> *final(self) == *old(self),
            old(self).live(g) ==> {
                &&& final(self).sink_attached()
                &&& final(self).url() == old(self).url()
                &&& final(self).playback() == old(self).playback()
                &&& final(self).auto() == old(self).auto()
                &&& final(self).attempts() == old(self).attempts()
                &&& final(self).current_generation() == old(self).current_generation()
                &&& final(self).session_live()
            },
    {
        if self.session_live && g == self.generation {
            self.has_sink = true;
            true
        } else {
            false
        }
    }

    /// The first PCM frame of the session was decoded: the session is
    /// audibly playing.  A stale task's report is ignored.
    pub fn on_first_frame(&mut self, g: u64) -> (ev: Option<PlayerEvent>)
        requires
            old(self).wf(),
        ensures
            final(self).wf(),
            !old(self).live(g) ==> ev is None && *final(self) == *old(self),
            old(self).live(g) ==> {
                &&& ev == Some(PlayerEvent::Connected)
                &&& final(self).playback() == PlaybackState::Playing
                &&& final(self).url() == old(self).url()
                &&& final(self).sink_attached() == old(self).sink_attached()
                &&& final(self).auto() == old(self).auto()
                &&& final(self).attempts() == old(self).attempts()
                &&& final(self).current_generation() == old(self).current_generation()
                &&& final(self).session_live()
            },
    {
        if self.session_live && g == self.generation {
            self.state = PlaybackState::Playing;
            Some(PlayerEvent::Connected)
        } else {
            None
        }
    }

    /// A session attempt failed with the given reason.  While auto-reconnect
    /// is on and attempts remain below the ceiling, the driver is told to
    /// wait and retry; otherwise the failure is terminal, the state becomes
    /// `Error` with the reason, and the session ends.  A stale task is told
    /// to abandon and changes nothing.
    pub fn on_attempt_failure(&mut self, g: u64, reason: String) -> (r: (
        Option<PlayerEvent>,
        RetryDecision,
    ))
        requires
            old(self).wf(),
        ensures
            final(self).wf(),
            !old(self).live(g) ==> r == (None::<PlayerEvent>, RetryDecision::Abandon)
                && *final(self) == *old(self),
            old(self).live(g) && old(self).auto() && old(self).attempts() + 1
                < MAX_RETRY_ATTEMPTS ==> {
                &&& r == (
                    Some(PlayerEvent::Error(reason)),
                    RetryDecision::RetryAfter { delay_ms: RETRY_DELAY_MS },
                )
                &&& final(self).attempts() == old(self).attempts() + 1
                &&& final(self).playback() == old(self).playback()
                &&& final(self).url() == old(self).url()
                &&& final(self).sink_attached() == old(self).sink_attached()
                &&& final(self).auto() == old(self).auto()
                &&& final(self).current_generation() == old(self).current_generation()
                &&& final(self).session_live()
            },
            old(self).live(g) && !(old(self).auto() && old(self).attempts() + 1
                < MAX_RETRY_ATTEMPTS) ==> {
                &&& r == (Some(PlayerEvent::Error(reason)), RetryDecision::GiveUp)
                &&& final(self).playback() == PlaybackState::Error(reason)
                &&& final(self).attempts() == old(self).attempts() + 1
                &&& final(self).url() == old(self).url()
                &&& final(self).sink_attached() == old(self).sink_attached()
                &&& final(self).auto() == old(self).auto()
                &&& final(self).current_generation() == old(self).current_generation()
                &&& !final(self).session_live()
            },
    {
        if self.session_live && g == self.generation {
            let next_attempts: u32 = self.reconnect_attempts + 1;
            if self.auto_reconnect && next_attempts < MAX_RETRY_ATTEMPTS {
                self.reconnect_attempts = next_attempts;
                (
                    Some(PlayerEvent::Error(reason)),
                    RetryDecision::RetryAfter { delay_ms: RETRY_DELAY_MS },
                )
            } else {
                self.reconnect_attempts = next_attempts;
                self.state = PlaybackState::Error(reason.clone());
                self.session_live = false;
                (Some(PlayerEvent::Error(reason)), RetryDecision::GiveUp)
            }
        } else {
            (None, RetryDecision::Abandon)
        }
    }

    /// Whether the player is currently playing.
    pub fn is_playing(&self) -> (b: bool)
        ensures
            b == (self.playback() == PlaybackState::Playing),
    {
        match &self.state {
            PlaybackState::Playing => true,
            _ => false,
        }
    }

    /// Whether the player is currently paused.
    pub fn is_paused(&self) -> (b: bool)
        ensures
            b == (self.playback() == PlaybackState::Paused),
    {
        match &self.state {
            PlaybackState::Paused => true,
            _ => false,
        }
    }

    /// The current playback state, as an owned value.
    pub fn playback_state(&self) -> (s: PlaybackState)
        ensures
            s == self.playback(),
    {
        match &self.state {
            PlaybackState::Stopped => PlaybackState::Stopped,
            PlaybackState::Playing => PlaybackState::Playing,
            PlaybackState::Paused => PlaybackState::Paused,
            PlaybackState::Connecting => PlaybackState::Connecting,
            PlaybackState::Error(m) => PlaybackState::Error(m.clone()),
        }
    }

    /// The URL of the current session, as an owned value.
    pub fn current_url(&self) -> (u: Option<String>)
        ensures
            u == self.url(),
    {
        match &self.current_url {
            Some(url) => Some(url.clone()),
            None => None,
        }
    }

    /// The generation naming the current session; tasks carry it as their
    /// cancellation token.
    pub fn generation(&self) -> (g: u64)
        ensures
            g == self.current_generation(),
    {
        self.generation
    }
}

} // verus!
