use somafm::buffer::ByteBuffer;
use somafm::buffer::WriteDirective;
use somafm::decoder::DecodeAction;
use somafm::decoder::DecodeController;
use somafm::decoder::DecodeEvent;
use somafm::decoder::StopReason;
use somafm::events::EventBus;
use somafm::events::PlaybackState;
use somafm::events::PlayerEvent;
use somafm::fetch::is_success_status;
use somafm::fetch::should_emit_progress;
use somafm::fetch::has_initial_data;
use somafm::player::PlayerModel;
use somafm::player::RetryDecision;
use somafm::queue::FrameQueue;
use somafm::source::MediaSourceAdapter;
use somafm::source::SourceError;
use somafm::BACKPRESSURE_THRESHOLD;
use somafm::MAX_BUFFER_BYTES;

#[test]
fn buffer_write_read_compact_cycle() {
    let mut b = ByteBuffer::new();
    b.write(b"hello world");
    assert_eq!(b.len(), 11);
    assert_eq!(b.position(), 0);

    let first = b.read(6);
    assert_eq!(first, b"hello ");
    assert_eq!(b.position(), 6);
    assert!(b.position() <= b.len());

    b.compact();
    assert_eq!(b.position(), 0);
    assert_eq!(b.len(), 5);

    let rest = b.read(100);
    assert_eq!(rest, b"world");
    assert_eq!(b.position(), 5);

    let starved = b.read(100);
    assert!(starved.is_empty());
}

#[test]
fn buffer_cursor_never_exceeds_length() {
    let mut b = ByteBuffer::new();
    for round in 0..50usize {
        b.write(&vec![round as u8; 37]);
        let _ = b.read(19);
        assert!(b.position() <= b.len());
        if round % 7 == 0 {
            b.compact();
            assert_eq!(b.position(), 0);
        }
        if round % 11 == 0 {
            let _ = b.enforce_capacity();
            assert!(b.position() <= b.len());
        }
    }
}

#[test]
fn buffer_eviction_brings_length_strictly_under_ceiling() {
    let mut b = ByteBuffer::new();
    let chunk = vec![0u8; 1024 * 1024];
    for _ in 0..9 {
        b.write(&chunk);
    }
    assert!(b.len() > MAX_BUFFER_BYTES);
    let _ = b.read(100);
    let cursor_before = b.position();
    let dropped = b.enforce_capacity();
    assert!(dropped > 0);
    assert!(b.len() < MAX_BUFFER_BYTES);
    assert_eq!(b.position(), cursor_before.saturating_sub(dropped));
    assert!(b.position() <= b.len());
}

#[test]
fn buffer_backpressure_directive() {
    let mut b = ByteBuffer::new();
    let chunk = vec![0u8; 1024 * 1024];
    b.write(&chunk);
    assert_eq!(b.prepare_for_write(), WriteDirective::Proceed);

    for _ in 0..6 {
        b.write(&chunk);
    }
    assert!(b.len() > BACKPRESSURE_THRESHOLD);
    assert_eq!(b.prepare_for_write(), WriteDirective::Wait);
    assert!(b.len() <= MAX_BUFFER_BYTES);
}

#[test]
fn buffer_compacts_once_cursor_passes_threshold() {
    let mut b = ByteBuffer::new();
    let chunk = vec![7u8; 1024 * 1024];
    for _ in 0..3 {
        b.write(&chunk);
    }
    // The decoder has consumed most of the buffer.
    let consumed = b.read(1024 * 1024 * 2 + 512).len();
    assert_eq!(consumed, 1024 * 1024 * 2 + 512);
    assert!(b.position() > somafm::CLEANUP_THRESHOLD);

    // The next admission check compacts: read data is dropped, the cursor
    // resets, and all unread bytes survive.
    assert_eq!(b.prepare_for_write(), WriteDirective::Proceed);
    assert_eq!(b.position(), 0);
    assert_eq!(b.len(), 1024 * 1024 - 512);
    assert_eq!(b.read(4), vec![7u8; 4]);
}

#[test]
fn adapter_is_nonseekable_live_source() {
    let mut a = MediaSourceAdapter::new(ByteBuffer::new());
    assert!(!a.is_seekable());
    assert_eq!(a.byte_len(), None);
    assert_eq!(a.seek(42), Err(SourceError::SeekUnsupported));

    let starved = a.read(4096);
    assert!(starved.is_empty());

    a.buffer.write(b"abc");
    assert_eq!(a.read(2), b"ab");
    assert_eq!(a.read(2), b"c");
}

#[test]
fn queue_delivers_in_production_order() {
    let mut q: FrameQueue<u32> = FrameQueue::new(4);
    assert!(q.is_empty());
    assert!(q.try_push(10).is_ok());
    assert!(q.try_push(20).is_ok());
    assert!(q.try_push(30).is_ok());
    assert_eq!(q.len(), 3);
    assert_eq!(q.pop(), Some(10));
    assert!(q.try_push(40).is_ok());
    assert_eq!(q.pop(), Some(20));
    assert_eq!(q.pop(), Some(30));
    assert_eq!(q.pop(), Some(40));
    assert_eq!(q.pop(), None);
}

#[test]
fn full_queue_refuses_instead_of_dropping() {
    let mut q: FrameQueue<u8> = FrameQueue::new(1);
    assert!(q.try_push(1).is_ok());
    assert_eq!(q.try_push(2), Err(2));
    assert_eq!(q.pop(), Some(1));
    assert!(q.try_push(2).is_ok());
    assert_eq!(q.pop(), Some(2));
}

#[test]
fn decoder_backoff_is_bounded_and_resets() {
    let mut c = DecodeController::new();

    // A corrupt frame is skipped, not fatal.
    assert_eq!(c.on_event(DecodeEvent::CorruptFrame), DecodeAction::SkipFrame);

    // Short starvation streaks only yield briefly.
    for _ in 0..15 {
        assert_eq!(c.on_event(DecodeEvent::Starved), DecodeAction::BriefYield);
    }
    // The 16th consecutive starvation sleeps for the current backoff.
    assert_eq!(
        c.on_event(DecodeEvent::Starved),
        DecodeAction::Backoff { delay_ms: 10 }
    );
    // The next long streak sleeps longer: doubled plus deterministic jitter.
    for _ in 0..15 {
        assert_eq!(c.on_event(DecodeEvent::Starved), DecodeAction::BriefYield);
    }
    assert_eq!(
        c.on_event(DecodeEvent::Starved),
        DecodeAction::Backoff { delay_ms: 26 }
    );

    // A decoded packet resets the streak and the delay.
    assert_eq!(c.on_event(DecodeEvent::PacketDecoded), DecodeAction::Deliver);
    for _ in 0..15 {
        assert_eq!(c.on_event(DecodeEvent::Starved), DecodeAction::BriefYield);
    }
    assert_eq!(
        c.on_event(DecodeEvent::Starved),
        DecodeAction::Backoff { delay_ms: 10 }
    );

    // Fatal events stop the loop.
    assert_eq!(
        c.on_event(DecodeEvent::ResetRequired),
        DecodeAction::Stop { reason: StopReason::ResetRequired }
    );
    assert_eq!(
        c.on_event(DecodeEvent::Cancelled),
        DecodeAction::Stop { reason: StopReason::Cancelled }
    );
}

#[test]
fn decoder_backoff_caps_at_maximum() {
    let mut c = DecodeController::new();
    let mut last = 0u64;
    for _ in 0..12 {
        for _ in 0..15 {
            assert_eq!(c.on_event(DecodeEvent::Starved), DecodeAction::BriefYield);
        }
        match c.on_event(DecodeEvent::Starved) {
            DecodeAction::Backoff { delay_ms } => {
                assert!(delay_ms <= 500);
                last = delay_ms;
            }
            other => panic!("expected a backoff, got {:?}", other),
        }
    }
    assert_eq!(last, 500);
}

#[test]
fn state_machine_full_cycle() {
    let mut m = PlayerModel::new();
    assert_eq!(m.playback_state(), PlaybackState::Stopped);
    assert_eq!(m.current_url(), None);

    let evs = m.play(String::from("http://x/live.mp3"));
    assert_eq!(evs.len(), 2);
    assert!(matches!(evs[1], PlayerEvent::Connecting(_)));
    assert_eq!(m.playback_state(), PlaybackState::Connecting);
    assert_eq!(m.current_url(), Some(String::from("http://x/live.mp3")));

    let g = m.generation();
    assert!(m.on_attempt_start(g));
    assert_eq!(m.playback_state(), PlaybackState::Connecting);

    // The first decoded frame makes the session audible.
    assert!(matches!(m.on_first_frame(g), Some(PlayerEvent::Connected)));
    assert_eq!(m.playback_state(), PlaybackState::Playing);
    assert!(m.is_playing());

    assert!(matches!(m.pause(), Some(PlayerEvent::Paused)));
    assert_eq!(m.playback_state(), PlaybackState::Paused);
    assert!(m.is_paused());

    assert!(matches!(m.resume(), Some(PlayerEvent::Resumed)));
    assert_eq!(m.playback_state(), PlaybackState::Playing);

    let ev = m.stop();
    assert!(matches!(ev, PlayerEvent::Stopped));
    assert_eq!(m.playback_state(), PlaybackState::Stopped);
    assert_eq!(m.current_url(), None);
    assert!(!m.is_playing());
    assert!(!m.is_paused());
}

#[test]
fn pause_and_resume_without_session_are_noops() {
    let mut m = PlayerModel::new();
    assert_eq!(m.pause(), None);
    assert_eq!(m.resume(), None);
    assert_eq!(m.playback_state(), PlaybackState::Stopped);
}

#[test]
fn new_play_cancels_prior_session() {
    let mut m = PlayerModel::new();
    let _ = m.play(String::from("http://a/one.mp3"));
    let g_a = m.generation();
    assert!(m.on_attempt_start(g_a));

    let _ = m.play(String::from("http://b/two.mp3"));
    let g_b = m.generation();
    assert!(g_b > g_a);

    // Reports from the superseded session are ignored: no state change, no
    // events, and the driver is told to abandon.
    assert_eq!(m.on_first_frame(g_a), None);
    assert_eq!(m.playback_state(), PlaybackState::Connecting);
    let (ev, decision) = m.on_attempt_failure(g_a, String::from("socket closed"));
    assert!(ev.is_none());
    assert_eq!(decision, RetryDecision::Abandon);
    assert_eq!(m.current_url(), Some(String::from("http://b/two.mp3")));

    // The new session proceeds normally.
    assert!(m.on_attempt_start(g_b));
    assert!(matches!(m.on_first_frame(g_b), Some(PlayerEvent::Connected)));
    assert_eq!(m.playback_state(), PlaybackState::Playing);

    // After stop, even the latest generation is cancelled.
    let _ = m.stop();
    assert!(!m.on_attempt_start(g_b));
}

#[test]
fn exhausted_retries_end_in_error() {
    let mut m = PlayerModel::new();
    m.set_auto_reconnect(true);
    let _ = m.play(String::from("http://x/s.mp3"));
    let g = m.generation();

    let mut retries = 0;
    loop {
        let (ev, decision) = m.on_attempt_failure(g, String::from("connection refused"));
        assert!(matches!(ev, Some(PlayerEvent::Error(_))));
        match decision {
            RetryDecision::RetryAfter { delay_ms } => {
                assert_eq!(delay_ms, 2000);
                retries += 1;
            }
            RetryDecision::GiveUp => break,
            RetryDecision::Abandon => panic!("live session must not be abandoned"),
        }
    }
    assert_eq!(retries, 4);
    assert_eq!(
        m.playback_state(),
        PlaybackState::Error(String::from("connection refused"))
    );
    // The session is over: further reports are stale.
    let (_, d) = m.on_attempt_failure(g, String::from("again"));
    assert_eq!(d, RetryDecision::Abandon);

    // An explicit play from Error starts a fresh session.
    let _ = m.play(String::from("http://x/s.mp3"));
    assert_eq!(m.playback_state(), PlaybackState::Connecting);
}

#[test]
fn failure_without_auto_reconnect_is_terminal() {
    let mut m = PlayerModel::new();
    m.set_auto_reconnect(false);
    let _ = m.play(String::from("http://x/s.mp3"));
    let g = m.generation();
    let (ev, decision) = m.on_attempt_failure(g, String::from("timeout"));
    assert!(matches!(ev, Some(PlayerEvent::Error(_))));
    assert_eq!(decision, RetryDecision::GiveUp);
    assert_eq!(m.playback_state(), PlaybackState::Error(String::from("timeout")));
}

#[test]
fn two_failures_then_success_give_two_errors_then_connected() {
    let mut m = PlayerModel::new();
    m.set_auto_reconnect(true);
    let mut events: Vec<PlayerEvent> = Vec::new();

    for ev in m.play(String::from("http://x/s.mp3")) {
        events.push(ev);
    }
    let g = m.generation();

    // Two failed fetch attempts, then a successful one.
    for _ in 0..2 {
        let (ev, decision) = m.on_attempt_failure(g, String::from("fetch failed"));
        events.push(ev.expect("a live failure emits an error event"));
        assert!(matches!(decision, RetryDecision::RetryAfter { .. }));
    }
    assert!(m.on_attempt_start(g));
    if let Some(ev) = m.on_first_frame(g) {
        events.push(ev);
    }

    let errors: Vec<usize> = events
        .iter()
        .enumerate()
        .filter(|(_, e)| matches!(e, PlayerEvent::Error(_)))
        .map(|(i, _)| i)
        .collect();
    assert_eq!(errors.len(), 2);
    let connected = events
        .iter()
        .position(|e| matches!(e, PlayerEvent::Connected))
        .expect("the third attempt connects");
    assert!(errors.iter().all(|&i| i < connected));
    assert_eq!(m.playback_state(), PlaybackState::Playing);
}

#[test]
fn event_bus_keeps_only_the_latest() {
    let mut bus = EventBus::new();
    assert!(matches!(bus.latest(), PlayerEvent::Stopped));
    bus.send(PlayerEvent::Connecting(String::from("http://x")));
    bus.send(PlayerEvent::BufferProgress(1024));
    bus.send(PlayerEvent::Connected);
    // A late subscriber sees only the newest event.
    assert!(matches!(bus.latest(), PlayerEvent::Connected));
}

#[test]
fn fetch_policies() {
    assert!(is_success_status(200));
    assert!(is_success_status(299));
    assert!(!is_success_status(301));
    assert!(!is_success_status(404));
    assert!(!is_success_status(500));

    assert!(should_emit_progress(0));
    assert!(should_emit_progress(256 * 1024));
    assert!(should_emit_progress(512 * 1024));
    assert!(!should_emit_progress(256 * 1024 + 1));

    assert!(!has_initial_data(0));
    assert!(!has_initial_data(64 * 1024 - 1));
    assert!(has_initial_data(64 * 1024));
}
