use open_xiaoai::state::StateManager;

#[test]
fn stale_interrupt_does_not_reach_next_utterance() {
    let mut s = StateManager::new();
    let a = s.start_tts_at(1_000);
    assert!(s.request_interrupt());
    assert!(s.should_interrupt(a));
    let b = s.start_tts_at(1_000);
    assert_ne!(a, b);
    assert!(!s.should_interrupt(a));
    assert!(!s.should_interrupt(b));
    assert!(s.request_interrupt());
    assert!(s.should_interrupt(b));
}

#[test]
fn request_interrupt_without_playback_is_refused() {
    let mut s = StateManager::new();
    assert!(!s.is_tts_playing());
    assert!(!s.request_interrupt());
    assert!(!s.should_interrupt(0));
}

#[test]
fn utterance_ids_follow_the_clock_and_never_repeat() {
    let mut s = StateManager::new();
    assert_eq!(s.start_tts_at(500), 500);
    assert_eq!(s.start_tts_at(400), 501);
    assert_eq!(s.start_tts_at(900), 900);
    assert_eq!(s.start_tts_at(900), 901);
}

#[test]
fn stop_for_an_old_utterance_changes_nothing() {
    let mut s = StateManager::new();
    let a = s.start_tts_at(10);
    let b = s.start_tts_at(20);
    s.stop_tts(a);
    assert!(s.is_tts_playing());
    s.stop_tts(b);
    assert!(!s.is_tts_playing());
}

#[test]
fn clear_interrupt_drops_the_request() {
    let mut s = StateManager::new();
    let a = s.start_tts();
    assert!(s.request_interrupt());
    s.clear_interrupt();
    assert!(!s.should_interrupt(a));
    assert!(s.is_tts_playing());
}

#[test]
fn clock_started_utterances_get_distinct_ids() {
    let mut s = StateManager::new();
    let a = s.start_tts();
    assert!(s.request_interrupt());
    let b = s.start_tts();
    assert!(s.request_interrupt());
    assert_ne!(a, b);
    assert!(s.should_interrupt(b));
    assert!(!s.should_interrupt(a));
}
