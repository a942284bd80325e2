use open_xiaoai::instruction::{InstructionFilter, WakeState};
use open_xiaoai::interrupt::{InterruptMonitor, InterruptMonitorEvent};
use open_xiaoai::state::StateManager;

fn words() -> Vec<String> {
    vec!["Stop".to_string(), "别说了".to_string()]
}

fn detected(events: &[InterruptMonitorEvent]) -> Vec<String> {
    events
        .iter()
        .filter_map(|e| match e {
            InterruptMonitorEvent::InterruptDetected(t) => Some(t.clone()),
            InterruptMonitorEvent::Started => None,
        })
        .collect()
}

#[test]
fn instruction_repeat_within_window_is_dropped() {
    let mut f = InstructionFilter::new();
    assert_eq!(f.on_text_at("hello", 0), Some("hello".to_string()));
    assert_eq!(f.on_text_at("hello", 1_500), None);
}

#[test]
fn instruction_repeat_after_window_passes() {
    let mut f = InstructionFilter::new();
    assert_eq!(f.on_text_at("hello", 0), Some("hello".to_string()));
    assert_eq!(f.on_text_at("hello", 4_000), Some("hello".to_string()));
}

#[test]
fn instruction_is_trimmed_and_blank_is_skipped() {
    let mut f = InstructionFilter::new();
    assert_eq!(f.on_text_at("   ", 0), None);
    assert_eq!(f.on_text_at("  play music \n", 10), Some("play music".to_string()));
    assert_eq!(f.on_text_at("play music", 20), None);
    assert_eq!(f.on_text_at("other", 30), Some("other".to_string()));
}

#[test]
fn instruction_at_exact_window_end_passes() {
    let mut f = InstructionFilter::new();
    assert!(f.accept_at("a", 1_000));
    assert!(!f.accept_at("a", 3_999));
    assert!(f.accept_at("a", 4_000));
}

#[test]
fn interrupt_debounce_keeps_one_of_a_burst() {
    let mut m = InterruptMonitor::new();
    let w = words();
    let line = vec!["please STOP now".to_string()];
    assert_eq!(detected(&m.on_results_at(&line, &w, 0)), vec!["please stop now".to_string()]);
    assert!(m.on_results_at(&line, &w, 500).is_empty());
    assert!(m.on_results_at(&line, &w, 1_000).is_empty());
    assert_eq!(m.on_results_at(&line, &w, 3_000).len(), 1);
}

#[test]
fn interrupt_without_keyword_reports_nothing() {
    let mut m = InterruptMonitor::new();
    let line = vec!["what is the weather".to_string()];
    assert!(m.on_results_at(&line, &words(), 0).is_empty());
    // a later keyword is not suppressed by the miss
    let hit = vec!["  别说了  ".to_string()];
    assert_eq!(detected(&m.on_results_at(&hit, &words(), 100)), vec!["别说了".to_string()]);
}

#[test]
fn interrupt_reports_first_matching_text_only() {
    let mut m = InterruptMonitor::new();
    let line = vec!["hello".to_string(), "Stop it".to_string(), "stop again".to_string()];
    assert_eq!(detected(&m.on_results_at(&line, &words(), 0)), vec!["stop it".to_string()]);
}

#[test]
fn interrupt_stop_resets_debounce() {
    let mut m = InterruptMonitor::new();
    let line = vec!["stop".to_string()];
    assert_eq!(m.on_results_at(&line, &words(), 0).len(), 1);
    m.stop();
    assert_eq!(m.on_results_at(&line, &words(), 100).len(), 1);
}

#[test]
fn interrupt_mentions_is_case_sensitive_on_its_own() {
    assert!(InterruptMonitor::mentions("say stop", &vec!["stop".to_string()]));
    assert!(!InterruptMonitor::mentions("say stop", &vec!["Stop".to_string()]));
    assert!(!InterruptMonitor::mentions("say", &vec![]));
}

#[test]
fn wake_flag_lapses_after_window() {
    let mut w = WakeState::new();
    assert!(!w.is_woken(0));
    w.on_wake(1_000);
    assert!(w.is_woken(10_999));
    assert!(!w.is_woken(11_000));
    assert!(w.consume(2_000));
    assert!(!w.is_woken(2_001));
}

#[test]
fn detection_interrupts_the_playing_utterance() {
    let mut m = InterruptMonitor::new();
    let mut s = StateManager::new();
    let id = s.start_tts_at(0);
    let line = vec!["STOP".to_string()];
    assert_eq!(m.detect_and_interrupt(&mut s, &line, &words(), 100).len(), 1);
    assert!(s.should_interrupt(id));
    s.clear_interrupt();
    assert!(m.detect_and_interrupt(&mut s, &line, &words(), 200).is_empty());
    assert!(!s.should_interrupt(id));
}
