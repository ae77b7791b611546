use openhuman::learning::reflection::{
    extract_reflection_cues, parse_reflection_with, reflection_json_slice, slugify, split_sentences, truncate,
    SessionCounts,
};
use openhuman::life_capture::dispatcher::{DispatchOutcome, DispatchState, DEBOUNCE_MS};
use openhuman::life_capture::parser::RawFocusEvent;
use openhuman::life_capture::redact::redact;
use openhuman::routing::health::LocalHealthChecker;

fn ev(app: &str, text: &str, ts_ms: i64) -> RawFocusEvent {
    RawFocusEvent {
        focused_app: app.into(),
        focused_element: Some("AXTextArea".into()),
        visible_text: Some(text.into()),
        url: None,
        ts_ms,
    }
}

#[test]
fn reflection_cues_are_found_once_in_order() {
    let hits = extract_reflection_cues("I realized the build is slow. Nothing here. Going forward, use cargo check.");
    assert_eq!(hits.len(), 2);
    assert!(hits[0].starts_with("I realized"));
    assert!(extract_reflection_cues("plain message").is_empty());
}

#[test]
fn sentences_slugs_and_truncation() {
    assert!(split_sentences("One. Two! Three?").len() >= 3);
    assert_eq!(slugify("Hello World-x_y!"), "hello_world_x_y");
    assert_eq!(truncate("abcdef", 3).chars().count() <= 6, true);
}

#[test]
fn json_slice_and_fallback_parse() {
    assert_eq!(reflection_json_slice("text {\"a\": 1} more"), "{\"a\": 1}");
    let out = parse_reflection_with("garbage", None);
    assert!(out.observations.len() + out.patterns.len() + out.user_preferences.len() <= 1);
}

#[test]
fn session_counts_cap_reflections() {
    let mut c = SessionCounts::new(2);
    assert!(c.try_increment("s"));
    assert!(c.try_increment("s"));
    assert!(!c.try_increment("s"));
    c.rollback_increment("s");
    assert!(c.try_increment("s"));
    assert!(c.try_increment("t"));
}

#[test]
fn dispatcher_debounces_then_dedups() {
    let mut st = DispatchState::new();
    let first = ev("code", "hello", 1_000);
    assert_eq!(st.check(&first), None);
    st.record(&first);
    assert_eq!(st.check(&ev("code", "changed", 1_000 + DEBOUNCE_MS - 1)), Some(DispatchOutcome::Debounced));
    assert_eq!(st.check(&ev("code", "hello", 1_000 + DEBOUNCE_MS)), Some(DispatchOutcome::Dedup));
    assert_eq!(st.check(&ev("code", "changed", 1_000 + DEBOUNCE_MS)), None);
    assert_eq!(st.check(&ev("other", "hello", 1_001)), None);
}

#[test]
fn redaction_masks_emails_and_phones() {
    let r = redact("mail bob@example.org now, call 555 123 4567");
    assert!(r.contains("<EMAIL>"));
    assert!(r.contains("<PHONE>"));
    assert!(!r.contains("bob@example.org"));
    assert_eq!(redact("no pii here 12"), "no pii here 12");
}

#[test]
fn health_cache_window() {
    let mut h = LocalHealthChecker::with_ttl("http://localhost:11434", 1_000);
    assert_eq!(h.probe_url(), "http://localhost:11434/api/tags");
    assert_eq!(h.cached(0), None);
    assert!(h.record(true, 100));
    assert_eq!(h.cached(500), Some(true));
    assert_eq!(h.cached(5_000), None);
    h.invalidate();
    assert_eq!(h.cached(150), None);
}

#[test]
fn dispatcher_only_a_stored_row_is_remembered() {
    let mut st = DispatchState::new();
    let first = ev("code", "hello", 1_000);
    assert_eq!(st.check(&first), None);
    assert_eq!(st.finish_event(&first, Err("disk full".to_string())), Err("disk full".to_string()));
    assert_eq!(st.check(&first), None);
    assert_eq!(st.finish_event(&first, Ok(7)), Ok(DispatchOutcome::Stored(7)));
    assert_eq!(st.check(&ev("code", "hello", 1_000 + DEBOUNCE_MS)), Some(DispatchOutcome::Dedup));
}
