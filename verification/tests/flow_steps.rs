use openhuman::embeddings::ollama::embedding_count_error;
use openhuman::eventkit::calendar::plan_fetch;
use openhuman::local_ai::install::{install_command, Platform};
use openhuman::memory::retrieval::{hits_in_window, pick_source_hits, trees_of_kind, QueryResponse};
use openhuman::screen_intelligence::server::{bind_error, next_state, serve_error, ServerEvent, ServerState};
use openhuman::screen_intelligence::vision::{
    analysis_failure, persist_error_text, persist_failure, PersistOutcome, VisionBook,
};
use openhuman::skills::storage::{open_result, store_keys_of, version_to_store};

#[test]
fn windows_installer_arguments() {
    let c = install_command(Platform::Windows).unwrap();
    assert_eq!(c.program, "powershell");
    assert_eq!(
        c.args,
        vec!["-NoProfile", "-ExecutionPolicy", "Bypass", "-Command", "irm https://ollama.com/install.ps1 | iex"]
    );
}

#[test]
fn second_open_sees_the_stored_version() {
    let first = open_result(Some(2), 5, vec![]);
    assert!(first.needs_upgrade);
    let written = version_to_store(&first, 5);
    assert_eq!(written, Some(5));
    let second = open_result(written.or(Some(2)), 5, vec![]);
    assert!(!second.needs_upgrade);
    assert_eq!(second.old_version, 5);

    let older = open_result(Some(7), 3, vec![]);
    assert!(!older.needs_upgrade);
    assert_eq!(version_to_store(&older, 3), None);
}

#[test]
fn store_keys_need_the_exact_prefix() {
    let keys = vec![
        "_store_a".to_string(),
        "xstore_b".to_string(),
        "other".to_string(),
        "_store_".to_string(),
        "_store_c_d".to_string(),
    ];
    assert_eq!(store_keys_of(&keys), vec!["a".to_string(), "".to_string(), "c_d".to_string()]);
}

fn book() -> VisionBook {
    VisionBook {
        state: "ready".to_string(),
        queue_depth: 0,
        persist_count: 4,
        last_at_ms: None,
        last_summary: None,
        last_persisted_key: None,
        last_persist_error: None,
    }
}

#[test]
fn vision_flush_bookkeeping() {
    let mut b = book();
    b.queue();
    assert_eq!(b.state, "queued");
    assert_eq!(b.queue_depth, 1);
    b.summary_done(1_700, "Inbox".to_string(), &PersistOutcome::Stored("vision:1".to_string()));
    assert_eq!(b.state, "ready");
    assert_eq!(b.queue_depth, 0);
    assert_eq!(b.persist_count, 5);
    assert_eq!(b.last_at_ms, Some(1_700));
    assert_eq!(b.last_summary.as_deref(), Some("Inbox"));
    assert_eq!(b.last_persisted_key.as_deref(), Some("vision:1"));

    b.queue();
    let reason = persist_error_text("disk full");
    assert_eq!(reason, "vision summary persistence failed: disk full");
    b.summary_done(1_800, "Editor".to_string(), &PersistOutcome::Failed(reason.clone()));
    assert_eq!(b.state, "error");
    assert_eq!(b.persist_count, 5);
    assert_eq!(b.last_persist_error.as_deref(), Some(reason.as_str()));
    assert_eq!(b.last_persisted_key.as_deref(), Some("vision:1"));
    let f = persist_failure(&reason);
    assert_eq!(f.last_error, "vision_flush_persist_failed: vision summary persistence failed: disk full");
    assert_eq!(f.returned, "vision flush failed: vision summary persistence failed: disk full");
}

#[test]
fn vision_analysis_failure() {
    let mut b = book();
    b.analysis_failed();
    assert_eq!(b.queue_depth, 0);
    assert_eq!(b.state, "error");
    b.queue_depth = usize::MAX;
    b.queue();
    assert_eq!(b.queue_depth, usize::MAX);
    let f = analysis_failure("model offline");
    assert_eq!(f.last_error, "vision_flush_analysis_failed: model offline");
    assert_eq!(f.returned, "vision flush failed: model offline");
}

#[test]
fn server_state_steps() {
    let s = next_state(ServerState::Stopped, ServerEvent::EngineReady);
    assert_eq!(s, ServerState::Idle);
    assert_eq!(next_state(s, ServerEvent::SessionStarted { vision_enabled: true }), ServerState::CaptureAndVision);
    assert_eq!(next_state(s, ServerEvent::SessionStarted { vision_enabled: false }), ServerState::Capturing);
    assert_eq!(next_state(s, ServerEvent::SessionFailed), ServerState::Idle);
    assert_eq!(next_state(s, ServerEvent::BindFailed), ServerState::Stopped);
    assert_eq!(next_state(ServerState::Capturing, ServerEvent::ServeFailed), ServerState::Stopped);
    assert_eq!(next_state(ServerState::CaptureAndVision, ServerEvent::Cancelled), ServerState::Stopped);
}

#[test]
fn query_response_truncation() {
    let r = QueryResponse::new(vec![1, 2], 3);
    assert!(r.truncated);
    assert_eq!(r.total, 3);
    let r = QueryResponse::new(vec![1], 1);
    assert!(!r.truncated);
    let r: QueryResponse<u8> = QueryResponse::new(vec![], 0);
    assert!(!r.truncated);
}

#[test]
fn trees_selected_by_kind() {
    let scopes = vec![
        "Slack:#eng".to_string(),
        "gmail:abc".to_string(),
        "chat:team".to_string(),
        "notion:page".to_string(),
    ];
    assert_eq!(trees_of_kind(&scopes, "chat"), vec![0, 2]);
    assert_eq!(trees_of_kind(&scopes, "email"), vec![1]);
    assert_eq!(trees_of_kind(&scopes, "document"), vec![3]);
    assert_eq!(trees_of_kind(&scopes, "other"), Vec::<usize>::new());
}

#[test]
fn source_hits_window_order_and_limit() {
    let day = 86_400;
    let now = 100 * day;
    let starts = vec![now - 40 * day, now - 2 * day, now - 3 * day, now - day, now + day];
    let ends = vec![now - 35 * day, now - day, now - 2 * day, now, now + 2 * day];
    assert_eq!(hits_in_window(&starts, &ends, now, Some(7)), vec![1, 2, 3]);
    assert_eq!(hits_in_window(&starts, &ends, now, None), vec![0, 1, 2, 3, 4]);

    let p = pick_source_hits(&starts, &ends, now, Some(7), 2);
    assert_eq!(p.total, 3);
    assert_eq!(p.positions, vec![3, 1]);
    let p = pick_source_hits(&starts, &ends, now, Some(7), 0);
    assert_eq!(p.positions, vec![3, 1, 2]);
}

#[test]
fn fetch_walk_keeps_new_events_up_to_the_limit() {
    let p = |u: &str, c: &str| (u.to_string(), c.to_string());
    let pairs = vec![p("a", "c1"), p("b", "c1"), p("c", "c1"), p("b", "c1"), p("b", "c2"), p("d", "c1")];
    let cached = vec![p("a", "c1")];
    assert_eq!(plan_fetch(&pairs, &cached, 2), vec![1, 2]);
    assert_eq!(plan_fetch(&pairs, &cached, 10), vec![1, 2, 4, 5]);
    assert_eq!(plan_fetch(&pairs, &cached, 0), Vec::<usize>::new());
    assert_eq!(plan_fetch(&pairs, &Vec::new(), 10), vec![0, 1, 2, 4, 5]);
}

#[test]
fn embedding_count_must_match_inputs() {
    assert_eq!(embedding_count_error(2, 2), None);
    assert_eq!(
        embedding_count_error(1, 3),
        Some("embedding count mismatch: got 1 embeddings for 3 entries".to_string())
    );
}

#[test]
fn bind_failure_message() {
    assert_eq!(bind_error(7797, "address in use"), "failed to bind 127.0.0.1:7797: address in use");
    assert_eq!(serve_error("reset"), "server error: reset");
}

#[test]
fn flush_without_image_changes_nothing() {
    let mut b = book();
    assert_eq!(b.begin_flush(&vec![false, false]), None);
    assert_eq!(b.state, "ready");
    assert_eq!(b.queue_depth, 0);
    assert_eq!(b.begin_flush(&vec![true, false, true, false]), Some(2));
    assert_eq!(b.state, "queued");
    assert_eq!(b.queue_depth, 1);
    b.analysis_failed();
    assert_eq!(b.queue_depth, 0);
}
