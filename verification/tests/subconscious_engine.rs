use openhuman::subconscious::engine::{
    follow_up, has_changes, heartbeat_tasks, is_logged, Decision, EngineSettings, FollowUp, TickCounters,
};

#[test]
fn heartbeat_tasks_are_dash_items() {
    let content = "# Tasks\n- check email\r\n  - review PRs  \n-\n- \nnot a task\n-  spaced\n- last";
    assert_eq!(heartbeat_tasks(content), vec!["check email", "review PRs", " spaced", "last"]);
    assert!(heartbeat_tasks("").is_empty());
    assert!(heartbeat_tasks("\n\n").is_empty());
}

#[test]
fn settings_from_heartbeat() {
    let s = EngineSettings::from_heartbeat(1, 2000, true, true);
    assert_eq!(s.interval_minutes, 5);
    assert_eq!(s.context_budget_tokens, 2000);
    assert!(s.enabled);
    let s = EngineSettings::from_heartbeat(30, 0, true, false);
    assert_eq!(s.interval_minutes, 30);
    assert!(!s.enabled);
}

#[test]
fn tick_decisions() {
    assert!(!has_changes("No state changes detected since 10:00"));
    assert!(!has_changes("... No changes since last tick ..."));
    assert!(has_changes("New email from Bob"));
    assert!(!is_logged(Decision::Noop));
    assert!(is_logged(Decision::Act));
    assert_eq!(follow_up(Decision::Escalate, false), FollowUp::Escalate);
    assert_eq!(follow_up(Decision::Act, true), FollowUp::StoreActions);
    assert_eq!(follow_up(Decision::Act, false), FollowUp::Nothing);
    assert_eq!(follow_up(Decision::Noop, true), FollowUp::Nothing);
}

#[test]
fn counters_never_count_more_escalations_than_ticks() {
    let mut c = TickCounters::new();
    c.record(Decision::Escalate);
    c.record(Decision::Noop);
    c.record(Decision::Escalate);
    assert_eq!(c.total_ticks(), 3);
    assert_eq!(c.total_escalations(), 2);
}
