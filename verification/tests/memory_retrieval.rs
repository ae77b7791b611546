use openhuman::memory::client::{skill_document_defaults, skill_namespace};
use openhuman::memory::retrieval::{effective_limit, in_window, newest_first, scope_matches_kind, DEFAULT_LIMIT};
use openhuman::memory::drill::{DrillWalk, NodeLookup, VisitHit};
use openhuman::memory::recall::{
    episodic_entry_id, episodic_entry_key, episodic_match, global_entry_id, memory_category_from_stored,
    MemoryCategory,
};

#[test]
fn scope_prefix_matching_known_platforms() {
    assert!(scope_matches_kind("slack:#eng", "chat"));
    assert!(scope_matches_kind("gmail:alice", "email"));
    assert!(scope_matches_kind("notion:page123", "document"));
    assert!(!scope_matches_kind("slack:#eng", "email"));
    assert!(scope_matches_kind("chat:custom", "chat"));
}

#[test]
fn zero_limit_defaults_to_ten() {
    assert_eq!(DEFAULT_LIMIT, 10);
}

#[test]
fn scope_matching_is_case_insensitive_and_kind_specific() {
    assert!(scope_matches_kind("Slack:#Eng", "chat"));
    assert!(scope_matches_kind("IMAP:inbox", "email"));
    assert!(scope_matches_kind("doc:spec", "document"));
    assert!(!scope_matches_kind("github:repo", "chat"));
    assert!(!scope_matches_kind("slack:#eng", "unknown"));
    assert!(scope_matches_kind("custom:x", "custom"));
}

#[test]
fn effective_limit_replaces_zero_only() {
    assert_eq!(effective_limit(0), 10);
    assert_eq!(effective_limit(3), 3);
}

#[test]
fn window_keeps_overlapping_ranges() {
    let now = 1_000_000;
    assert!(in_window(now - 100, now - 50, now, 1));
    assert!(!in_window(now - 3 * 86_400, now - 2 * 86_400, now, 1));
    assert!(in_window(now - 3 * 86_400, now, now, 1));
    assert!(!in_window(now + 10, now + 20, now, 1));
}

#[test]
fn newest_first_orders_by_end_then_position_and_truncates() {
    let ends = vec![5, 9, 5, 1, 9];
    assert_eq!(newest_first(&ends, 10), vec![1, 4, 0, 2, 3]);
    assert_eq!(newest_first(&ends, 2), vec![1, 4]);
    assert_eq!(newest_first(&ends, 0), Vec::<usize>::new());
    assert_eq!(newest_first(&Vec::new(), 3), Vec::<usize>::new());
}

#[test]
fn skill_namespace_trims_id() {
    assert_eq!(skill_namespace("  gmail "), "skill-gmail");
    let (s, p) = skill_document_defaults(None, Some("high".to_string()));
    assert_eq!(s, "doc");
    assert_eq!(p, "high");
}


#[test]
fn drill_walk_is_depth_first_and_depth_bounded() {
    assert!(DrillWalk::start(NodeLookup::Summary { children: vec!["a".into()] }, 0).is_none());
    assert!(DrillWalk::start(NodeLookup::Chunk, 2).is_none());
    assert!(DrillWalk::start(NodeLookup::Missing, 2).is_none());
    let mut w = DrillWalk::start(NodeLookup::Summary { children: vec!["s1".into(), "c1".into()] }, 2).unwrap();
    assert_eq!(w.next(), Some(("c1".to_string(), 1)));
    assert_eq!(w.visit(1, NodeLookup::Chunk), VisitHit::Chunk);
    assert_eq!(w.next(), Some(("s1".to_string(), 1)));
    assert_eq!(w.visit(1, NodeLookup::Summary { children: vec!["s2".into()] }), VisitHit::Summary);
    assert_eq!(w.next(), Some(("s2".to_string(), 2)));
    assert_eq!(w.visit(2, NodeLookup::Summary { children: vec!["s3".into()] }), VisitHit::Summary);
    assert_eq!(w.next(), None);
    assert_eq!(w.visit(1, NodeLookup::Missing), VisitHit::Nothing);
}

#[test]
fn recall_helpers() {
    assert!(matches!(memory_category_from_stored("core"), MemoryCategory::Core));
    assert!(matches!(memory_category_from_stored("daily"), MemoryCategory::Daily));
    assert!(matches!(memory_category_from_stored("conversation"), MemoryCategory::Conversation));
    match memory_category_from_stored("project-x") {
        MemoryCategory::Custom(s) => assert_eq!(s, "project-x"),
        other => panic!("expected custom, got {other:?}"),
    }
    assert_eq!(episodic_match("Deploy  Friday", "we DEPLOY on monday"), (1, 2));
    assert_eq!(episodic_match("   ", "anything"), (0, 0));
    assert_eq!(episodic_match("a b", "ab"), (2, 2));
    assert_eq!(global_entry_id(3), "global:3");
    assert_eq!(episodic_entry_id(Some(-2)), "episodic:-2");
    assert_eq!(episodic_entry_id(None), "episodic:0");
    assert_eq!(episodic_entry_key("s1", "user"), "s1:user");
}
