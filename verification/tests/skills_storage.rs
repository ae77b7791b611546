use openhuman::skills::storage::{
    db_file_name, limit_clause, open_result, sanitize_name, skill_db_name, store_key_of, store_kv_key, table_name,
};
use openhuman::skills::types::{ToolContent, ToolResult};

#[test]
fn names_are_sanitized_for_tables() {
    assert_eq!(sanitize_name("my-store.v2"), "my_store_v2");
    assert_eq!(sanitize_name("keep_this1"), "keep_this1");
    assert_eq!(sanitize_name("café"), "café");
    assert_eq!(table_name("a b"), "store_a_b");
    assert_eq!(db_file_name("notes"), "notes.sqlite");
    assert_eq!(skill_db_name("gmail"), "skill_gmail");
}

#[test]
fn store_keys_round_trip() {
    let k = store_kv_key("token");
    assert_eq!(k, "_store_token");
    assert_eq!(store_key_of(&k), "token");
    assert_eq!(store_key_of("other"), "other");
    assert_eq!(limit_clause(Some(5)), " LIMIT 5");
    assert_eq!(limit_clause(None), "");
}

#[test]
fn open_result_reports_upgrades() {
    let r = open_result(None, 1, vec!["items".into()]);
    assert!(r.needs_upgrade);
    assert_eq!(r.old_version, 0);
    assert_eq!(r.object_stores, vec!["items".to_string()]);
    let r = open_result(Some(3), 3, vec![]);
    assert!(!r.needs_upgrade);
    assert_eq!(r.old_version, 3);
}

#[test]
fn tool_result_text_and_output() {
    let ok = ToolResult::success("hi".to_string());
    assert!(!ok.is_error);
    assert_eq!(ok.text(), "hi");
    let err = ToolResult::error("bad".to_string());
    assert!(err.is_error);
    let mixed = ToolResult {
        content: vec![
            ToolContent::Text { text: "a".into() },
            ToolContent::Json { data: serde_json::Value::Bool(true) },
            ToolContent::Text { text: "b".into() },
        ],
        is_error: false,
    };
    assert_eq!(mixed.text(), "a\nb");
    assert_eq!(mixed.output(), "a\ntrue\nb");
    let json = ToolResult::json(serde_json::Value::Null);
    assert_eq!(json.text(), "");
    assert_eq!(json.output(), "null");
}
