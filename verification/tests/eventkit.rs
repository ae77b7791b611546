use openhuman::eventkit::calendar::{fetch_action, pick_ical_uid, FetchAction};
use openhuman::eventkit::rpc::{resolve_list_window, validate_reminder, validate_reminder_with, ListWindow};
use openhuman::eventkit::store::{dedup_key_bytes, store_id, store_id_from_digest};
use openhuman::eventkit::types::Reminder;

fn reminder_with_title(title: &str) -> Reminder {
    Reminder { title: title.into(), notes: None, due_date: None, priority: None, list_name: None }
}

#[test]
fn store_id_deterministic() {
    let a = store_id("uid1", "cal1");
    let b = store_id("uid1", "cal1");
    assert_eq!(a, b);
    assert_ne!(a, store_id("uid2", "cal1"));
    assert_ne!(a, store_id("uid1", "cal2"));
}

#[test]
fn store_id_is_hex_sha256_of_pair() {
    let id = store_id("uid1", "cal1");
    assert_eq!(id.len(), 64);
    assert!(id.chars().all(|c| c.is_ascii_hexdigit() && !c.is_ascii_uppercase()));
    assert_eq!(dedup_key_bytes("uid1", "cal1"), b"\x04\x00\x00\x00\x00\x00\x00\x00uid1|cal1".to_vec());
    assert_eq!(id, "264a84239223735657a33a7964429f69a005ec2d6b46183d237519a7e34d5334");
    assert_eq!(store_id("", ""), "f05d15f04778e9911229cdc242762ff9a0179e3524702202082d3035c9935e58");
}

#[test]
fn bars_inside_parts_do_not_collide() {
    assert_ne!(store_id("a|b", "c"), store_id("a", "b|c"));
    assert_ne!(dedup_key_bytes("a|b", "c"), dedup_key_bytes("a", "b|c"));
    assert_eq!(store_id("a|b", "c"), "59f7bf92261c4f51b96184da1bd529cd0d6bd0b6f00ef137e77b5dfa7adebd9f");
}

#[test]
fn digest_renders_as_lower_hex() {
    assert_eq!(store_id_from_digest(&[0xab, 0x01, 0x00, 0xff]), "ab0100ff");
    assert_eq!(store_id_from_digest(&[]), "");
}

#[test]
fn list_window_defaults_and_clamps() {
    let now = 1_700_000_000;
    assert_eq!(
        resolve_list_window(None, None, None, now),
        Ok(ListWindow { start: now, end: now + 30 * 24 * 3600, limit: 100 })
    );
    assert_eq!(resolve_list_window(Some(10), Some(20), Some(0), now).unwrap().limit, 1);
    assert_eq!(resolve_list_window(Some(10), Some(20), Some(5000), now).unwrap().limit, 1000);
}

#[test]
fn empty_window_is_rejected() {
    let err = resolve_list_window(Some(20), Some(20), None, 0).unwrap_err();
    assert_eq!(err, "end_ts (20) must be greater than start_ts (20)");
    let err = resolve_list_window(Some(5), Some(-3), None, 0).unwrap_err();
    assert_eq!(err, "end_ts (-3) must be greater than start_ts (5)");
}

#[test]
fn rejects_empty_and_whitespace_title() {
    let err = validate_reminder(&reminder_with_title("")).unwrap_err();
    assert!(err.contains("'title' must not be empty"), "unexpected error: {err}");
    let err = validate_reminder(&reminder_with_title("   ")).unwrap_err();
    assert!(err.contains("'title' must not be empty"), "unexpected error: {err}");
}

#[test]
fn priority_range_is_checked() {
    let r = Reminder { priority: Some(10), ..reminder_with_title("Test") };
    let err = validate_reminder(&r).unwrap_err();
    assert_eq!(err, "create_reminder: 'priority' must be 0–9 (got 10)");
    let r = Reminder { priority: Some(9), ..reminder_with_title("Test") };
    assert!(validate_reminder(&r).is_ok());
}

#[test]
fn due_date_must_be_rfc3339() {
    let r = Reminder { due_date: Some("not-a-date".into()), ..reminder_with_title("Test") };
    let err = validate_reminder(&r).unwrap_err();
    assert!(err.contains("not a valid RFC 3339"), "unexpected error: {err}");
    assert_eq!(err, "create_reminder: 'due_date' is not a valid RFC 3339 timestamp (got 'not-a-date')");
    let r = Reminder { due_date: Some("2099-12-31T23:59:59Z".into()), ..reminder_with_title("Test") };
    assert!(validate_reminder(&r).is_ok());
    let r = Reminder { due_date: Some("2020-01-01T00:00:00Z".into()), ..reminder_with_title("Test") };
    assert!(validate_reminder(&r).is_ok());
}

#[test]
fn validation_with_given_parse_result() {
    let r = Reminder { due_date: Some("x".into()), ..reminder_with_title("T") };
    assert!(validate_reminder_with(&r, true).is_ok());
    assert!(validate_reminder_with(&r, false).is_err());
    let blank = Reminder { priority: Some(12), ..reminder_with_title(" ") };
    assert_eq!(validate_reminder_with(&blank, false).unwrap_err(), "create_reminder: 'title' must not be empty");
}

#[test]
fn fetch_steps() {
    assert_eq!(fetch_action(3, 3, Some(false)), FetchAction::Stop);
    assert_eq!(fetch_action(0, 3, Some(true)), FetchAction::Skip);
    assert_eq!(fetch_action(0, 3, Some(false)), FetchAction::Keep);
    assert_eq!(fetch_action(0, 3, None), FetchAction::Keep);
    assert_eq!(pick_ical_uid(Some("ext".into()), "loc".into()), "ext");
    assert_eq!(pick_ical_uid(None, "loc".into()), "loc");
}
