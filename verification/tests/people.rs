use openhuman::people::address_book::{contact_from_row, keep_nonblank, read};
use openhuman::people::resolver::skeleton_fields;
use openhuman::people::types::Handle;

#[test]
fn non_mac_returns_empty() {
    assert!(read().unwrap().is_empty());
}

#[test]
fn mac_read_does_not_panic() {
    let result = read();
    match result {
        Ok(v) => {
            for c in &v {
                assert!(
                    c.display_name.is_some() || !c.emails.is_empty() || !c.phones.is_empty(),
                    "contact with no fields slipped through"
                );
            }
        }
        Err(e) => {
            assert!(!e.is_empty());
        }
    }
}

#[test]
fn contact_rows_are_trimmed_and_empty_ones_skipped() {
    let c = contact_from_row("  Alice Smith ", vec![], vec![]).unwrap();
    assert_eq!(c.display_name.as_deref(), Some("Alice Smith"));
    assert!(contact_from_row("   ", vec![], vec![]).is_none());
    let c = contact_from_row("", vec!["a@b.c".to_string()], vec![]).unwrap();
    assert!(c.display_name.is_none());
    assert_eq!(c.emails, vec!["a@b.c".to_string()]);
}

#[test]
fn blank_column_values_are_dropped() {
    let out = keep_nonblank(vec![Some("x".into()), None, Some("  ".into()), Some("y".into())]);
    assert_eq!(out, vec!["x".to_string(), "y".to_string()]);
}

#[test]
fn new_person_fields_follow_the_handle() {
    let (d, e, p) = skeleton_fields(&Handle::IMessage("+15550100".into()));
    assert!(d.is_none() && e.is_none());
    assert_eq!(p.as_deref(), Some("+15550100"));
    let (_, e, p) = skeleton_fields(&Handle::IMessage("a@b.c".into()));
    assert_eq!(e.as_deref(), Some("a@b.c"));
    assert!(p.is_none());
    let (d, _, _) = skeleton_fields(&Handle::DisplayName("Sam".into()));
    assert_eq!(d.as_deref(), Some("Sam"));
}
