use openhuman::life_capture::parser::{parse, RawFocusEvent};

fn raw(app: &str, element: Option<&str>, text: Option<&str>, url: Option<&str>) -> RawFocusEvent {
    RawFocusEvent {
        focused_app: app.into(),
        focused_element: element.map(str::to_string),
        visible_text: text.map(str::to_string),
        url: url.map(str::to_string),
        ts_ms: 1_700_000_000_000,
    }
}

#[test]
fn url_kept_for_browser_class_apps() {
    for browser in ["com.google.Chrome", "chromium-browser", "firefox", "com.apple.Safari", "com.brave.Browser"] {
        let ev = parse(raw(browser, None, None, Some("https://example.com/a")));
        assert_eq!(ev.url.as_deref(), Some("https://example.com/a"), "expected url retained for {browser}");
    }
}

#[test]
fn url_dropped_for_non_browser_apps() {
    for app in ["com.apple.Terminal", "code", "com.tinyspeck.slackmacgap"] {
        let ev = parse(raw(app, None, None, Some("https://example.com/a")));
        assert!(ev.url.is_none(), "expected url dropped for {app} but got {:?}", ev.url);
    }
}

#[test]
fn visible_text_is_pii_redacted() {
    let ev = parse(raw(
        "com.apple.Terminal",
        Some("AXTextArea"),
        Some("email me at alice@example.com or call (415) 555-0123"),
        None,
    ));
    let text = ev.visible_text.unwrap();
    assert!(text.contains("<EMAIL>"), "email not redacted: {text}");
    assert!(text.contains("<PHONE>"), "phone not redacted: {text}");
}

#[test]
fn empty_strings_normalised_to_none() {
    let ev = parse(raw("app", Some("   "), Some(""), None));
    assert_eq!(ev.focused_element, None);
    assert_eq!(ev.visible_text, None);
}

#[test]
fn passes_ts_and_app_through_untouched() {
    let ev = parse(RawFocusEvent {
        focused_app: "com.apple.Finder".into(),
        focused_element: None,
        visible_text: None,
        url: None,
        ts_ms: 42,
    });
    assert_eq!(ev.focused_app, "com.apple.Finder");
    assert_eq!(ev.ts_ms, 42);
}

#[test]
fn focused_element_is_trimmed() {
    let ev = parse(raw("app", Some("  AXButton "), None, None));
    assert_eq!(ev.focused_element, Some("AXButton".to_string()));
    let ev = parse(raw("app", None, Some("  keep padding "), None));
    assert_eq!(ev.visible_text.as_deref(), Some("  keep padding "));
}
