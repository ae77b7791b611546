//! Stage 1 — field parser.
//!
//! Takes a `RawFocusEvent` that has already passed dedup/debounce and
//! produces a normalised `ChronicleEvent`:
//!
//! * `visible_text` is PII-redacted (see [`crate::life_capture::redact`]).
//! * `url` is kept only when `focused_app` looks like a browser; for other
//!   apps the URL would usually be a window-title substring that's already
//!   captured elsewhere and should not leak into chronicle rows.
//! * `focused_element` is trimmed-or-nulled to avoid storing empty strings.

use vstd::prelude::*;
use crate::life_capture::redact::{redact, spec_redact};
use crate::text::{blank, contains, is_blank, opt_view, str_contains, to_lowercase, trim, trim_str, unicode_lower};

verus! {

/// Raw event handed to the dispatcher: bundle id/exe, accessibility
/// role+label, visible text for the focused element, optional URL.
#[derive(Debug, Clone, PartialEq, Eq)]
pub struct RawFocusEvent {
    pub focused_app: String,
    pub focused_element: Option<String>,
    pub visible_text: Option<String>,
    pub url: Option<String>,
    /// Unix milliseconds.
    pub ts_ms: i64,
}

/// Parsed event ready to be stored.
#[derive(Debug, Clone, PartialEq, Eq)]
pub struct ChronicleEvent {
    pub focused_app: String,
    pub focused_element: Option<String>,
    pub visible_text: Option<String>,
    pub url: Option<String>,
    pub ts_ms: i64,
}

/// `Some(s)` unless `s` is missing or blank.
pub open spec fn spec_non_empty(s: Option<Seq<char>>) -> Option<Seq<char>> {
    match s {
        Some(x) => if is_blank(x) {
            None
        } else {
            Some(x)
        },
        None => None,
    }
}

/// Keeps `s` unless it is blank (the string itself is kept untrimmed).
pub fn non_empty(s: String) -> (r: Option<String>)
    ensures
        opt_view(r) == spec_non_empty(Some(s@)),
{
    if blank(s.as_str()) {
        None
    } else {
        Some(s)
    }
}

/// The trimmed string, or `None` when it is missing or blank.
pub open spec fn spec_trimmed_or_none(s: Option<Seq<char>>) -> Option<Seq<char>> {
    match s {
        Some(x) => if is_blank(x) {
            None
        } else {
            Some(trim(x))
        },
        None => None,
    }
}

/// Trims `s`, or nulls it when it is missing or blank.
pub fn trimmed_or_none(s: Option<String>) -> (r: Option<String>)
    ensures
        opt_view(r) == spec_trimmed_or_none(opt_view(s)),
{
    match s {
        Some(x) => if blank(x.as_str()) {
            None
        } else {
            Some(trim_str(x.as_str()))
        },
        None => None,
    }
}

fn non_empty_opt(s: Option<String>) -> (r: Option<String>)
    ensures
        opt_view(r) == spec_non_empty(opt_view(s)),
{
    match s {
        Some(x) => non_empty(x),
        None => None,
    }
}

/// Substrings of a lower-cased bundle id or exe name that mark a browser.
pub open spec fn browser_hint(h: Seq<char>) -> bool {
    h == "chrome"@ || h == "chromium"@ || h == "firefox"@ || h == "safari"@ || h == "edge"@ || h
        == "brave"@ || h == "arc"@ || h == "opera"@ || h == "vivaldi"@ || h == "librewolf"@
}

/// The app looks like a browser: its lower-cased name contains one of the
/// browser hints.
pub open spec fn spec_is_browser_app(app: Seq<char>) -> bool {
    exists|h: Seq<char>| browser_hint(h) && contains(unicode_lower(app), h)
}

/// Best-effort browser classifier over bundle id or exe name. Matches on
/// substrings so both macOS bundle ids (`com.google.Chrome`) and Linux exe
/// names (`chromium-browser`) hit.
pub fn is_browser_app(app: &str) -> (b: bool)
    ensures
        b == spec_is_browser_app(app@),
{
    let a = to_lowercase(app);
    let s = a.as_str();
    let b = str_contains(s, "chrome") || str_contains(s, "chromium") || str_contains(s, "firefox")
        || str_contains(s, "safari") || str_contains(s, "edge") || str_contains(s, "brave")
        || str_contains(s, "arc") || str_contains(s, "opera") || str_contains(s, "vivaldi")
        || str_contains(s, "librewolf");
    proof {
        if b {
            if contains(s@, "chrome"@) {
                assert(browser_hint("chrome"@));
            } else if contains(s@, "chromium"@) {
                assert(browser_hint("chromium"@));
            } else if contains(s@, "firefox"@) {
                assert(browser_hint("firefox"@));
            } else if contains(s@, "safari"@) {
                assert(browser_hint("safari"@));
            } else if contains(s@, "edge"@) {
                assert(browser_hint("edge"@));
            } else if contains(s@, "brave"@) {
                assert(browser_hint("brave"@));
            } else if contains(s@, "arc"@) {
                assert(browser_hint("arc"@));
            } else if contains(s@, "opera"@) {
                assert(browser_hint("opera"@));
            } else if contains(s@, "vivaldi"@) {
                assert(browser_hint("vivaldi"@));
            } else {
                assert(browser_hint("librewolf"@));
            }
        }
    }
    b
}

/// The redacted text, when present.
pub open spec fn spec_redact_opt(s: Option<Seq<char>>) -> Option<Seq<char>> {
    match s {
        Some(x) => Some(spec_redact(x)),
        None => None,
    }
}

/// Apply S1 transforms: the focused element trimmed-or-nulled, blank text
/// and URLs nulled, PII redaction, and browser-gated URL retention.
pub fn parse(raw: RawFocusEvent) -> (ev: ChronicleEvent)
    ensures
        ev.focused_app@ == raw.focused_app@,
        ev.ts_ms == raw.ts_ms,
        opt_view(ev.focused_element) == spec_trimmed_or_none(opt_view(raw.focused_element)),
        opt_view(ev.visible_text) == spec_redact_opt(spec_non_empty(opt_view(raw.visible_text))),
        opt_view(ev.url) == (if spec_is_browser_app(raw.focused_app@) {
            spec_non_empty(opt_view(raw.url))
        } else {
            None
        }),
{
    let focused_element = trimmed_or_none(raw.focused_element);
    let visible_text = match non_empty_opt(raw.visible_text) {
        Some(s) => Some(redact(s.as_str())),
        None => None,
    };
    let url = if is_browser_app(raw.focused_app.as_str()) {
        non_empty_opt(raw.url)
    } else {
        None
    };
    ChronicleEvent { focused_app: raw.focused_app, focused_element, visible_text, url, ts_ms: raw.ts_ms }
}


/// The browser hints. An app whose lower-cased name contains any of
/// `chrome`, `chromium`, `firefox`, `safari`, `edge`, `brave`, `arc`,
/// `opera`, `vivaldi` or `librewolf` is a browser, and only such an app
/// is: a parsed event keeps its URL exactly for these apps.
pub proof fn law_browser_hints(app: Seq<char>)
    ensures
        spec_is_browser_app(app) <==> ({
            let l = unicode_lower(app);
            contains(l, "chrome"@) || contains(l, "chromium"@) || contains(l, "firefox"@) || contains(l, "safari"@)
                || contains(l, "edge"@) || contains(l, "brave"@) || contains(l, "arc"@) || contains(l, "opera"@)
                || contains(l, "vivaldi"@) || contains(l, "librewolf"@)
        }),
{
    let l = unicode_lower(app);
    if contains(l, "chrome"@) { assert(browser_hint("chrome"@)); }
    if contains(l, "chromium"@) { assert(browser_hint("chromium"@)); }
    if contains(l, "firefox"@) { assert(browser_hint("firefox"@)); }
    if contains(l, "safari"@) { assert(browser_hint("safari"@)); }
    if contains(l, "edge"@) { assert(browser_hint("edge"@)); }
    if contains(l, "brave"@) { assert(browser_hint("brave"@)); }
    if contains(l, "arc"@) { assert(browser_hint("arc"@)); }
    if contains(l, "opera"@) { assert(browser_hint("opera"@)); }
    if contains(l, "vivaldi"@) { assert(browser_hint("vivaldi"@)); }
    if contains(l, "librewolf"@) { assert(browser_hint("librewolf"@)); }
}

} // verus!
