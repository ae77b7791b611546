//! Foreground window / app context for capture and policy.

use vstd::prelude::*;
use crate::text::{opt_string_eq, opt_view, owned, push_str, to_lowercase, unicode_lower};

verus! {

/// Position and size of a window.
#[derive(Debug, Clone, Copy, PartialEq, Eq, Structural)]
pub struct WindowBounds {
    pub x: i32,
    pub y: i32,
    pub width: i32,
    pub height: i32,
}

/// The foreground application and window.
#[derive(Debug, Clone)]
pub struct AppContext {
    pub app_name: Option<String>,
    pub window_title: Option<String>,
    pub bounds: Option<WindowBounds>,
}

/// The characters of an optional string, empty when absent.
pub open spec fn or_empty(s: Option<String>) -> Seq<char> {
    match s {
        Some(v) => v@,
        None => Seq::empty(),
    }
}

impl AppContext {
    /// True when both contexts name the same app, the same window title and
    /// the same bounds.
    pub fn same_as(&self, other: &AppContext) -> (b: bool)
        ensures
            b == (opt_view(self.app_name) == opt_view(other.app_name) && opt_view(self.window_title)
                == opt_view(other.window_title) && self.bounds == other.bounds),
    {
        if !opt_string_eq(&self.app_name, &other.app_name) {
            return false;
        }
        if !opt_string_eq(&self.window_title, &other.window_title) {
            return false;
        }
        match (&self.bounds, &other.bounds) {
            (Some(a), Some(b)) => a.x == b.x && a.y == b.y && a.width == b.width && a.height
                == b.height,
            (None, None) => true,
            _ => false,
        }
    }

    /// The app name and window title, separated by a space, lower-cased;
    /// an absent part counts as empty.
    pub fn as_compound_text(&self) -> (s: String)
        ensures
            s@ == unicode_lower(or_empty(self.app_name) + " "@ + or_empty(self.window_title)),
    {
        let mut text = match &self.app_name {
            Some(a) => a.clone(),
            None => String::new(),
        };
        push_str(&mut text, " ");
        match &self.window_title {
            Some(t) => push_str(&mut text, t.as_str()),
            None => {},
        }
        proof {
            assert(or_empty(self.window_title) =~= or_empty(self.window_title));
        }
        to_lowercase(text.as_str())
    }
}

} // verus!
