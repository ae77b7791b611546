//! HandleResolver: the mapping from a handle to a person.
//!
//! Lookups and inserts go to the people store; this module holds the
//! resolver itself and the fields a newly minted person gets from the
//! handle that introduced it.

use vstd::prelude::*;
use crate::people::types::Handle;
use crate::text::{str_contains, contains};

verus! {

/// Resolves handles against a people store `S`.
pub struct HandleResolver<'a, S> {
    pub store: &'a S,
}

impl<'a, S> HandleResolver<'a, S> {
    /// A resolver over `store`.
    pub fn new(store: &'a S) -> (r: Self)
        ensures
            r.store == store,
    {
        Self { store }
    }
}

/// The `(display_name, primary_email, primary_phone)` of a person minted
/// for a handle: a display name is the name; an email is the email; a
/// message id is an email when it holds an `@`, else a phone number.
pub open spec fn skeleton_of(h: Handle) -> (Option<Seq<char>>, Option<Seq<char>>, Option<Seq<char>>) {
    match h {
        Handle::DisplayName(s) => (Some(s@), None, None),
        Handle::Email(s) => (None, Some(s@), None),
        Handle::IMessage(s) => if contains(s@, "@"@) {
            (None, Some(s@), None)
        } else {
            (None, None, Some(s@))
        },
    }
}

/// The view of an optional string.
pub open spec fn view_opt(o: Option<String>) -> Option<Seq<char>> {
    match o {
        Some(s) => Some(s@),
        None => None,
    }
}

/// The fields of a person minted for the (canonical) handle `h`.
pub fn skeleton_fields(h: &Handle) -> (r: (Option<String>, Option<String>, Option<String>))
    ensures
        (view_opt(r.0), view_opt(r.1), view_opt(r.2)) == skeleton_of(*h),
{
    match h {
        Handle::DisplayName(s) => (Some(s.clone()), None, None),
        Handle::Email(s) => (None, Some(s.clone()), None),
        Handle::IMessage(s) => {
            if str_contains(s.as_str(), "@") {
                (None, Some(s.clone()), None)
            } else {
                (None, None, Some(s.clone()))
            }
        },
    }
}

} // verus!
