//! Conventions of the memory client for skill documents.

use vstd::prelude::*;
use crate::text::{owned, push_str, trim, trim_str};

verus! {

/// The namespace that holds a skill's documents: `skill-` and the trimmed
/// skill id.
pub fn skill_namespace(skill_id: &str) -> (r: String)
    ensures
        r@ == "skill-"@ + trim(skill_id@),
{
    let mut r = owned("skill-");
    push_str(&mut r, trim_str(skill_id).as_str());
    r
}

/// The source type and priority a synced skill document gets: the given
/// ones, else `doc` and `medium`.
pub fn skill_document_defaults(source_type: Option<String>, priority: Option<String>) -> (r: (String, String))
    ensures
        r.0@ == match source_type {
            Some(s) => s@,
            None => "doc"@,
        },
        r.1@ == match priority {
            Some(p) => p@,
            None => "medium"@,
        },
{
    let s = match source_type {
        Some(s) => s,
        None => owned("doc"),
    };
    let p = match priority {
        Some(p) => p,
        None => owned("medium"),
    };
    (s, p)
}

} // verus!
