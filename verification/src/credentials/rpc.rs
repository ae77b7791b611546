//! Checks of the credential RPC handlers.
//!
//! A session token is stored trimmed and must not be blank; an optional
//! user id is kept only when it is not blank. Provider credentials need a
//! non-blank provider and at least one credential: the token given (if not
//! blank), else the `token` or `api_key` field, or some other field.

use vstd::prelude::*;
use crate::text::{blank, is_blank, owned, trim, trim_str};

verus! {

/// Check a session token: trimmed, it must not be empty.
pub fn session_token(token: &str) -> (r: Result<String, String>)
    ensures
        is_blank(token@) ==> (r matches Err(e) && e@ == "token is required"@),
        !is_blank(token@) ==> (r matches Ok(t) && t@ == trim(token@)),
{
    if blank(token) {
        return Err(owned("token is required"));
    }
    Ok(trim_str(token))
}

/// A trimmed optional value, dropped when blank.
pub fn non_blank_trimmed(v: Option<String>) -> (r: Option<String>)
    ensures
        match v {
            Some(s) => if is_blank(s@) {
                r is None
            } else {
                r matches Some(t) && t@ == trim(s@)
            },
            None => r is None,
        },
{
    match v {
        Some(s) => if blank(s.as_str()) {
            None
        } else {
            Some(trim_str(s.as_str()))
        },
        None => None,
    }
}

/// Check a provider name: trimmed, it must not be empty.
pub fn provider_name(provider: &str) -> (r: Result<String, String>)
    ensures
        is_blank(provider@) ==> (r matches Err(e) && e@ == "provider is required"@),
        !is_blank(provider@) ==> (r matches Ok(p) && p@ == trim(provider@)),
{
    if blank(provider) {
        return Err(owned("provider is required"));
    }
    Ok(trim_str(provider))
}

/// The token to store for a provider: the given token, trimmed, when it is
/// not blank; else the `token` field; else the `api_key` field; else empty.
/// It is an error when that leaves no token and no field at all.
pub fn provider_token(
    token: Option<String>,
    field_token: Option<String>,
    field_api_key: Option<String>,
    fields_empty: bool,
) -> (r: Result<String, String>)
    ensures
        ({
            let chosen: Seq<char> = match token {
                Some(t) if !is_blank(t@) => trim(t@),
                _ => match field_token {
                    Some(f) => f@,
                    None => match field_api_key {
                        Some(k) => k@,
                        None => Seq::empty(),
                    },
                },
            };
            if chosen.len() == 0 && fields_empty {
                r matches Err(e) && e@ == "provide at least one credential via token or fields"@
            } else {
                r matches Ok(t) && t@ == chosen
            }
        }),
{
    let given = non_blank_trimmed(token);
    let chosen = match given {
        Some(t) => t,
        None => match field_token {
            Some(f) => f,
            None => match field_api_key {
                Some(k) => k,
                None => String::new(),
            },
        },
    };
    if chosen.as_str().is_empty() && fields_empty {
        return Err(owned("provide at least one credential via token or fields"));
    }
    Ok(chosen)
}

} // verus!
