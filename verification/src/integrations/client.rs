//! Requests to the backend and the reading of its response envelope.
//!
//! Every request goes to the backend URL followed by the path, with a
//! bearer token. A response that is not a success status fails with the
//! status; a success carries an envelope whose `success` flag, `error` and
//! `data` decide the result.

use vstd::prelude::*;
use crate::text::{blank, is_blank, owned, push_str, trim, trim_str};

verus! {

/// The message of a failed envelope that gives no error.
pub const UNKNOWN_BACKEND_ERROR: &'static str = "unknown backend error";

/// The URL of a request: the backend URL followed by the path.
pub fn request_url(backend_url: &str, path: &str) -> (r: String)
    ensures
        r@ == backend_url@ + path@,
{
    let mut r = owned(backend_url);
    push_str(&mut r, path);
    r
}

/// The `Authorization` header value for a token.
pub fn bearer(token: &str) -> (r: String)
    ensures
        r@ == "Bearer "@ + token@,
{
    let mut r = owned("Bearer ");
    push_str(&mut r, token);
    r
}

/// The auth token of the configuration: the trimmed API key, when it is
/// not blank. Without one no client is built.
pub fn auth_token(api_key: &Option<String>) -> (r: Option<String>)
    ensures
        match *api_key {
            Some(k) => if is_blank(k@) {
                r is None
            } else {
                r matches Some(t) && t@ == trim(k@)
            },
            None => r is None,
        },
{
    match api_key {
        Some(k) => if blank(k.as_str()) {
            None
        } else {
            Some(trim_str(k.as_str()))
        },
        None => None,
    }
}

/// The error for a response whose status is not a success.
pub fn status_error(method: &str, url: &str, status: &str) -> (r: String)
    ensures
        r@ == "Backend returned "@ + status@ + " for "@ + method@ + " "@ + url@,
{
    let mut r = owned("Backend returned ");
    push_str(&mut r, status);
    push_str(&mut r, " for ");
    push_str(&mut r, method);
    push_str(&mut r, " ");
    push_str(&mut r, url);
    r
}

/// The result of a response envelope.
pub open spec fn envelope_result<T>(method: Seq<char>, url: Seq<char>, success: bool, error: Option<String>, data: Option<T>) -> Result<T, Seq<char>> {
    if !success {
        let msg = match error {
            Some(e) => e@,
            None => UNKNOWN_BACKEND_ERROR@,
        };
        Err("Backend error for "@ + method + " "@ + url + ": "@ + msg)
    } else {
        match data {
            Some(d) => Ok(d),
            None => Err("Backend returned success but no data for "@ + method + " "@ + url),
        }
    }
}

/// Read a response envelope: a failed one gives its error (or "unknown
/// backend error"); a successful one gives its data, or an error when it
/// has none.
pub fn unwrap_envelope<T>(method: &str, url: &str, success: bool, error: Option<String>, data: Option<T>) -> (r: Result<T, String>)
    ensures
        match envelope_result(method@, url@, success, error, data) {
            Ok(d) => r matches Ok(x) && x == d,
            Err(m) => r matches Err(e) && e@ == m,
        },
{
    if !success {
        let msg = match error {
            Some(e) => e,
            None => owned(UNKNOWN_BACKEND_ERROR),
        };
        let mut r = owned("Backend error for ");
        push_str(&mut r, method);
        push_str(&mut r, " ");
        push_str(&mut r, url);
        push_str(&mut r, ": ");
        push_str(&mut r, msg.as_str());
        return Err(r);
    }
    match data {
        Some(d) => Ok(d),
        None => {
            let mut r = owned("Backend returned success but no data for ");
            push_str(&mut r, method);
            push_str(&mut r, " ");
            push_str(&mut r, url);
            Err(r)
        },
    }
}

} // verus!
