//! Contacts from the system address book.
//!
//! Only macOS has an address book database to read; everywhere else the
//! book is empty. A contact is kept only when it has a name, an email or a
//! phone number; names are trimmed, and blank emails and phones are
//! dropped.

use vstd::prelude::*;
use crate::people::types::AddressBookContact;
use crate::text::{blank, is_blank, trim, trim_str};

verus! {

/// Read the address book. This build has no system address book, so the
/// result is always empty.
pub fn read() -> (r: Result<Vec<AddressBookContact>, String>)
    ensures
        r matches Ok(v) && v@.len() == 0,
{
    Ok(Vec::new())
}

/// The non-blank values of `rows`, in order; absent values are dropped.
pub open spec fn nonblank_values(rows: Seq<Option<String>>) -> Seq<Seq<char>>
    decreases rows.len(),
{
    if rows.len() == 0 {
        Seq::empty()
    } else {
        let rest = nonblank_values(rows.drop_last());
        match rows.last() {
            Some(s) => if is_blank(s@) {
                rest
            } else {
                rest.push(s@)
            },
            None => rest,
        }
    }
}

/// Keep the non-blank values of a column, in order.
pub fn keep_nonblank(rows: Vec<Option<String>>) -> (out: Vec<String>)
    ensures
        out@.map_values(|s: String| s@) == nonblank_values(rows@),
{
    let mut out: Vec<String> = Vec::new();
    let mut i: usize = 0;
    while i < rows.len()
        invariant
            i <= rows@.len(),
            out@.map_values(|s: String| s@) == nonblank_values(rows@.subrange(0, i as int)),
        decreases rows@.len() - i,
    {
        assert(rows@.subrange(0, i as int) =~= rows@.subrange(0, i + 1).drop_last());
        match &rows[i] {
            Some(s) => {
                if !blank(s.as_str()) {
                    out.push(s.clone());
                }
            },
            None => {},
        }
        proof {
            assert(out@.map_values(|s: String| s@) =~= nonblank_values(rows@.subrange(0, i + 1)));
        }
        i = i + 1;
    }
    assert(rows@.subrange(0, rows@.len() as int) =~= rows@);
    out
}

/// The contact of one address-book record: the trimmed name (absent when
/// blank), with the record's emails and phones; `None` when the record has
/// neither a name, nor an email, nor a phone.
pub fn contact_from_row(name: &str, emails: Vec<String>, phones: Vec<String>) -> (c: Option<AddressBookContact>)
    ensures
        match c {
            None => is_blank(name@) && emails@.len() == 0 && phones@.len() == 0,
            Some(ct) => !(is_blank(name@) && emails@.len() == 0 && phones@.len() == 0)
                && (if is_blank(name@) {
                ct.display_name is None
            } else {
                ct.display_name matches Some(d) && d@ == trim(name@)
            }) && ct.emails@ == emails@ && ct.phones@ == phones@,
        },
{
    let display_name = if blank(name) {
        None
    } else {
        Some(trim_str(name))
    };
    if display_name.is_none() && emails.len() == 0 && phones.len() == 0 {
        return None;
    }
    Some(AddressBookContact { display_name, emails, phones })
}

} // verus!
