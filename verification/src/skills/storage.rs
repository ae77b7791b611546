//! Naming rules of the IndexedDB-style storage that skills use, and the
//! result of opening a database.
//!
//! Each database is one SQLite file; each object store is a table named
//! `store_` plus the store name with every character that is neither
//! alphanumeric nor `_` replaced by `_`. A skill's own database is
//! `skill_<id>`, and the keys of its key/value "store" carry the prefix
//! `_store_`.

use vstd::prelude::*;
use crate::text::{
    chars_of, is_alphanumeric, owned, push_str, starts_with, str_starts_with, string_of,
    string_of_range, u64_to_string, decimal, unicode_alphanumeric,
};

verus! {

/// The result of opening a database at a requested version.
#[derive(Debug, Clone)]
pub struct IdbOpenResult {
    /// True when the requested version is newer than the stored one.
    pub needs_upgrade: bool,
    /// The stored version (0 for a new database).
    pub old_version: u32,
    /// The object stores the database has.
    pub object_stores: Vec<String>,
}

/// The result of opening a database whose stored version is
/// `stored_version` (absent or unreadable: 0) at version `requested`.
pub fn open_result(stored_version: Option<u32>, requested: u32, object_stores: Vec<String>) -> (r: IdbOpenResult)
    ensures
        r.old_version == match stored_version {
            Some(v) => v,
            None => 0,
        },
        r.needs_upgrade == (requested > r.old_version),
        r.object_stores@ == object_stores@,
{
    let old_version = match stored_version {
        Some(v) => v,
        None => 0,
    };
    IdbOpenResult { needs_upgrade: requested > old_version, old_version, object_stores }
}

/// The stored version (0 when none) of a database.
pub open spec fn stored_or_zero(stored_version: Option<u32>) -> u32 {
    match stored_version {
        Some(v) => v,
        None => 0,
    }
}

/// The version stored after an open at `requested`: the larger of the two.
pub open spec fn version_after_open(stored_version: Option<u32>, requested: u32) -> u32 {
    if requested > stored_or_zero(stored_version) {
        requested
    } else {
        stored_or_zero(stored_version)
    }
}

/// The version to write back after an open: the requested one when the
/// open upgrades the database, nothing otherwise.
pub fn version_to_store(r: &IdbOpenResult, requested: u32) -> (w: Option<u32>)
    ensures
        r.needs_upgrade ==> w == Some(requested),
        !r.needs_upgrade ==> w is None,
{
    if r.needs_upgrade {
        Some(requested)
    } else {
        None
    }
}

/// What is stored after an open: the written version when there is one,
/// else what was stored before.
pub open spec fn stored_after(stored_version: Option<u32>, written: Option<u32>) -> Option<u32> {
    match written {
        Some(v) => Some(v),
        None => stored_version,
    }
}

/// Opening a database leaves the larger of the stored and the requested
/// versions stored, so that opening it again at the same version needs no
/// upgrade and reports that version as the stored one.
pub proof fn law_second_open_sees_stored_version(
    stored_version: Option<u32>,
    requested: u32,
    first: IdbOpenResult,
    written: Option<u32>,
    second: IdbOpenResult,
)
    requires
        first.old_version == stored_or_zero(stored_version),
        first.needs_upgrade == (requested > first.old_version),
        first.needs_upgrade ==> written == Some(requested),
        !first.needs_upgrade ==> written is None,
        second.old_version == stored_or_zero(stored_after(stored_version, written)),
        second.needs_upgrade == (requested > second.old_version),
    ensures
        stored_or_zero(stored_after(stored_version, written)) == version_after_open(stored_version, requested),
        second.old_version == version_after_open(stored_version, requested),
        !second.needs_upgrade,
{
}

/// The table-safe form of a character.
pub open spec fn safe_char(c: char) -> char {
    if unicode_alphanumeric(c) || c == '_' {
        c
    } else {
        '_'
    }
}

/// The table-safe form of a name.
pub open spec fn sanitized(s: Seq<char>) -> Seq<char> {
    s.map_values(|c: char| safe_char(c))
}

/// Sanitize a name for use as a SQLite table name: every character that is
/// neither alphanumeric nor `_` becomes `_`.
pub fn sanitize_name(name: &str) -> (r: String)
    ensures
        r@ == sanitized(name@),
{
    let v = chars_of(name);
    let mut out: Vec<char> = Vec::new();
    let mut i: usize = 0;
    while i < v.len()
        invariant
            i <= v@.len(),
            out@ == sanitized(v@.subrange(0, i as int)),
        decreases v@.len() - i,
    {
        let c = v[i];
        let d = if is_alphanumeric(c) || c == '_' {
            c
        } else {
            '_'
        };
        out.push(d);
        assert(sanitized(v@.subrange(0, i + 1)) =~= sanitized(v@.subrange(0, i as int)).push(safe_char(c)));
        i = i + 1;
    }
    assert(v@.subrange(0, v@.len() as int) =~= v@);
    string_of(&out)
}

/// The table of an object store.
pub fn table_name(store_name: &str) -> (r: String)
    ensures
        r@ == "store_"@ + sanitized(store_name@),
{
    let mut r = owned("store_");
    push_str(&mut r, sanitize_name(store_name).as_str());
    r
}

/// The database file of a database.
pub fn db_file_name(name: &str) -> (r: String)
    ensures
        r@ == name@ + ".sqlite"@,
{
    let mut r = owned(name);
    push_str(&mut r, ".sqlite");
    r
}

/// A skill's own database.
pub fn skill_db_name(skill_id: &str) -> (r: String)
    ensures
        r@ == "skill_"@ + skill_id@,
{
    let mut r = owned("skill_");
    push_str(&mut r, skill_id);
    r
}

/// The prefix of a skill's store keys in its key/value table.
pub const STORE_KEY_PREFIX: &'static str = "_store_";

/// The key/value key of a store key.
pub fn store_kv_key(key: &str) -> (r: String)
    ensures
        r@ == STORE_KEY_PREFIX@ + key@,
{
    let mut r = owned(STORE_KEY_PREFIX);
    push_str(&mut r, key);
    r
}

/// The store key of a key/value key: without the prefix when it has it,
/// unchanged otherwise.
pub fn store_key_of(kv_key: &str) -> (r: String)
    ensures
        starts_with(kv_key@, STORE_KEY_PREFIX@) ==> r@ == kv_key@.subrange(
            STORE_KEY_PREFIX@.len() as int,
            kv_key@.len() as int,
        ),
        !starts_with(kv_key@, STORE_KEY_PREFIX@) ==> r@ == kv_key@,
{
    proof {
        reveal_strlit("_store_");
    }
    if str_starts_with(kv_key, STORE_KEY_PREFIX) {
        let v = chars_of(kv_key);
        string_of_range(&v, 7, v.len())
    } else {
        owned(kv_key)
    }
}

/// The store keys among key/value keys, in order: each key that carries
/// the prefix, without it.
pub open spec fn store_keys_among(kv_keys: Seq<Seq<char>>) -> Seq<Seq<char>>
    decreases kv_keys.len(),
{
    if kv_keys.len() == 0 {
        Seq::empty()
    } else {
        let k = kv_keys.last();
        let rest = store_keys_among(kv_keys.drop_last());
        if starts_with(k, STORE_KEY_PREFIX@) {
            rest.push(k.subrange(STORE_KEY_PREFIX@.len() as int, k.len() as int))
        } else {
            rest
        }
    }
}

/// The store keys of a skill's key/value keys: those with the `_store_`
/// prefix, without it, in the order given.
pub fn store_keys_of(kv_keys: &Vec<String>) -> (r: Vec<String>)
    ensures
        r@.map_values(|s: String| s@) == store_keys_among(kv_keys@.map_values(|s: String| s@)),
{
    let mut out: Vec<String> = Vec::new();
    let mut i: usize = 0;
    while i < kv_keys.len()
        invariant
            i <= kv_keys@.len(),
            out@.map_values(|s: String| s@) == store_keys_among(
                kv_keys@.subrange(0, i as int).map_values(|s: String| s@),
            ),
        decreases kv_keys@.len() - i,
    {
        let k = kv_keys[i].as_str();
        let ghost before = kv_keys@.subrange(0, i as int).map_values(|s: String| s@);
        let ghost after = kv_keys@.subrange(0, i + 1).map_values(|s: String| s@);
        assert(after.drop_last() =~= before);
        assert(after.last() == k@);
        if str_starts_with(k, STORE_KEY_PREFIX) {
            let s = store_key_of(k);
            out.push(s);
            assert(out@.map_values(|s: String| s@) =~= store_keys_among(before).push(s@));
        }
        i = i + 1;
    }
    assert(kv_keys@.subrange(0, kv_keys@.len() as int) =~= kv_keys@);
    out
}

/// The `LIMIT` clause of a bounded read; empty when unbounded.
pub fn limit_clause(count: Option<u32>) -> (r: String)
    ensures
        r@ == match count {
            Some(c) => " LIMIT "@ + decimal(c as nat),
            None => Seq::<char>::empty(),
        },
{
    match count {
        Some(c) => {
            let mut r = owned(" LIMIT ");
            push_str(&mut r, u64_to_string(c as u64).as_str());
            r
        },
        None => String::new(),
    }
}

/// A sanitized name is as long as the name and holds only alphanumeric
/// characters and `_`, so it can stand in a table name.
pub proof fn law_sanitized_names_are_table_safe(name: Seq<char>)
    ensures
        sanitized(name).len() == name.len(),
        forall|i: int|
            0 <= i < name.len() ==> unicode_alphanumeric(#[trigger] sanitized(name)[i]) || sanitized(name)[i]
                == '_',
{
}

} // verus!
