//! Recall from the global memory namespace.
//!
//! Ranked document hits come first, as `global:<rank>`. When a session is
//! given, its conversation entries are added when they contain at least one
//! of the query's words (both lower-cased); an entry's score is the share
//! of the query words it contains, and it is keyed `<session>:<role>`.

use vstd::prelude::*;
use crate::text::{
    chars_of, contains, contains_seq, i64_to_string, is_whitespace, is_ws, owned, push_str,
    str_eq, to_lowercase, u64_to_string, decimal, signed_decimal, unicode_lower,
};

verus! {

/// The category of a memory entry.
#[derive(Debug, Clone)]
pub enum MemoryCategory {
    Core,
    Daily,
    Conversation,
    Custom(String),
}

/// The category stored as `raw`: the three known names, else a custom one.
pub fn memory_category_from_stored(raw: &str) -> (c: MemoryCategory)
    ensures
        raw@ == "core"@ ==> c is Core,
        raw@ == "daily"@ ==> c is Daily,
        raw@ == "conversation"@ ==> c is Conversation,
        raw@ != "core"@ && raw@ != "daily"@ && raw@ != "conversation"@ ==> (c matches MemoryCategory::Custom(s)
            && s@ == raw@),
{
    proof {
        reveal_strlit("core");
        reveal_strlit("daily");
        reveal_strlit("conversation");
        assert("core"@.len() == 4 && "daily"@.len() == 5 && "conversation"@.len() == 12);
    }
    if str_eq(raw, "core") {
        MemoryCategory::Core
    } else if str_eq(raw, "daily") {
        MemoryCategory::Daily
    } else if str_eq(raw, "conversation") {
        MemoryCategory::Conversation
    } else {
        MemoryCategory::Custom(owned(raw))
    }
}

/// The words of `s` after the partial word `cur`, as `str::split_whitespace`
/// gives them: maximal runs of non-whitespace characters.
pub open spec fn words_from(s: Seq<char>, cur: Seq<char>) -> Seq<Seq<char>>
    decreases s.len(),
{
    if s.len() == 0 {
        if cur.len() == 0 {
            Seq::empty()
        } else {
            seq![cur]
        }
    } else if is_ws(s[0]) {
        (if cur.len() == 0 {
            Seq::empty()
        } else {
            seq![cur]
        }) + words_from(s.drop_first(), Seq::empty())
    } else {
        words_from(s.drop_first(), cur.push(s[0]))
    }
}

/// The words of `s`.
pub open spec fn words_of(s: Seq<char>) -> Seq<Seq<char>> {
    words_from(s, Seq::empty())
}

/// How many of `words` occur in `text`.
pub open spec fn count_found(words: Seq<Seq<char>>, text: Seq<char>) -> nat
    decreases words.len(),
{
    if words.len() == 0 {
        0
    } else {
        count_found(words.drop_last(), text) + if contains(text, words.last()) {
            1nat
        } else {
            0nat
        }
    }
}

fn split_words(s: &Vec<char>) -> (out: Vec<Vec<char>>)
    ensures
        out@.map_values(|w: Vec<char>| w@) == words_of(s@),
{
    let mut out: Vec<Vec<char>> = Vec::new();
    let mut cur: Vec<char> = Vec::new();
    let mut i: usize = 0;
    assert(s@.subrange(0, s@.len() as int) =~= s@);
    assert(out@.map_values(|w: Vec<char>| w@) =~= Seq::<Seq<char>>::empty());
    assert(cur@ =~= Seq::<char>::empty());
    while i < s.len()
        invariant
            i <= s@.len(),
            words_of(s@) == out@.map_values(|w: Vec<char>| w@) + words_from(
                s@.subrange(i as int, s@.len() as int),
                cur@,
            ),
        decreases s@.len() - i,
    {
        let ghost rest = s@.subrange(i as int, s@.len() as int);
        assert(rest.drop_first() =~= s@.subrange(i + 1, s@.len() as int));
        let c = s[i];
        if is_whitespace(c) {
            let ghost before = out@.map_values(|w: Vec<char>| w@);
            let ghost cv = cur@;
            if cur.len() > 0 {
                out.push(cur);
                assert(out@.map_values(|w: Vec<char>| w@) =~= before.push(cv));
                assert(before + words_from(rest, cv) =~= before.push(cv) + words_from(
                    rest.drop_first(),
                    Seq::empty(),
                ));
            } else {
                assert(before + words_from(rest, cv) =~= before + words_from(rest.drop_first(), Seq::empty()));
            }
            cur = Vec::new();
            assert(cur@ =~= Seq::<char>::empty());
        } else {
            cur.push(c);
        }
        i = i + 1;
    }
    let ghost before = out@.map_values(|w: Vec<char>| w@);
    assert(s@.subrange(s@.len() as int, s@.len() as int) =~= Seq::<char>::empty());
    if cur.len() > 0 {
        out.push(cur);
        assert(out@.map_values(|w: Vec<char>| w@) =~= before + words_from(Seq::empty(), cur@));
    } else {
        assert(before =~= before + words_from(Seq::<char>::empty(), cur@));
    }
    out
}

/// How a conversation entry matches a query: the number of the query's
/// words (lower-cased) found in the lower-cased content, and the number of
/// query words.
pub fn episodic_match(query: &str, content: &str) -> (r: (usize, usize))
    ensures
        r.0 == count_found(words_of(unicode_lower(query@)), unicode_lower(content@)),
        r.1 == words_of(unicode_lower(query@)).len(),
        r.0 <= r.1,
{
    let q = to_lowercase(query);
    let c = to_lowercase(content);
    let qv = chars_of(q.as_str());
    let cv = chars_of(c.as_str());
    let words = split_words(&qv);
    let ghost ws = words@.map_values(|w: Vec<char>| w@);
    let mut found: usize = 0;
    let mut i: usize = 0;
    while i < words.len()
        invariant
            i <= words@.len(),
            ws == words@.map_values(|w: Vec<char>| w@),
            found == count_found(ws.subrange(0, i as int), cv@),
            found <= i,
        decreases words@.len() - i,
    {
        assert(ws.subrange(0, i as int) =~= ws.subrange(0, i + 1).drop_last());
        assert(ws.subrange(0, i + 1).last() == words@[i as int]@);
        if contains_seq(&cv, &words[i]) {
            found = found + 1;
        }
        i = i + 1;
    }
    assert(ws.subrange(0, words@.len() as int) =~= ws);
    (found, words.len())
}

/// The id of the ranked hit at `rank`.
pub fn global_entry_id(rank: usize) -> (r: String)
    ensures
        r@ == "global:"@ + decimal(rank as nat),
{
    let mut r = owned("global:");
    push_str(&mut r, u64_to_string(rank as u64).as_str());
    r
}

/// The id of a conversation entry (0 when it has none).
pub fn episodic_entry_id(id: Option<i64>) -> (r: String)
    ensures
        r@ == "episodic:"@ + signed_decimal(match id {
            Some(v) => v as int,
            None => 0,
        }),
{
    let mut r = owned("episodic:");
    let v = match id {
        Some(v) => v,
        None => 0,
    };
    push_str(&mut r, i64_to_string(v).as_str());
    r
}

/// The key of a conversation entry: its session and role.
pub fn episodic_entry_key(session_id: &str, role: &str) -> (r: String)
    ensures
        r@ == session_id@ + ":"@ + role@,
{
    let mut r = owned(session_id);
    push_str(&mut r, ":");
    push_str(&mut r, role);
    r
}

} // verus!
