//! The per-event decisions of a calendar fetch.
//!
//! A fetch walks the events of the window in order; it stops once `limit`
//! new events are collected, skips events that the local cache already
//! knows, and keeps the rest (an event whose cache lookup failed counts as
//! new). Each kept event is written to the cache before the next lookup,
//! so an event whose (UID, calendar) pair was kept earlier in the walk is
//! skipped too: the walk returns at most `limit` events, in their order,
//! none cached before, and no pair twice.

use vstd::prelude::*;
use crate::text::str_eq;

verus! {

/// What a fetch does with the next event.
#[derive(Debug, Clone, Copy, PartialEq, Eq, Structural)]
pub enum FetchAction {
    /// Enough events are collected: stop the walk.
    Stop,
    /// The event is already cached: skip it.
    Skip,
    /// The event is new: cache it and return it.
    Keep,
}

/// Decide the next step, after `collected` new events, for an event whose
/// cache lookup gave `known` (`None` when the lookup failed).
pub fn fetch_action(collected: usize, limit: usize, known: Option<bool>) -> (a: FetchAction)
    ensures
        collected >= limit ==> a == FetchAction::Stop,
        collected < limit && known == Some(true) ==> a == FetchAction::Skip,
        collected < limit && known != Some(true) ==> a == FetchAction::Keep,
{
    if collected >= limit {
        return FetchAction::Stop;
    }
    match known {
        Some(true) => FetchAction::Skip,
        _ => FetchAction::Keep,
    }
}

/// The UID that identifies an event across devices: the external
/// identifier when the store has one, else the local identifier.
pub fn pick_ical_uid(external: Option<String>, local: String) -> (u: String)
    ensures
        u@ == match external {
            Some(e) => e@,
            None => local@,
        },
{
    match external {
        Some(e) => e,
        None => local,
    }
}


/// An event's cache key: its iCal UID and its calendar id.
pub type PairView = (Seq<char>, Seq<char>);

/// The view of an owned (UID, calendar id) pair.
pub open spec fn pair_view(p: (String, String)) -> PairView {
    (p.0@, p.1@)
}

/// The views of a list of pairs.
pub open spec fn pairs_view(v: Seq<(String, String)>) -> Seq<PairView> {
    v.map_values(|p: (String, String)| pair_view(p))
}

/// Some kept position among `kept` holds the pair `p`.
pub open spec fn kept_holds(pairs: Seq<PairView>, kept: Seq<usize>, p: PairView) -> bool {
    exists|j: int| 0 <= j < kept.len() && pairs[kept[j] as int] == p
}

/// The events a fetch keeps, by position, walking the events in order: it
/// stops once `limit` are kept, and skips an event whose pair the cache
/// held before the fetch (`cached`) or that an event kept earlier in this
/// fetch already wrote to the cache.
pub open spec fn fetch_walk(pairs: Seq<PairView>, cached: Seq<PairView>, limit: usize) -> Seq<usize>
    decreases pairs.len(),
{
    if pairs.len() == 0 {
        Seq::empty()
    } else {
        let r = fetch_walk(pairs.drop_last(), cached, limit);
        let p = pairs.last();
        if r.len() >= limit || cached.contains(p) || kept_holds(pairs, r, p) {
            r
        } else {
            r.push((pairs.len() - 1) as usize)
        }
    }
}

/// What every walk keeps: at most `limit` positions, increasing, below
/// `n`, with pairs the cache did not hold and no pair twice.
pub open spec fn walk_sound(pairs: Seq<PairView>, cached: Seq<PairView>, limit: usize, r: Seq<usize>, n: int) -> bool {
    &&& r.len() <= limit
    &&& forall|a: int| 0 <= a < r.len() ==> #[trigger] r[a] < n && !cached.contains(pairs[r[a] as int])
    &&& forall|a: int, b: int| 0 <= a < b < r.len() ==> r[a] < r[b] && pairs[r[a] as int] != pairs[r[b] as int]
}

proof fn lemma_walk_prefix(pairs: Seq<PairView>, cached: Seq<PairView>, limit: usize, i: int)
    requires
        0 <= i < pairs.len(),
    ensures
        fetch_walk(pairs.take(i + 1), cached, limit) == ({
            let r = fetch_walk(pairs.take(i), cached, limit);
            if r.len() >= limit || cached.contains(pairs[i]) || kept_holds(pairs, r, pairs[i]) {
                r
            } else {
                r.push(i as usize)
            }
        }),
{
    let t = pairs.take(i + 1);
    assert(t.drop_last() =~= pairs.take(i));
    let r = fetch_walk(pairs.take(i), cached, limit);
    lemma_walk_bounded(pairs.take(i), cached, limit);
    assert(kept_holds(t, r, pairs[i]) == kept_holds(pairs, r, pairs[i])) by {
        if kept_holds(t, r, pairs[i]) {
            let j = choose|j: int| 0 <= j < r.len() && t[r[j] as int] == pairs[i];
            assert(r[j] < i);
        }
        if kept_holds(pairs, r, pairs[i]) {
            let j = choose|j: int| 0 <= j < r.len() && pairs[r[j] as int] == pairs[i];
            assert(r[j] < i);
        }
    }
}

proof fn lemma_walk_bounded(pairs: Seq<PairView>, cached: Seq<PairView>, limit: usize)
    ensures
        forall|a: int| 0 <= a < fetch_walk(pairs, cached, limit).len() ==> #[trigger] fetch_walk(pairs, cached, limit)[a] < pairs.len(),
        fetch_walk(pairs, cached, limit).len() <= pairs.len(),
    decreases pairs.len(),
{
    if pairs.len() > 0 {
        lemma_walk_bounded(pairs.drop_last(), cached, limit);
    }
}

proof fn lemma_walk_stopped(pairs: Seq<PairView>, cached: Seq<PairView>, limit: usize, i: int, j: int)
    requires
        0 <= i <= j <= pairs.len(),
        fetch_walk(pairs.take(i), cached, limit).len() >= limit,
    ensures
        fetch_walk(pairs.take(j), cached, limit) == fetch_walk(pairs.take(i), cached, limit),
    decreases j - i,
{
    if j > i {
        lemma_walk_stopped(pairs, cached, limit, i, j - 1);
        lemma_walk_prefix(pairs, cached, limit, j - 1);
    }
}

/// Whether `list` holds the pair (`u`, `c`).
fn contains_pair(list: &Vec<(String, String)>, u: &str, c: &str) -> (b: bool)
    ensures
        b == pairs_view(list@).contains((u@, c@)),
{
    let ghost pv = pairs_view(list@);
    let mut i: usize = 0;
    while i < list.len()
        invariant
            i <= list@.len(),
            pv == pairs_view(list@),
            forall|j: int| 0 <= j < i ==> pv[j] != (u@, c@),
        decreases list@.len() - i,
    {
        if str_eq(list[i].0.as_str(), u) && str_eq(list[i].1.as_str(), c) {
            assert(pv[i as int] == (u@, c@));
            return true;
        }
        i = i + 1;
    }
    false
}

/// Whether an event kept so far has the pair (`u`, `c`).
fn kept_has(pairs: &Vec<(String, String)>, kept: &Vec<usize>, u: &str, c: &str) -> (b: bool)
    requires
        forall|a: int| 0 <= a < kept@.len() ==> #[trigger] kept@[a] < pairs@.len(),
    ensures
        b == kept_holds(pairs_view(pairs@), kept@, (u@, c@)),
{
    let ghost pv = pairs_view(pairs@);
    let mut j: usize = 0;
    while j < kept.len()
        invariant
            j <= kept@.len(),
            pv == pairs_view(pairs@),
            forall|a: int| 0 <= a < kept@.len() ==> #[trigger] kept@[a] < pairs@.len(),
            forall|a: int| 0 <= a < j ==> pv[kept@[a] as int] != (u@, c@),
        decreases kept@.len() - j,
    {
        let k = kept[j];
        if str_eq(pairs[k].0.as_str(), u) && str_eq(pairs[k].1.as_str(), c) {
            assert(pv[kept@[j as int] as int] == (u@, c@));
            return true;
        }
        j = j + 1;
    }
    false
}

/// The walk of a fetch over the events of the window, given as their
/// (iCal UID, calendar id) pairs in order, with `cached` the pairs the
/// cache held before the fetch. Each step follows `fetch_action`, where an
/// event is known when the cache held its pair or an event kept earlier in
/// the walk (and so written to the cache) has it. Returns the positions of
/// the kept events: at most `limit`, in order, none cached before, and no
/// pair twice.
pub fn plan_fetch(pairs: &Vec<(String, String)>, cached: &Vec<(String, String)>, limit: usize) -> (r: Vec<usize>)
    ensures
        r@ == fetch_walk(pairs_view(pairs@), pairs_view(cached@), limit),
        walk_sound(pairs_view(pairs@), pairs_view(cached@), limit, r@, pairs@.len() as int),
{
    let ghost pv = pairs_view(pairs@);
    let ghost cv = pairs_view(cached@);
    let mut r: Vec<usize> = Vec::new();
    let mut i: usize = 0;
    while i < pairs.len()
        invariant_except_break
            i <= pairs@.len(),
            pv == pairs_view(pairs@),
            cv == pairs_view(cached@),
            r@ == fetch_walk(pv.take(i as int), cv, limit),
            walk_sound(pv, cv, limit, r@, i as int),
        ensures
            i <= pairs@.len(),
            pv == pairs_view(pairs@),
            cv == pairs_view(cached@),
            r@ == fetch_walk(pv.take(i as int), cv, limit),
            walk_sound(pv, cv, limit, r@, i as int),
            r@.len() >= limit || i == pairs@.len(),
        decreases pairs@.len() - i,
    {
        proof {
            lemma_walk_prefix(pv, cv, limit, i as int);
        }
        let u = pairs[i].0.as_str();
        let c = pairs[i].1.as_str();
        assert(pv[i as int] == (u@, c@));
        let known = contains_pair(cached, u, c) || kept_has(pairs, &r, u, c);
        match fetch_action(r.len(), limit, Some(known)) {
            FetchAction::Stop => {
                break;
            },
            FetchAction::Skip => {},
            FetchAction::Keep => {
                let ghost old_r = r@;
                r.push(i);
                proof {
                    assert forall|a: int, b: int| 0 <= a < b < r@.len() implies r@[a] < r@[b] && pv[r@[a] as int] != pv[
                        r@[b] as int
                    ] by {
                        if b == old_r.len() {
                            assert(r@[a] == old_r[a]);
                            if pv[old_r[a] as int] == pv[i as int] {
                                assert(kept_holds(pv, old_r, (u@, c@)));
                            }
                        } else {
                            assert(r@[a] == old_r[a] && r@[b] == old_r[b]);
                        }
                    }
                }
            },
        }
        i = i + 1;
    }
    proof {
        if i < pairs@.len() {
            lemma_walk_stopped(pv, cv, limit, i as int, pairs@.len() as int);
        }
        assert(pv.take(pairs@.len() as int) =~= pv);
    }
    r
}

} // verus!
