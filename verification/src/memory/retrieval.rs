//! Memory-tree retrieval: request shapes and selection rules.
//!
//! A source query selects trees by `source_id`, else by kind (a scope
//! matches a kind when, lower-cased, it starts with `<kind>:` or with one
//! of the kind's known platform prefixes), else all source trees. Hits may
//! be restricted to a time window that ends now, and come back newest first
//! (by the end of their time range; ties keep their order), truncated to
//! the limit, which is 10 when 0 is given.

use vstd::prelude::*;
use crate::text::{starts_with, str_eq, str_starts_with, to_lowercase, unicode_lower, owned, push_str};

verus! {

// ── Requests and responses ──────────────────────────────────────────────

/// Parameters of `memory_tree_query_source`.
#[derive(Clone, Debug, Default)]
pub struct QuerySourceRequest {
    pub source_id: Option<String>,
    pub source_kind: Option<String>,
    pub time_window_days: Option<u32>,
    /// Optional natural-language query used to rerank candidates.
    pub query: Option<String>,
    pub limit: Option<usize>,
}

/// Parameters of `memory_tree_query_global`.
#[derive(Clone, Debug)]
pub struct QueryGlobalRequest {
    pub window_days: u32,
}

/// Parameters of `memory_tree_query_topic`.
#[derive(Clone, Debug)]
pub struct QueryTopicRequest {
    pub entity_id: String,
    pub time_window_days: Option<u32>,
    /// Optional natural-language query used to rerank candidates.
    pub query: Option<String>,
    pub limit: Option<usize>,
}

/// Parameters of `memory_tree_search_entities`.
#[derive(Clone, Debug)]
pub struct SearchEntitiesRequest {
    pub query: String,
    pub kinds: Option<Vec<String>>,
    pub limit: Option<usize>,
}

/// Result of `memory_tree_search_entities`; `M` is an entity match.
#[derive(Clone, Debug)]
pub struct SearchEntitiesResponse<M> {
    pub matches: Vec<M>,
}

/// Parameters of `memory_tree_drill_down`.
#[derive(Clone, Debug)]
pub struct DrillDownRequest {
    pub node_id: String,
    pub max_depth: Option<u32>,
    pub query: Option<String>,
    pub limit: Option<usize>,
}

/// Result of `memory_tree_drill_down`; `H` is a retrieval hit.
#[derive(Clone, Debug)]
pub struct DrillDownResponse<H> {
    pub hits: Vec<H>,
}

/// Parameters of `memory_tree_fetch_leaves`.
#[derive(Clone, Debug)]
pub struct FetchLeavesRequest {
    pub chunk_ids: Vec<String>,
}

/// Result of `memory_tree_fetch_leaves`; `H` is a retrieval hit.
#[derive(Clone, Debug)]
pub struct FetchLeavesResponse<H> {
    pub hits: Vec<H>,
}

// ── Limits and windows ──────────────────────────────────────────────────

/// The limit used when a query asks for 0 hits.
pub const DEFAULT_LIMIT: usize = 10;

/// The effective limit of a query: 10 when 0 is given.
pub fn effective_limit(limit: usize) -> (r: usize)
    ensures
        r == if limit == 0 {
            DEFAULT_LIMIT
        } else {
            limit
        },
{
    if limit == 0 {
        DEFAULT_LIMIT
    } else {
        limit
    }
}

/// Seconds in a day.
pub const SECS_PER_DAY: i64 = 86400;

/// True when the time range `[start, end]` (Unix seconds) overlaps the
/// window of `window_days` days that ends at `now`.
pub fn in_window(start: i64, end: i64, now: i64, window_days: u32) -> (b: bool)
    requires
        now - 4294967295 * SECS_PER_DAY >= i64::MIN,
    ensures
        b == (end >= now - window_days * SECS_PER_DAY && start <= now),
{
    let span: i64 = (window_days as i64) * SECS_PER_DAY;
    let window_start = now - span;
    end >= window_start && start <= now
}

// ── Scope matching ──────────────────────────────────────────────────────

/// The platform prefixes known to belong to a kind.
pub open spec fn platform_prefixes(kind: Seq<char>) -> Seq<Seq<char>> {
    if kind == "chat"@ {
        seq!["slack:"@, "discord:"@, "telegram:"@, "whatsapp:"@]
    } else if kind == "email"@ {
        seq!["gmail:"@, "imap:"@]
    } else if kind == "document"@ {
        seq!["notion:"@, "drive:"@, "doc:"@]
    } else {
        Seq::empty()
    }
}

/// True when a tree's scope falls under a kind.
pub open spec fn scope_in_kind(scope: Seq<char>, kind: Seq<char>) -> bool {
    let lower = unicode_lower(scope);
    ||| starts_with(lower, kind + ":"@)
    ||| exists|i: int|
        0 <= i < platform_prefixes(kind).len() && starts_with(lower, #[trigger] platform_prefixes(kind)[i])
}

/// Decide whether a tree's `scope` falls under `kind_prefix`: the
/// lower-cased scope starts with `<kind>:` or with a platform prefix known
/// for the kind (`slack:`, `discord:`, `telegram:`, `whatsapp:` for chat;
/// `gmail:`, `imap:` for email; `notion:`, `drive:`, `doc:` for document).
pub fn scope_matches_kind(scope: &str, kind_prefix: &str) -> (b: bool)
    ensures
        b == scope_in_kind(scope@, kind_prefix@),
{
    let lower = to_lowercase(scope);
    let mut own = owned(kind_prefix);
    push_str(&mut own, ":");
    if str_starts_with(lower.as_str(), own.as_str()) {
        return true;
    }
    let l = lower.as_str();
    let ghost ps = platform_prefixes(kind_prefix@);
    if str_eq(kind_prefix, "chat") {
        let r = str_starts_with(l, "slack:") || str_starts_with(l, "discord:") || str_starts_with(
            l,
            "telegram:",
        ) || str_starts_with(l, "whatsapp:");
        assert(r == (exists|i: int| 0 <= i < ps.len() && starts_with(lower@, #[trigger] ps[i]))) by {
            if r {
                if starts_with(lower@, "slack:"@) { assert(ps[0] == "slack:"@); }
                if starts_with(lower@, "discord:"@) { assert(ps[1] == "discord:"@); }
                if starts_with(lower@, "telegram:"@) { assert(ps[2] == "telegram:"@); }
                if starts_with(lower@, "whatsapp:"@) { assert(ps[3] == "whatsapp:"@); }
            }
        }
        r
    } else if str_eq(kind_prefix, "email") {
        let r = str_starts_with(l, "gmail:") || str_starts_with(l, "imap:");
        assert(r == (exists|i: int| 0 <= i < ps.len() && starts_with(lower@, #[trigger] ps[i]))) by {
            if r {
                if starts_with(lower@, "gmail:"@) { assert(ps[0] == "gmail:"@); }
                if starts_with(lower@, "imap:"@) { assert(ps[1] == "imap:"@); }
            }
        }
        r
    } else if str_eq(kind_prefix, "document") {
        let r = str_starts_with(l, "notion:") || str_starts_with(l, "drive:") || str_starts_with(
            l,
            "doc:",
        );
        assert(r == (exists|i: int| 0 <= i < ps.len() && starts_with(lower@, #[trigger] ps[i]))) by {
            if r {
                if starts_with(lower@, "notion:"@) { assert(ps[0] == "notion:"@); }
                if starts_with(lower@, "drive:"@) { assert(ps[1] == "drive:"@); }
                if starts_with(lower@, "doc:"@) { assert(ps[2] == "doc:"@); }
            }
        }
        r
    } else {
        false
    }
}

// ── Newest-first selection ──────────────────────────────────────────────

/// Hit `i` comes before hit `j` in newest-first order: its range ends
/// later, or at the same time and it came first.
pub open spec fn newer_first(ends: Seq<i64>, i: int, j: int) -> bool {
    ends[i] > ends[j] || (ends[i] == ends[j] && i < j)
}

/// The number of set flags.
pub open spec fn count_set(flags: Seq<bool>) -> nat
    decreases flags.len(),
{
    if flags.len() == 0 {
        0
    } else {
        count_set(flags.drop_last()) + if flags.last() {
            1nat
        } else {
            0nat
        }
    }
}

proof fn lemma_count_set_bound(flags: Seq<bool>)
    ensures
        count_set(flags) <= flags.len(),
        count_set(flags) < flags.len() ==> exists|k: int| 0 <= k < flags.len() && !flags[k],
    decreases flags.len(),
{
    if flags.len() > 0 {
        lemma_count_set_bound(flags.drop_last());
        if count_set(flags) < flags.len() && flags.last() {
            let k = choose|k: int| 0 <= k < flags.drop_last().len() && !flags.drop_last()[k];
            assert(!flags[k]);
        }
    }
}

proof fn lemma_count_set_update(flags: Seq<bool>, i: int)
    requires
        0 <= i < flags.len(),
        !flags[i],
    ensures
        count_set(flags.update(i, true)) == count_set(flags) + 1,
    decreases flags.len(),
{
    let u = flags.update(i, true);
    if i == flags.len() - 1 {
        assert(u.drop_last() =~= flags.drop_last());
    } else {
        lemma_count_set_update(flags.drop_last(), i);
        assert(u.drop_last() =~= flags.drop_last().update(i, true));
    }
}

/// The position of the newest hit not yet taken.
fn newest_untaken(ends: &Vec<i64>, taken: &Vec<bool>) -> (best: usize)
    requires
        taken@.len() == ends@.len(),
        exists|k: int| 0 <= k < taken@.len() && !taken@[k],
    ensures
        best < ends@.len(),
        !taken@[best as int],
        forall|k: int|
            0 <= k < ends@.len() && !taken@[k] && k != best ==> newer_first(ends@, best as int, k),
{
    let n = ends.len();
    let mut best: Option<usize> = None;
    let mut i: usize = 0;
    while i < n
        invariant
            n == ends@.len(),
            taken@.len() == n,
            i <= n,
            match best {
                Some(b) => b < i && !taken@[b as int] && forall|k: int|
                    0 <= k < i && !taken@[k] && k != b ==> newer_first(ends@, b as int, k),
                None => forall|k: int| 0 <= k < i ==> taken@[k],
            },
        decreases n - i,
    {
        if !taken[i] {
            match best {
                None => {
                    best = Some(i);
                },
                Some(b) => {
                    if ends[i] > ends[b] {
                        best = Some(i);
                    }
                },
            }
        }
        i = i + 1;
    }
    match best {
        Some(b) => b,
        None => {
            assert(false);
            0
        },
    }
}

/// The positions of the hits to return, newest first: ordered by the end
/// of their time range, later first, ties in their input order, and
/// truncated to `limit`.
pub fn newest_first(ends: &Vec<i64>, limit: usize) -> (r: Vec<usize>)
    ensures
        r@.len() == if ends@.len() < limit {
            ends@.len() as int
        } else {
            limit as int
        },
        forall|a: int| 0 <= a < r@.len() ==> r@[a] < ends@.len(),
        forall|a: int, b: int| 0 <= a < b < r@.len() ==> newer_first(ends@, r@[a] as int, r@[b] as int),
        forall|k: int, a: int|
            0 <= k < ends@.len() && !r@.contains(k as usize) && 0 <= a < r@.len() ==> newer_first(
                ends@,
                r@[a] as int,
                k,
            ),
{
    let n = ends.len();
    let mut taken: Vec<bool> = Vec::new();
    let mut j: usize = 0;
    while j < n
        invariant
            j <= n,
            taken@.len() == j,
            forall|k: int| 0 <= k < j ==> !taken@[k],
        decreases n - j,
    {
        taken.push(false);
        j = j + 1;
    }
    proof {
        assert(count_set(taken@) == 0) by {
            lemma_count_zero(taken@);
        }
    }
    let mut r: Vec<usize> = Vec::new();
    while r.len() < limit && r.len() < n
        invariant
            n == ends@.len(),
            taken@.len() == n,
            count_set(taken@) == r@.len(),
            r@.len() <= n,
            r@.len() <= limit,
            forall|a: int| 0 <= a < r@.len() ==> r@[a] < n && taken@[r@[a] as int],
            forall|k: int| 0 <= k < n && taken@[k] ==> r@.contains(k as usize),
            forall|a: int, b: int| 0 <= a < b < r@.len() ==> newer_first(ends@, r@[a] as int, r@[b] as int),
            forall|k: int, a: int|
                0 <= k < n && !taken@[k] && 0 <= a < r@.len() ==> newer_first(ends@, r@[a] as int, k),
        decreases n - r@.len(),
    {
        proof {
            lemma_count_set_bound(taken@);
        }
        let best = newest_untaken(ends, &taken);
        proof {
            lemma_count_set_update(taken@, best as int);
        }
        let ghost old_r = r@;
        let ghost old_taken = taken@;
        taken.set(best, true);
        r.push(best);
        assert forall|k: int| 0 <= k < n && taken@[k] implies r@.contains(k as usize) by {
            if k == best {
                assert(r@[old_r.len() as int] == best);
            } else {
                assert(old_taken[k]);
                let a = choose|a: int| 0 <= a < old_r.len() && old_r[a] == k as usize;
                assert(r@[a] == k as usize);
            }
        }
        assert forall|k: int, a: int|
            0 <= k < n && !taken@[k] && 0 <= a < r@.len() implies newer_first(ends@, r@[a] as int, k) by {
            assert(!old_taken[k] && k != best);
        }
    }
    assert forall|k: int, a: int|
        0 <= k < ends@.len() && !r@.contains(k as usize) && 0 <= a < r@.len() implies newer_first(
            ends@,
            r@[a] as int,
            k,
        ) by {
        assert(!taken@[k]);
    }
    r
}

proof fn lemma_count_zero(flags: Seq<bool>)
    requires
        forall|k: int| 0 <= k < flags.len() ==> !flags[k],
    ensures
        count_set(flags) == 0,
    decreases flags.len(),
{
    if flags.len() > 0 {
        lemma_count_zero(flags.drop_last());
    }
}


// ── Assembling a source query ───────────────────────────────────────────

/// What a query returns: the hits, how many matched before the limit, and
/// whether the limit cut some off.
#[derive(Debug, Clone)]
pub struct QueryResponse<H> {
    pub hits: Vec<H>,
    pub total: usize,
    pub truncated: bool,
}

impl<H> QueryResponse<H> {
    /// A response with `total` matches of which `hits` are returned; it is
    /// truncated when fewer hits are returned than matched.
    pub fn new(hits: Vec<H>, total: usize) -> (r: Self)
        ensures
            r.hits@ == hits@,
            r.total == total,
            r.truncated == (total > hits@.len()),
    {
        let truncated = total > hits.len();
        QueryResponse { hits, total, truncated }
    }
}

/// The positions of the items, in order, for which `keep` holds.
pub open spec fn kept_positions(keep: Seq<bool>) -> Seq<usize>
    decreases keep.len(),
{
    if keep.len() == 0 {
        Seq::empty()
    } else {
        let rest = kept_positions(keep.drop_last());
        if keep.last() {
            rest.push((keep.len() - 1) as usize)
        } else {
            rest
        }
    }
}

/// The trees a kind selects, by position among the source trees' scopes,
/// in their order.
pub fn trees_of_kind(scopes: &Vec<String>, kind: &str) -> (r: Vec<usize>)
    ensures
        r@ == kept_positions(scopes@.map_values(|s: String| scope_in_kind(s@, kind@))),
{
    let ghost keep = scopes@.map_values(|s: String| scope_in_kind(s@, kind@));
    let mut r: Vec<usize> = Vec::new();
    let mut i: usize = 0;
    while i < scopes.len()
        invariant
            i <= scopes@.len(),
            keep == scopes@.map_values(|s: String| scope_in_kind(s@, kind@)),
            r@ == kept_positions(keep.subrange(0, i as int)),
        decreases scopes@.len() - i,
    {
        let b = scope_matches_kind(scopes[i].as_str(), kind);
        assert(keep.subrange(0, i + 1).drop_last() =~= keep.subrange(0, i as int));
        assert(keep.subrange(0, i + 1).last() == b);
        if b {
            r.push(i);
        }
        i = i + 1;
    }
    assert(keep.subrange(0, scopes@.len() as int) =~= keep);
    r
}

/// For each hit, whether it falls in the window of `window_days` days
/// ending at `now` (every hit when there is no window).
pub open spec fn window_keep(starts: Seq<i64>, ends: Seq<i64>, now: i64, window_days: Option<u32>) -> Seq<bool> {
    Seq::new(
        ends.len(),
        |i: int|
            match window_days {
                Some(d) => ends[i] >= now - d * SECS_PER_DAY && starts[i] <= now,
                None => true,
            },
    )
}

/// The hits, by position, that fall in the window of `window_days` days
/// ending at `now`, in their order; every hit when there is no window.
pub fn hits_in_window(starts: &Vec<i64>, ends: &Vec<i64>, now: i64, window_days: Option<u32>) -> (r: Vec<usize>)
    requires
        starts@.len() == ends@.len(),
        now - 4294967295 * SECS_PER_DAY >= i64::MIN,
    ensures
        r@ == kept_positions(window_keep(starts@, ends@, now, window_days)),
{
    let ghost keep = window_keep(starts@, ends@, now, window_days);
    let mut r: Vec<usize> = Vec::new();
    let mut i: usize = 0;
    while i < ends.len()
        invariant
            i <= ends@.len(),
            starts@.len() == ends@.len(),
            now - 4294967295 * SECS_PER_DAY >= i64::MIN,
            keep.len() == ends@.len(),
            forall|k: int| 0 <= k < ends@.len() ==> keep[k] == match window_days {
                Some(d) => ends@[k] >= now - d * SECS_PER_DAY && starts@[k] <= now,
                None => true,
            },
            r@ == kept_positions(keep.subrange(0, i as int)),
        decreases ends@.len() - i,
    {
        let b = match window_days {
            Some(d) => in_window(starts[i], ends[i], now, d),
            None => true,
        };
        assert(keep.subrange(0, i + 1).drop_last() =~= keep.subrange(0, i as int));
        assert(keep.subrange(0, i + 1).last() == b);
        if b {
            r.push(i);
        }
        i = i + 1;
    }
    assert(keep.subrange(0, ends@.len() as int) =~= keep);
    r
}

/// The positions a kept position list picks are increasing and in range.
pub proof fn law_kept_positions_increasing(keep: Seq<bool>)
    requires
        keep.len() <= usize::MAX,
    ensures
        forall|a: int| 0 <= a < kept_positions(keep).len() ==> #[trigger] kept_positions(keep)[a] < keep.len()
            && keep[kept_positions(keep)[a] as int],
        forall|a: int, b: int|
            0 <= a < b < kept_positions(keep).len() ==> kept_positions(keep)[a] < kept_positions(keep)[b],
    decreases keep.len(),
{
    if keep.len() > 0 {
        let d = keep.drop_last();
        law_kept_positions_increasing(d);
        let rest = kept_positions(d);
        let all = kept_positions(keep);
        assert(all == if keep.last() { rest.push((keep.len() - 1) as usize) } else { rest });
        assert forall|a: int| 0 <= a < all.len() implies #[trigger] all[a] < keep.len() && keep[all[a] as int] by {
            if a < rest.len() {
                assert(all[a] == rest[a]);
                assert(rest[a] < d.len() && d[rest[a] as int]);
            }
        }
        assert forall|a: int, b: int| 0 <= a < b < all.len() implies all[a] < all[b] by {
            assert(all[a] == rest[a]);
            assert(rest[a] < d.len());
            if b < rest.len() {
                assert(all[b] == rest[b]);
            }
        }
    }
}


/// The hits a source query returns, by position, and how many matched.
#[derive(Debug, Clone)]
pub struct SourcePick {
    pub positions: Vec<usize>,
    pub total: usize,
}

/// The hits a source query returns from hits with time ranges
/// `[starts[i], ends[i]]`: those in the window, newest first (ties in
/// their order), at most `limit` of them (10 for 0); `total` counts the
/// hits in the window.
pub fn pick_source_hits(starts: &Vec<i64>, ends: &Vec<i64>, now: i64, window_days: Option<u32>, limit: usize) -> (p: SourcePick)
    requires
        starts@.len() == ends@.len(),
        now - 4294967295 * SECS_PER_DAY >= i64::MIN,
    ensures
        ({
            let kept = kept_positions(window_keep(starts@, ends@, now, window_days));
            let lim = if limit == 0 { DEFAULT_LIMIT as int } else { limit as int };
            &&& p.total == kept.len()
            &&& p.positions@.len() == if kept.len() < lim { kept.len() as int } else { lim }
            &&& forall|a: int| 0 <= a < p.positions@.len() ==> kept.contains(#[trigger] p.positions@[a])
            &&& forall|a: int, b: int|
                0 <= a < b < p.positions@.len() ==> newer_first(ends@, p.positions@[a] as int, p.positions@[b] as int)
            &&& forall|k: usize, a: int|
                #![trigger kept.contains(k), p.positions@[a]]
                kept.contains(k) && !p.positions@.contains(k) && 0 <= a < p.positions@.len()
                    ==> newer_first(ends@, p.positions@[a] as int, k as int)
        }),
{
    let ghost keep = window_keep(starts@, ends@, now, window_days);
    let w = hits_in_window(starts, ends, now, window_days);
    let n = ends.len();
    proof {
        assert(keep.len() == n);
        law_kept_positions_increasing(keep);
    }
    let mut fe: Vec<i64> = Vec::new();
    let mut k: usize = 0;
    while k < w.len()
        invariant
            k <= w@.len(),
            fe@.len() == k,
            w@ == kept_positions(keep),
            keep.len() == ends@.len(),
            forall|a: int| 0 <= a < w@.len() ==> w@[a] < keep.len(),
            forall|a: int| 0 <= a < k ==> fe@[a] == ends@[w@[a] as int],
        decreases w@.len() - k,
    {
        fe.push(ends[w[k]]);
        k = k + 1;
    }
    let lim = effective_limit(limit);
    let order = newest_first(&fe, lim);
    let mut positions: Vec<usize> = Vec::new();
    let mut j: usize = 0;
    while j < order.len()
        invariant
            j <= order@.len(),
            positions@.len() == j,
            fe@.len() == w@.len(),
            forall|a: int| 0 <= a < order@.len() ==> order@[a] < fe@.len(),
            forall|a: int| 0 <= a < j ==> positions@[a] == w@[order@[a] as int],
        decreases order@.len() - j,
    {
        positions.push(w[order[j]]);
        j = j + 1;
    }
    proof {
        let kept = w@;
        assert forall|a: int| 0 <= a < positions@.len() implies kept.contains(#[trigger] positions@[a]) by {
            assert(kept[order@[a] as int] == positions@[a]);
        }
        assert forall|a: int, b: int| 0 <= a < b < positions@.len() implies newer_first(
            ends@,
            positions@[a] as int,
            positions@[b] as int,
        ) by {
            let (x, y) = (order@[a] as int, order@[b] as int);
            assert(newer_first(fe@, x, y));
            if x < y {
                assert(kept[x] < kept[y]);
            }
        }
        assert forall|kk: usize, a: int|
            #![trigger kept.contains(kk), positions@[a]]
            kept.contains(kk) && !positions@.contains(kk) && 0 <= a < positions@.len() implies newer_first(
            ends@,
            positions@[a] as int,
            kk as int,
        ) by {
            let i = choose|i: int| 0 <= i < kept.len() && kept[i] == kk;
            if order@.contains(i as usize) {
                let c = choose|c: int| 0 <= c < order@.len() && order@[c] == i as usize;
                assert(positions@[c] == kk);
                assert(false);
            }
            let x = order@[a] as int;
            assert(newer_first(fe@, x, i));
            if x < i {
                assert(kept[x] < kept[i]);
            }
        }
    }
    SourcePick { positions, total: w.len() }
}


/// The kinds and their platforms. A scope whose lower-cased form starts
/// with `<kind>:` falls under the kind; so does, for `chat`, one starting
/// with `slack:`, `discord:`, `telegram:` or `whatsapp:`; for `email`, one
/// starting with `gmail:` or `imap:`; and for `document`, one starting with
/// `notion:`, `drive:` or `doc:`. No other kind has platforms.
pub proof fn law_kind_platforms(scope: Seq<char>, kind: Seq<char>)
    ensures
        starts_with(unicode_lower(scope), kind + ":"@) ==> scope_in_kind(scope, kind),
        scope_in_kind(scope, "chat"@) <==> ({
            let l = unicode_lower(scope);
            starts_with(l, "chat:"@) || starts_with(l, "slack:"@) || starts_with(l, "discord:"@) || starts_with(
                l,
                "telegram:"@,
            ) || starts_with(l, "whatsapp:"@)
        }),
        scope_in_kind(scope, "email"@) <==> ({
            let l = unicode_lower(scope);
            starts_with(l, "email:"@) || starts_with(l, "gmail:"@) || starts_with(l, "imap:"@)
        }),
        scope_in_kind(scope, "document"@) <==> ({
            let l = unicode_lower(scope);
            starts_with(l, "document:"@) || starts_with(l, "notion:"@) || starts_with(l, "drive:"@)
                || starts_with(l, "doc:"@)
        }),
        kind != "chat"@ && kind != "email"@ && kind != "document"@ ==> (scope_in_kind(scope, kind) <==> starts_with(
            unicode_lower(scope),
            kind + ":"@,
        )),
{
    let l = unicode_lower(scope);
    reveal_strlit("chat");
    reveal_strlit("email");
    reveal_strlit("document");
    reveal_strlit("chat:");
    reveal_strlit("email:");
    reveal_strlit("document:");
    reveal_strlit(":");
    assert("chat"@ + ":"@ =~= "chat:"@);
    assert("email"@ + ":"@ =~= "email:"@);
    assert("document"@ + ":"@ =~= "document:"@);
    let c = platform_prefixes("chat"@);
    let e = platform_prefixes("email"@);
    let d = platform_prefixes("document"@);
    assert(c[0] == "slack:"@ && c[1] == "discord:"@ && c[2] == "telegram:"@ && c[3] == "whatsapp:"@);
    assert(e[0] == "gmail:"@ && e[1] == "imap:"@);
    assert(d[0] == "notion:"@ && d[1] == "drive:"@ && d[2] == "doc:"@);
    assert(c.len() == 4 && e.len() == 2 && d.len() == 3);
}

} // verus!
