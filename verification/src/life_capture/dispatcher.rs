//! Stage 0 — dedup + debounce dispatcher.
//!
//! Incoming raw focus events are noisy: the same focused element can emit
//! many redundant notifications while the user dwells on it, and rapid
//! re-focus events can arrive a few ms apart. S0 drops events that are
//! either
//!
//! * **debounced** — less than 200ms after the last stored event for the
//!   same (app, element) pair, or
//! * **duplicates** — the same visible text and URL as the last stored
//!   event for the same (app, element) pair.
//!
//! What passes is parsed (S1) and stored by the caller; once the row is
//! written the caller records the event here with [`DispatchState::record`].
//! State is per-`DispatchState`, so several dispatchers never share it.

use vstd::prelude::*;
use crate::life_capture::parser::RawFocusEvent;
use crate::text::{opt_string_eq, opt_view, str_eq};

verus! {

/// Minimum gap between stored events for the same (app, element) pair.
pub const DEBOUNCE_MS: i64 = 200;

/// Dedup key: the (app, element) pair.
#[derive(Debug, Clone)]
pub struct DedupKey {
    pub focused_app: String,
    pub focused_element: Option<String>,
}

/// What is remembered of the last stored event for a key.
#[derive(Debug, Clone)]
pub struct LastEvent {
    pub ts_ms: i64,
    pub visible_text: Option<String>,
    pub url: Option<String>,
}

/// Abstract key: app and element.
pub type KeyView = (Seq<char>, Option<Seq<char>>);

/// Abstract last event: timestamp, visible text and URL.
pub type LastView = (i64, Option<Seq<char>>, Option<Seq<char>>);

/// The key of a raw event.
pub open spec fn key_of(raw: RawFocusEvent) -> KeyView {
    (raw.focused_app@, opt_view(raw.focused_element))
}

/// What is remembered of a raw event once it is stored.
pub open spec fn snapshot_of(raw: RawFocusEvent) -> LastView {
    (raw.ts_ms, opt_view(raw.visible_text), opt_view(raw.url))
}

/// Outcome of a dispatch attempt.
#[derive(Debug, PartialEq, Eq, Clone, Copy, Structural)]
pub enum DispatchOutcome {
    /// Passed both filters, parsed, stored. Inner is the stored row id.
    Stored(i64),
    /// Dropped: the last stored event for this (app, element) was field-identical.
    Dedup,
    /// Dropped: less than `DEBOUNCE_MS` elapsed since the last stored event
    /// for this (app, element).
    Debounced,
}

/// The S0 verdict for an event with timestamp `ts`, text and URL, given
/// what was last stored for its key: debounce first (the new event is at
/// most 199ms after the stored one, and not before it), then dedup.
pub open spec fn spec_check(prev: Option<LastView>, ts: i64, text: Option<Seq<char>>, url: Option<Seq<char>>) -> Option<DispatchOutcome> {
    match prev {
        None => None,
        Some(p) => if 0 <= ts - p.0 < DEBOUNCE_MS {
            Some(DispatchOutcome::Debounced)
        } else if p.1 == text && p.2 == url {
            Some(DispatchOutcome::Dedup)
        } else {
            None
        },
    }
}

/// In-memory last-seen cache keyed by (app, element), as a list whose keys
/// are distinct: vstd's `HashMap` specifications hold only for key types
/// that obey its key model, which a pair of strings is not shown to.
pub struct DispatchState {
    last: Vec<(DedupKey, LastEvent)>,
}

/// The key of a stored entry.
pub open spec fn entry_key(e: (DedupKey, LastEvent)) -> KeyView {
    (e.0.focused_app@, opt_view(e.0.focused_element))
}

/// The remembered event of a stored entry.
pub open spec fn entry_last(e: (DedupKey, LastEvent)) -> LastView {
    (e.1.ts_ms, opt_view(e.1.visible_text), opt_view(e.1.url))
}

/// No key is stored twice.
pub open spec fn distinct_keys(v: Seq<(DedupKey, LastEvent)>) -> bool {
    forall|i: int, j: int| 0 <= i < j < v.len() ==> entry_key(v[i]) != entry_key(v[j])
}

impl DispatchState {
    /// The key of entry `i`.
    pub closed spec fn key_at(&self, i: int) -> KeyView {
        entry_key(self.last@[i])
    }

    /// The remembered event of entry `i`.
    pub closed spec fn last_at(&self, i: int) -> LastView {
        entry_last(self.last@[i])
    }

    /// Keys are stored at most once.
    #[verifier::type_invariant]
    closed spec fn keys_distinct(&self) -> bool {
        distinct_keys(self.last@)
    }

    /// What was last stored for key `k`, if anything.
    pub closed spec fn lookup(&self, k: KeyView) -> Option<LastView> {
        if exists|i: int| 0 <= i < self.last@.len() && self.key_at(i) == k {
            Some(self.last_at(choose|i: int| 0 <= i < self.last@.len() && self.key_at(i) == k))
        } else {
            None
        }
    }

    /// An empty dispatcher.
    pub fn new() -> (s: Self)
        ensures
            forall|k: KeyView| s.lookup(k) is None,
    {
        DispatchState { last: Vec::new() }
    }

    fn find(&self, app: &String, element: &Option<String>) -> (r: Option<usize>)
        ensures
            match r {
                Some(i) => i < self.last@.len() && self.key_at(i as int) == (app@, opt_view(*element)),
                None => forall|i: int| 0 <= i < self.last@.len() ==> self.key_at(i) != (app@, opt_view(*element)),
            },
    {
        let mut i: usize = 0;
        while i < self.last.len()
            invariant
                i <= self.last@.len(),
                forall|j: int| 0 <= j < i ==> self.key_at(j) != (app@, opt_view(*element)),
            decreases self.last@.len() - i,
        {
            let entry = &self.last[i];
            if str_eq(entry.0.focused_app.as_str(), app.as_str()) && opt_string_eq(&entry.0.focused_element, element) {
                return Some(i);
            }
            i = i + 1;
        }
        None
    }

    /// Run an event through S0: `Some(Debounced)` or `Some(Dedup)` when it
    /// is dropped, `None` when it passes and should be parsed and stored.
    pub fn check(&self, raw: &RawFocusEvent) -> (r: Option<DispatchOutcome>)
        ensures
            r == spec_check(self.lookup(key_of(*raw)), raw.ts_ms, opt_view(raw.visible_text), opt_view(raw.url)),
    {
        proof {
            use_type_invariant(self);
        }
        match self.find(&raw.focused_app, &raw.focused_element) {
            None => None,
            Some(i) => {
                let prev = &self.last[i].1;
                let gap: i128 = (raw.ts_ms as i128) - (prev.ts_ms as i128);
                if 0 <= gap && gap < 200 {
                    Some(DispatchOutcome::Debounced)
                } else if opt_string_eq(&prev.visible_text, &raw.visible_text) && opt_string_eq(&prev.url, &raw.url) {
                    Some(DispatchOutcome::Dedup)
                } else {
                    None
                }
            },
        }
    }

    /// Remember `raw` as the last stored event for its key.
    pub fn record(&mut self, raw: &RawFocusEvent)
        ensures
            final(self).lookup(key_of(*raw)) == Some(snapshot_of(*raw)),
            forall|k: KeyView| k != key_of(*raw) ==> final(self).lookup(k) == old(self).lookup(k),
    {
        proof {
            use_type_invariant(&*self);
        }
        let key = DedupKey { focused_app: raw.focused_app.clone(), focused_element: raw.focused_element.clone() };
        let snapshot = LastEvent { ts_ms: raw.ts_ms, visible_text: raw.visible_text.clone(), url: raw.url.clone() };
        let ghost k = key_of(*raw);
        let ghost old_self = *self;
        match self.find(&raw.focused_app, &raw.focused_element) {
            Some(i) => {
                let mut entries = Vec::new();
                std::mem::swap(&mut entries, &mut self.last);
                entries.set(i, (key, snapshot));
                proof {
                    assert(entry_key(entries@[i as int]) == k);
                    assert forall|a: int, b: int| 0 <= a < b < entries@.len() implies entry_key(entries@[a]) != entry_key(entries@[b]) by {
                        if a != i && b != i {
                            assert(entries@[a] == old_self.last@[a]);
                            assert(entries@[b] == old_self.last@[b]);
                        } else if a == i {
                            assert(entries@[b] == old_self.last@[b]);
                            assert(old_self.key_at(b) != old_self.key_at(a));
                        } else {
                            assert(entries@[a] == old_self.last@[a]);
                            assert(old_self.key_at(a) != old_self.key_at(b));
                        }
                    }
                }
                self.last = entries;
                proof {
                    assert(self.key_at(i as int) == k);
                    assert forall|j: int| 0 <= j < self.last@.len() && j != i implies self.key_at(j) == old_self.key_at(j) && self.last_at(j) == old_self.last_at(j) by {}
                    assert(self.lookup(k) == Some(snapshot_of(*raw)));
                    assert forall|kk: KeyView| kk != k implies self.lookup(kk) == old_self.lookup(kk) by {
                        if exists|j: int| 0 <= j < self.last@.len() && self.key_at(j) == kk {
                            let j = choose|j: int| 0 <= j < self.last@.len() && self.key_at(j) == kk;
                            assert(j != i);
                            assert(old_self.key_at(j) == kk);
                        }
                        if exists|j: int| 0 <= j < old_self.last@.len() && old_self.key_at(j) == kk {
                            let j = choose|j: int| 0 <= j < old_self.last@.len() && old_self.key_at(j) == kk;
                            assert(j != i);
                            assert(self.key_at(j) == kk);
                        }
                    }
                }
            },
            None => {
                let mut entries = Vec::new();
                std::mem::swap(&mut entries, &mut self.last);
                entries.push((key, snapshot));
                proof {
                    let n = old_self.last@.len() as int;
                    assert(entry_key(entries@[n]) == k);
                    assert forall|a: int, b: int| 0 <= a < b < entries@.len() implies entry_key(entries@[a]) != entry_key(entries@[b]) by {
                        assert(entries@[a] == old_self.last@[a]);
                        if b < n {
                            assert(entries@[b] == old_self.last@[b]);
                        } else {
                            assert(old_self.key_at(a) != k);
                        }
                    }
                }
                self.last = entries;
                proof {
                    let n = old_self.last@.len() as int;
                    assert(self.key_at(n) == k);
                    assert forall|j: int| 0 <= j < n implies self.key_at(j) == old_self.key_at(j) && self.last_at(j) == old_self.last_at(j) by {}
                    assert(self.lookup(k) == Some(snapshot_of(*raw)));
                    assert forall|kk: KeyView| kk != k implies self.lookup(kk) == old_self.lookup(kk) by {
                        if exists|j: int| 0 <= j < self.last@.len() && self.key_at(j) == kk {
                            let j = choose|j: int| 0 <= j < self.last@.len() && self.key_at(j) == kk;
                            assert(j != n);
                            assert(old_self.key_at(j) == kk);
                        }
                        if exists|j: int| 0 <= j < old_self.last@.len() && old_self.key_at(j) == kk {
                            let j = choose|j: int| 0 <= j < old_self.last@.len() && old_self.key_at(j) == kk;
                            assert(self.key_at(j) == kk);
                        }
                    }
                }
            },
        }
    }

    /// The second step of an event that passed `check`: its parsed row was
    /// handed to the store, which answered `insert`. A stored row makes the
    /// event the last one for its key and gives `Stored(id)`; a failed
    /// insert changes nothing and gives its error.
    pub fn finish_event(&mut self, raw: &RawFocusEvent, insert: Result<i64, String>) -> (out: Result<DispatchOutcome, String>)
        ensures
            match insert {
                Ok(id) => out == Ok::<DispatchOutcome, String>(DispatchOutcome::Stored(id)),
                Err(e) => out matches Err(f) && f@ == e@,
            },
            forall|k: KeyView| #[trigger] final(self).lookup(k) == remembered_after(old(self).lookup(k), k, *raw, insert is Ok),
    {
        match insert {
            Ok(id) => {
                self.record(raw);
                Ok(DispatchOutcome::Stored(id))
            },
            Err(e) => Err(e),
        }
    }
}

/// Dispatch laws. A fresh dispatcher passes every event. After an event is
/// recorded, a later event for the same (app, element) pair less than 200ms
/// after it is debounced whatever its content; one at least 200ms later with
/// the same text and URL is a duplicate; one at least 200ms later with
/// different text or URL passes; and events for other pairs are unaffected.
pub proof fn law_dispatch(stored: RawFocusEvent, next: RawFocusEvent)
    requires
        key_of(stored) == key_of(next),
    ensures
        spec_check(None, next.ts_ms, opt_view(next.visible_text), opt_view(next.url)) is None,
        0 <= next.ts_ms - stored.ts_ms < DEBOUNCE_MS ==> spec_check(
            Some(snapshot_of(stored)),
            next.ts_ms,
            opt_view(next.visible_text),
            opt_view(next.url),
        ) == Some(DispatchOutcome::Debounced),
        next.ts_ms - stored.ts_ms >= DEBOUNCE_MS && opt_view(next.visible_text) == opt_view(stored.visible_text)
            && opt_view(next.url) == opt_view(stored.url) ==> spec_check(
            Some(snapshot_of(stored)),
            next.ts_ms,
            opt_view(next.visible_text),
            opt_view(next.url),
        ) == Some(DispatchOutcome::Dedup),
        next.ts_ms - stored.ts_ms >= DEBOUNCE_MS && (opt_view(next.visible_text) != opt_view(stored.visible_text)
            || opt_view(next.url) != opt_view(stored.url)) ==> spec_check(
            Some(snapshot_of(stored)),
            next.ts_ms,
            opt_view(next.visible_text),
            opt_view(next.url),
        ) is None,
{
}


/// What is remembered for key `k` after an event: the event itself when it
/// was stored and has that key, else what was remembered before.
pub open spec fn remembered_after(before: Option<LastView>, k: KeyView, raw: RawFocusEvent, stored: bool) -> Option<LastView> {
    if stored && k == key_of(raw) {
        Some(snapshot_of(raw))
    } else {
        before
    }
}

/// The outcome of one focus event, given what was remembered for its key
/// and how the insert of its row ended (when it was attempted).
pub open spec fn focus_outcome(prev: Option<LastView>, raw: RawFocusEvent, insert: Result<i64, Seq<char>>) -> Result<DispatchOutcome, Seq<char>> {
    match spec_check(prev, raw.ts_ms, opt_view(raw.visible_text), opt_view(raw.url)) {
        Some(o) => Ok(o),
        None => match insert {
            Ok(id) => Ok(DispatchOutcome::Stored(id)),
            Err(e) => Err(e),
        },
    }
}

/// Whether the event's parsed row is handed to the store: exactly when it
/// passes S0.
pub open spec fn row_written(prev: Option<LastView>, raw: RawFocusEvent) -> bool {
    spec_check(prev, raw.ts_ms, opt_view(raw.visible_text), opt_view(raw.url)) is None
}

/// The dispatcher's state after a whole event: `check`, then, when it
/// passes, `finish_event` with the insert's answer.
pub open spec fn remembered_after_event(
    before: Option<LastView>,
    prev: Option<LastView>,
    k: KeyView,
    raw: RawFocusEvent,
    insert: Result<i64, Seq<char>>,
) -> Option<LastView> {
    remembered_after(before, k, raw, focus_outcome(prev, raw, insert) matches Ok(DispatchOutcome::Stored(_)))
}

/// The law of one focus event. Its row is written once exactly when it
/// passes S0, and only a row that the store took gives `Stored(id)`.
/// `Debounced`, `Dedup` and a failed insert leave every remembered event
/// as it was; `Stored` makes the event the remembered one for its key and
/// changes no other key.
pub proof fn law_on_focus_event(prev: Option<LastView>, raw: RawFocusEvent, insert: Result<i64, Seq<char>>, k: KeyView, before: Option<LastView>)
    ensures
        row_written(prev, raw) <==> !(focus_outcome(prev, raw, insert) matches Ok(DispatchOutcome::Debounced))
            && !(focus_outcome(prev, raw, insert) matches Ok(DispatchOutcome::Dedup)),
        focus_outcome(prev, raw, insert) matches Ok(DispatchOutcome::Stored(id)) ==> row_written(prev, raw) && insert == Ok::<i64, Seq<char>>(id),
        !(focus_outcome(prev, raw, insert) matches Ok(DispatchOutcome::Stored(_))) ==> remembered_after_event(before, prev, k, raw, insert) == before,
        focus_outcome(prev, raw, insert) matches Ok(DispatchOutcome::Stored(_)) ==> remembered_after_event(
            before,
            prev,
            key_of(raw),
            raw,
            insert,
        ) == Some(snapshot_of(raw)) && (k != key_of(raw) ==> remembered_after_event(before, prev, k, raw, insert) == before),
{
}

} // verus!
