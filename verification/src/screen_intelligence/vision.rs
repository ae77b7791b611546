//! Selection rules of the vision queries.
//!
//! The recent-summaries query returns the newest summaries first, at most
//! `limit` of them (10 when no limit is given, clamped to 1–120). A flush
//! picks the newest captured frame that has an image, queues it (state
//! `queued`, queue depth up by one), and when its analysis ends takes the
//! depth back down and records the outcome: `ready` with one more stored
//! summary, or `error` with the reason.

use vstd::prelude::*;
use crate::text::{chars_of, owned, push_str, string_of_range};

verus! {

/// The number of summaries returned when no limit is given.
pub const DEFAULT_RECENT_LIMIT: usize = 10;
/// The largest number of summaries one query returns.
pub const MAX_RECENT_LIMIT: usize = 120;

/// The effective limit of a recent-summaries query.
pub open spec fn recent_limit(limit: Option<usize>) -> usize {
    let l = match limit {
        Some(l) => l,
        None => DEFAULT_RECENT_LIMIT,
    };
    if l < 1 {
        1
    } else if l > MAX_RECENT_LIMIT {
        MAX_RECENT_LIMIT
    } else {
        l
    }
}

/// The positions, newest first, of the summaries that a recent-summaries
/// query returns from a list of `len` summaries kept oldest first.
pub fn recent_indices(len: usize, limit: Option<usize>) -> (r: Vec<usize>)
    ensures
        r@.len() == if len < recent_limit(limit) {
            len as int
        } else {
            recent_limit(limit) as int
        },
        forall|i: int| 0 <= i < r@.len() ==> r@[i] == len - 1 - i,
{
    let raw = match limit {
        Some(l) => l,
        None => DEFAULT_RECENT_LIMIT,
    };
    let max_items = if raw < 1 {
        1
    } else if raw > MAX_RECENT_LIMIT {
        MAX_RECENT_LIMIT
    } else {
        raw
    };
    let mut r: Vec<usize> = Vec::new();
    let mut k: usize = 0;
    while k < len && k < max_items
        invariant
            k <= len,
            k <= max_items,
            max_items == recent_limit(limit),
            r@.len() == k,
            forall|i: int| 0 <= i < k ==> r@[i] == len - 1 - i,
        decreases len - k,
    {
        r.push(len - 1 - k);
        k = k + 1;
    }
    r
}

/// The position of the newest frame that has an image, given for each
/// frame (oldest first) whether it has one.
pub fn latest_with_image(has_image: &Vec<bool>) -> (r: Option<usize>)
    ensures
        match r {
            Some(i) => i < has_image@.len() && has_image@[i as int] && forall|j: int|
                i < j < has_image@.len() ==> !has_image@[j],
            None => forall|j: int| 0 <= j < has_image@.len() ==> !has_image@[j],
        },
{
    let mut k: usize = has_image.len();
    while k > 0
        invariant
            k <= has_image@.len(),
            forall|j: int| k <= j < has_image@.len() ==> !has_image@[j],
        decreases k,
    {
        if has_image[k - 1] {
            return Some(k - 1);
        }
        k = k - 1;
    }
    None
}

/// The longest text a listing shows of a summary field, in characters.
pub const PREVIEW_CHARS: usize = 120;

/// A field shortened for a listing: its first `max` characters followed by
/// `…` when it is longer, else the field as it is.
pub fn preview(text: &str, max: usize) -> (r: String)
    ensures
        text@.len() > max ==> r@ == text@.subrange(0, max as int) + "…"@,
        text@.len() <= max ==> r@ == text@,
{
    let v = chars_of(text);
    if v.len() > max {
        let mut r = string_of_range(&v, 0, max);
        push_str(&mut r, "…");
        r
    } else {
        owned(text)
    }
}

// ── The bookkeeping of a flush ──────────────────────────────────────────

/// The vision state of a session after a flush step.
pub const VISION_QUEUED: &'static str = "queued";
/// The vision state after a summary was analysed and stored.
pub const VISION_READY: &'static str = "ready";
/// The vision state after analysis or storage failed.
pub const VISION_ERROR: &'static str = "error";

/// The vision fields of a capture session that a flush updates.
#[derive(Debug, Clone)]
pub struct VisionBook {
    /// `queued`, `ready` or `error` once a flush has run.
    pub state: String,
    /// Frames handed to analysis and not yet done.
    pub queue_depth: usize,
    /// Summaries stored in memory.
    pub persist_count: u64,
    /// When the newest summary's frame was captured.
    pub last_at_ms: Option<i64>,
    /// The key text of the newest summary.
    pub last_summary: Option<String>,
    /// The memory key of the newest stored summary.
    pub last_persisted_key: Option<String>,
    /// Why the newest summary could not be stored.
    pub last_persist_error: Option<String>,
}

/// `x + 1`, held at `usize::MAX`.
pub open spec fn inc_sat(x: usize) -> usize {
    if x == usize::MAX { x } else { (x + 1) as usize }
}

/// `x - 1`, held at 0.
pub open spec fn dec_sat(x: usize) -> usize {
    if x == 0 { x } else { (x - 1) as usize }
}

/// `x + 1`, held at `u64::MAX`.
pub open spec fn inc_sat_u64(x: u64) -> u64 {
    if x == u64::MAX { x } else { (x + 1) as u64 }
}

/// How the storing of an analysed summary ended.
#[derive(Debug, Clone)]
pub enum PersistOutcome {
    /// Stored under this memory key.
    Stored(String),
    /// Not stored, for this reason.
    Failed(String),
}

/// The messages of a failed step: what the engine records as its last
/// error, and what the flush returns.
#[derive(Debug, Clone)]
pub struct FlushFailure {
    pub last_error: String,
    pub returned: String,
}

/// `after` is `before` with a frame handed to analysis: state `queued`,
/// queue depth up by one, the rest unchanged.
pub open spec fn queued_from(before: VisionBook, after: VisionBook) -> bool {
    &&& after.state@ == VISION_QUEUED@
    &&& after.queue_depth == inc_sat(before.queue_depth)
    &&& after.persist_count == before.persist_count
    &&& after.last_at_ms == before.last_at_ms
    &&& after.last_summary == before.last_summary
    &&& after.last_persisted_key == before.last_persisted_key
    &&& after.last_persist_error == before.last_persist_error
}

/// `after` is `before` once the analysis of the queued frame failed:
/// state `error`, queue depth down by one, the rest unchanged.
pub open spec fn analysis_failed_from(before: VisionBook, after: VisionBook) -> bool {
    &&& after.state@ == VISION_ERROR@
    &&& after.queue_depth == dec_sat(before.queue_depth)
    &&& after.persist_count == before.persist_count
    &&& after.last_at_ms == before.last_at_ms
    &&& after.last_summary == before.last_summary
    &&& after.last_persisted_key == before.last_persisted_key
    &&& after.last_persist_error == before.last_persist_error
}

/// `after` is `before` once the queued frame was analysed into a summary
/// captured at `at` with key text `key_text`, and storing it ended as
/// `persist` says.
pub open spec fn summary_done_from(
    before: VisionBook,
    after: VisionBook,
    at: i64,
    key_text: String,
    persist: PersistOutcome,
) -> bool {
    &&& after.queue_depth == dec_sat(before.queue_depth)
    &&& after.last_at_ms == Some(at)
    &&& after.last_summary == Some(key_text)
    &&& match persist {
        PersistOutcome::Stored(key) => {
            &&& after.state@ == VISION_READY@
            &&& after.persist_count == inc_sat_u64(before.persist_count)
            &&& after.last_persisted_key == Some(key)
            &&& after.last_persist_error is None
        },
        PersistOutcome::Failed(err) => {
            &&& after.state@ == VISION_ERROR@
            &&& after.persist_count == before.persist_count
            &&& after.last_persisted_key == before.last_persisted_key
            &&& after.last_persist_error == Some(err)
        },
    }
}

impl VisionBook {
    /// The first step of a flush over the session's frames (oldest first,
    /// each with whether it has an image): the newest frame with an image
    /// is queued for analysis and its position returned. Without such a
    /// frame nothing is queued and the book is unchanged (the flush is not
    /// accepted).
    pub fn begin_flush(&mut self, has_image: &Vec<bool>) -> (r: Option<usize>)
        ensures
            match r {
                Some(i) => i < has_image@.len() && has_image@[i as int] && (forall|j: int|
                    i < j < has_image@.len() ==> !has_image@[j]) && queued_from(*old(self), *final(self)),
                None => (forall|j: int| 0 <= j < has_image@.len() ==> !has_image@[j]) && *final(self) == *old(self),
            },
    {
        let r = latest_with_image(has_image);
        if r.is_some() {
            self.queue();
        }
        r
    }

    /// A frame was handed to analysis.
    pub fn queue(&mut self)
        ensures
            queued_from(*old(self), *final(self)),
    {
        self.state = owned(VISION_QUEUED);
        self.queue_depth = self.queue_depth.saturating_add(1);
    }

    /// The analysis of the queued frame failed.
    pub fn analysis_failed(&mut self)
        ensures
            analysis_failed_from(*old(self), *final(self)),
    {
        self.state = owned(VISION_ERROR);
        self.queue_depth = self.queue_depth.saturating_sub(1);
    }

    /// The queued frame was analysed into a summary captured at
    /// `captured_at_ms` with key text `key_text`, and storing it ended as
    /// `persist` says.
    pub fn summary_done(&mut self, captured_at_ms: i64, key_text: String, persist: &PersistOutcome)
        ensures
            summary_done_from(*old(self), *final(self), captured_at_ms, key_text, *persist),
    {
        self.queue_depth = self.queue_depth.saturating_sub(1);
        self.last_at_ms = Some(captured_at_ms);
        self.last_summary = Some(key_text);
        match persist {
            PersistOutcome::Stored(key) => {
                self.state = owned(VISION_READY);
                self.persist_count = self.persist_count.saturating_add(1);
                self.last_persisted_key = Some(key.clone());
                self.last_persist_error = None;
            },
            PersistOutcome::Failed(err) => {
                self.state = owned(VISION_ERROR);
                self.last_persist_error = Some(err.clone());
            },
        }
    }
}

/// The messages when the analysis of a frame failed with `err`.
pub fn analysis_failure(err: &str) -> (f: FlushFailure)
    ensures
        f.last_error@ == "vision_flush_analysis_failed: "@ + err@,
        f.returned@ == "vision flush failed: "@ + err@,
{
    let mut last_error = owned("vision_flush_analysis_failed: ");
    push_str(&mut last_error, err);
    let mut returned = owned("vision flush failed: ");
    push_str(&mut returned, err);
    FlushFailure { last_error, returned }
}

/// The reason a summary was not stored, from the memory layer's error.
pub fn persist_error_text(err: &str) -> (r: String)
    ensures
        r@ == "vision summary persistence failed: "@ + err@,
{
    let mut r = owned("vision summary persistence failed: ");
    push_str(&mut r, err);
    r
}

/// The messages when a summary could not be stored, for the reason
/// `reason` (see `persist_error_text`).
pub fn persist_failure(reason: &str) -> (f: FlushFailure)
    ensures
        f.last_error@ == "vision_flush_persist_failed: "@ + reason@,
        f.returned@ == "vision flush failed: "@ + reason@,
{
    let mut last_error = owned("vision_flush_persist_failed: ");
    push_str(&mut last_error, reason);
    let mut returned = owned("vision flush failed: ");
    push_str(&mut returned, reason);
    FlushFailure { last_error, returned }
}

/// The law of a whole flush. A flush that queued a frame (`begin`) and
/// then finished it, by a failed analysis or by an analysed summary
/// (`finish`), leaves the queue depth where it was before the flush (when
/// it was below `usize::MAX`); an analysed flush records the summary's key
/// text, a failed one leaves the state `error`. A flush with no frame to
/// queue changes nothing (see `begin_flush`).
pub proof fn law_whole_flush(
    before: VisionBook,
    queued: VisionBook,
    after: VisionBook,
    analysed: bool,
    at: i64,
    key_text: String,
    persist: PersistOutcome,
)
    requires
        before.queue_depth < usize::MAX,
        queued_from(before, queued),
        analysed ==> summary_done_from(queued, after, at, key_text, persist),
        !analysed ==> analysis_failed_from(queued, after),
    ensures
        after.queue_depth == before.queue_depth,
        analysed ==> after.last_summary == Some(key_text) && after.last_at_ms == Some(at),
        !analysed ==> after.state@ == VISION_ERROR@ && after.last_summary == before.last_summary,
        after.state@ == VISION_READY@ <==> (analysed && persist is Stored),
{
    reveal_strlit("ready");
    reveal_strlit("error");
    reveal_strlit("queued");
    assert(VISION_READY@[0] != VISION_ERROR@[0]);
}

} // verus!
