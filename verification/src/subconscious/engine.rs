//! Decisions of the subconscious loop.
//!
//! Each tick reads the task list of `HEARTBEAT.md`, assembles a situation
//! report, and, when the report shows changes, asks the local model for a
//! decision (do nothing, act, or escalate). This module holds the parts of
//! a tick that decide: which lines of the task file are tasks, whether the
//! report has changes, how the counters move, and what follows a decision.

use vstd::prelude::*;
use crate::learning::reflection::{brace_span, braces_in_order};
use crate::text::{chars_of, contains, find_first, find_last, owned, push_str, str_contains, string_of_range, trim, trim_bounds};
use vstd::utf8::{encode_scalar, encode_utf8};

verus! {

/// The model's decision for one tick.
#[derive(Debug, Clone, Copy, PartialEq, Eq, Structural)]
pub enum Decision {
    Noop,
    Act,
    Escalate,
}

/// What a tick does after its decision.
#[derive(Debug, Clone, Copy, PartialEq, Eq, Structural)]
pub enum FollowUp {
    /// Ask the stronger model to resolve the escalation.
    Escalate,
    /// Store the local model's recommended actions for the UI.
    StoreActions,
    /// Nothing more to do.
    Nothing,
}

/// The reason of a tick with no tasks to check.
pub const NO_TASKS_REASON: &'static str = "No tasks in HEARTBEAT.md";
/// The reason of a tick whose report shows no changes.
pub const NO_CHANGES_REASON: &'static str = "No state changes since last tick.";
/// The shortest interval between ticks, in minutes.
pub const MIN_INTERVAL_MINUTES: u32 = 5;

// ── Settings ────────────────────────────────────────────────────────────

/// The loop's settings, resolved from the heartbeat configuration.
#[derive(Debug, Clone, Copy, PartialEq, Eq, Structural)]
pub struct EngineSettings {
    pub interval_minutes: u32,
    pub context_budget_tokens: u32,
    pub enabled: bool,
}

impl EngineSettings {
    /// Settings from the heartbeat configuration: the interval is at least
    /// five minutes, and the loop runs only when both the heartbeat and
    /// inference are enabled.
    pub fn from_heartbeat(
        interval_minutes: u32,
        context_budget_tokens: u32,
        enabled: bool,
        inference_enabled: bool,
    ) -> (s: Self)
        ensures
            s.interval_minutes == if interval_minutes < MIN_INTERVAL_MINUTES {
                MIN_INTERVAL_MINUTES
            } else {
                interval_minutes
            },
            s.context_budget_tokens == context_budget_tokens,
            s.enabled == (enabled && inference_enabled),
    {
        let interval = if interval_minutes < MIN_INTERVAL_MINUTES {
            MIN_INTERVAL_MINUTES
        } else {
            interval_minutes
        };
        EngineSettings { interval_minutes: interval, context_budget_tokens, enabled: enabled && inference_enabled }
    }
}

// ── The task file ───────────────────────────────────────────────────────

/// `line` without one trailing carriage return.
pub open spec fn strip_cr(line: Seq<char>) -> Seq<char> {
    if line.len() > 0 && line.last() == '\r' {
        line.drop_last()
    } else {
        line
    }
}

/// The lines of `s` after the partial line `cur`, as `str::lines` splits
/// them: at each `\n`, dropping a `\r` just before it; a final `\n` does
/// not start an empty last line.
pub open spec fn lines_from(s: Seq<char>, cur: Seq<char>) -> Seq<Seq<char>>
    decreases s.len(),
{
    if s.len() == 0 {
        if cur.len() == 0 {
            Seq::empty()
        } else {
            seq![cur]
        }
    } else if s[0] == '\n' {
        seq![strip_cr(cur)] + lines_from(s.drop_first(), Seq::empty())
    } else {
        lines_from(s.drop_first(), cur.push(s[0]))
    }
}

/// The lines of `s`.
pub open spec fn lines_of(s: Seq<char>) -> Seq<Seq<char>> {
    lines_from(s, Seq::empty())
}

/// The task on a line: the trimmed line after a leading `- `, when that
/// leaves something.
pub open spec fn task_of(line: Seq<char>) -> Option<Seq<char>> {
    let t = trim(line);
    if t.len() > 2 && t[0] == '-' && t[1] == ' ' {
        Some(t.subrange(2, t.len() as int))
    } else {
        None
    }
}

/// The tasks on `lines`, in order.
pub open spec fn tasks_of(lines: Seq<Seq<char>>) -> Seq<Seq<char>>
    decreases lines.len(),
{
    if lines.len() == 0 {
        Seq::empty()
    } else {
        let rest = tasks_of(lines.drop_last());
        match task_of(lines.last()) {
            Some(t) => rest.push(t),
            None => rest,
        }
    }
}

/// Split `content` into lines.
fn split_lines(content: &str) -> (out: Vec<Vec<char>>)
    ensures
        out@.map_values(|l: Vec<char>| l@) == lines_of(content@),
{
    let s = chars_of(content);
    let mut out: Vec<Vec<char>> = Vec::new();
    let mut cur: Vec<char> = Vec::new();
    let mut i: usize = 0;
    assert(s@.subrange(0, s@.len() as int) =~= s@);
    assert(out@.map_values(|l: Vec<char>| l@) =~= Seq::<Seq<char>>::empty());
    assert(cur@ =~= Seq::<char>::empty());
    while i < s.len()
        invariant
            i <= s@.len(),
            s@ == content@,
            lines_of(content@) == out@.map_values(|l: Vec<char>| l@) + lines_from(
                s@.subrange(i as int, s@.len() as int),
                cur@,
            ),
        decreases s@.len() - i,
    {
        let ghost rest = s@.subrange(i as int, s@.len() as int);
        assert(rest.drop_first() =~= s@.subrange(i + 1, s@.len() as int));
        let c = s[i];
        if c == '\n' {
            let mut line = cur;
            let n = line.len();
            if n > 0 && line[n - 1] == '\r' {
                line.pop();
            }
            assert(line@ == strip_cr(cur@)) by {
                if cur@.len() > 0 && cur@.last() == '\r' {
                    assert(line@ =~= cur@.drop_last());
                }
            }
            let ghost before = out@.map_values(|l: Vec<char>| l@);
            out.push(line);
            assert(out@.map_values(|l: Vec<char>| l@) =~= before.push(strip_cr(cur@)));
            assert(seq![strip_cr(cur@)] + lines_from(rest.drop_first(), Seq::empty()) == lines_from(rest, cur@));
            assert(before + lines_from(rest, cur@) =~= before.push(strip_cr(cur@)) + lines_from(
                rest.drop_first(),
                Seq::empty(),
            ));
            cur = Vec::new();
            assert(cur@ =~= Seq::<char>::empty());
        } else {
            cur.push(c);
        }
        i = i + 1;
    }
    let ghost before = out@.map_values(|l: Vec<char>| l@);
    assert(s@.subrange(s@.len() as int, s@.len() as int) =~= Seq::<char>::empty());
    if cur.len() > 0 {
        out.push(cur);
        assert(out@.map_values(|l: Vec<char>| l@) =~= before + lines_from(Seq::empty(), cur@));
    } else {
        assert(before =~= before + lines_from(Seq::<char>::empty(), cur@));
    }
    out
}

/// The task on one line, if any.
fn line_task(line: &Vec<char>) -> (r: Option<String>)
    ensures
        match task_of(line@) {
            Some(t) => r matches Some(s) && s@ == t,
            None => r is None,
        },
{
    let (a, b) = trim_bounds(line);
    if b - a > 2 && line[a] == '-' && line[a + 1] == ' ' {
        let t = string_of_range(line, a + 2, b);
        assert(trim(line@).subrange(2, (b - a) as int) =~= line@.subrange(a + 2, b as int));
        Some(t)
    } else {
        None
    }
}

/// The tasks of a `HEARTBEAT.md` file: each line that, trimmed, starts
/// with `- ` and has text after it gives that text.
pub fn heartbeat_tasks(content: &str) -> (out: Vec<String>)
    ensures
        out@.map_values(|t: String| t@) == tasks_of(lines_of(content@)),
{
    let lines = split_lines(content);
    let ghost ls = lines@.map_values(|l: Vec<char>| l@);
    let mut out: Vec<String> = Vec::new();
    let mut i: usize = 0;
    while i < lines.len()
        invariant
            i <= lines@.len(),
            ls == lines@.map_values(|l: Vec<char>| l@),
            ls == lines_of(content@),
            out@.map_values(|t: String| t@) == tasks_of(ls.subrange(0, i as int)),
        decreases lines@.len() - i,
    {
        assert(ls.subrange(0, i as int) =~= ls.subrange(0, i + 1).drop_last());
        assert(ls.subrange(0, i + 1).last() == lines@[i as int]@);
        let ghost before = out@.map_values(|t: String| t@);
        match line_task(&lines[i]) {
            Some(t) => {
                out.push(t);
                assert(out@.map_values(|t: String| t@) =~= before.push(task_of(lines@[i as int]@)->0));
            },
            None => {},
        }
        i = i + 1;
    }
    assert(ls.subrange(0, lines@.len() as int) =~= ls);
    out
}

// ── A tick ──────────────────────────────────────────────────────────────

/// True when the situation report shows changes since the last tick.
pub open spec fn report_has_changes(report: Seq<char>) -> bool {
    !contains(report, "No state changes detected"@) && !contains(report, "No changes since last tick"@)
}

/// Whether the report shows changes, so that the model is asked.
pub fn has_changes(report: &str) -> (b: bool)
    ensures
        b == report_has_changes(report@),
{
    !str_contains(report, "No state changes detected") && !str_contains(report, "No changes since last tick")
}

/// Whether a decision is recorded in the decision log (no-ops are not).
pub fn is_logged(decision: Decision) -> (b: bool)
    ensures
        b == (decision != Decision::Noop),
{
    decision != Decision::Noop
}

/// What follows a decision: an escalation is resolved by the stronger
/// model; an action decision with actions stores them; anything else ends
/// the tick.
pub fn follow_up(decision: Decision, has_actions: bool) -> (f: FollowUp)
    ensures
        f == match decision {
            Decision::Escalate => FollowUp::Escalate,
            Decision::Act => if has_actions {
                FollowUp::StoreActions
            } else {
                FollowUp::Nothing
            },
            Decision::Noop => FollowUp::Nothing,
        },
{
    match decision {
        Decision::Escalate => FollowUp::Escalate,
        Decision::Act => if has_actions {
            FollowUp::StoreActions
        } else {
            FollowUp::Nothing
        },
        Decision::Noop => FollowUp::Nothing,
    }
}

/// The loop's counters: ticks run and escalations among them.
pub struct TickCounters {
    total_ticks: u64,
    total_escalations: u64,
}

impl TickCounters {
    #[verifier::type_invariant]
    spec fn inv(self) -> bool {
        self.total_escalations <= self.total_ticks
    }

    /// The number of ticks run.
    pub closed spec fn ticks(self) -> nat {
        self.total_ticks as nat
    }

    /// The number of escalations.
    pub closed spec fn escalations(self) -> nat {
        self.total_escalations as nat
    }

    /// No ticks yet.
    pub fn new() -> (c: Self)
        ensures
            c.ticks() == 0,
            c.escalations() == 0,
    {
        TickCounters { total_ticks: 0, total_escalations: 0 }
    }

    /// Count one more tick with the given decision.
    pub fn record(&mut self, decision: Decision)
        requires
            old(self).ticks() < u64::MAX,
        ensures
            final(self).ticks() == old(self).ticks() + 1,
            final(self).escalations() == old(self).escalations() + if decision == Decision::Escalate {
                1nat
            } else {
                0nat
            },
    {
        proof {
            use_type_invariant(&*self);
        }
        let ticks = self.total_ticks + 1;
        let escalations = if decision == Decision::Escalate {
            self.total_escalations + 1
        } else {
            self.total_escalations
        };
        *self = TickCounters { total_ticks: ticks, total_escalations: escalations };
    }

    /// The number of ticks run.
    pub fn total_ticks(&self) -> (n: u64)
        ensures
            n == self.ticks(),
    {
        self.total_ticks
    }

    /// The number of escalations.
    pub fn total_escalations(&self) -> (n: u64)
        ensures
            n == self.escalations(),
            n <= self.ticks(),
    {
        proof {
            use_type_invariant(self);
        }
        self.total_escalations
    }
}

/// Every task read from the task file is non-empty.
pub proof fn law_tasks_are_non_empty(lines: Seq<Seq<char>>)
    ensures
        forall|i: int| 0 <= i < tasks_of(lines).len() ==> #[trigger] tasks_of(lines)[i].len() > 0,
    decreases lines.len(),
{
    if lines.len() > 0 {
        law_tasks_are_non_empty(lines.drop_last());
        let rest = tasks_of(lines.drop_last());
        match task_of(lines.last()) {
            Some(t) => {
                assert(t.len() > 0);
                assert forall|i: int| 0 <= i < rest.push(t).len() implies #[trigger] rest.push(t)[i].len() > 0 by {
                    if i < rest.len() {
                        assert(rest.push(t)[i] == rest[i]);
                    }
                }
            },
            None => {},
        }
    }
}

// ── The steps of a tick ─────────────────────────────────────────────────

/// One action the model recommends.
#[derive(Debug, Clone)]
pub struct TickAction {
    /// The kind of action (`notify`, `store_memory`, `run_tool`, ...).
    pub kind: String,
    pub description: String,
    pub priority: String,
}

/// The decision of one tick, with its reason and recommended actions.
#[derive(Debug, Clone)]
pub struct TickOutput {
    pub decision: Decision,
    pub reason: String,
    pub actions: Vec<TickAction>,
}

/// A no-op decision with the given reason.
pub open spec fn is_noop_with(o: TickOutput, reason: Seq<char>) -> bool {
    o.decision == Decision::Noop && o.reason@ == reason && o.actions@.len() == 0
}

fn noop(reason: String) -> (o: TickOutput)
    ensures
        is_noop_with(o, reason@),
{
    TickOutput { decision: Decision::Noop, reason, actions: Vec::new() }
}

/// What a tick does after reading its task list.
#[derive(Debug)]
pub enum TickPlan {
    /// The tick ends with this decision.
    Finish(TickOutput),
    /// Assemble the situation report next.
    BuildReport,
}

/// The first step of a tick: without tasks it ends as a no-op.
pub fn plan_tick(tasks: &Vec<String>) -> (p: TickPlan)
    ensures
        tasks@.len() == 0 ==> (p matches TickPlan::Finish(o) && is_noop_with(o, NO_TASKS_REASON@)),
        tasks@.len() > 0 ==> p is BuildReport,
{
    if tasks.len() == 0 {
        TickPlan::Finish(noop(owned(NO_TASKS_REASON)))
    } else {
        TickPlan::BuildReport
    }
}

/// What a tick does after building its report.
#[derive(Debug)]
pub enum ReportPlan {
    /// The tick ends with this decision.
    Finish(TickOutput),
    /// Ask the local model for a decision.
    AskModel,
}

/// The second step: a report without changes ends the tick as a no-op.
pub fn plan_after_report(report: &str) -> (p: ReportPlan)
    ensures
        !report_has_changes(report@) ==> (p matches ReportPlan::Finish(o) && is_noop_with(
            o,
            NO_CHANGES_REASON@,
        )),
        report_has_changes(report@) ==> p is AskModel,
{
    if has_changes(report) {
        ReportPlan::AskModel
    } else {
        ReportPlan::Finish(noop(owned(NO_CHANGES_REASON)))
    }
}

/// The decision when the local model could not be asked.
pub fn model_failure_outcome(err: &str) -> (o: TickOutput)
    ensures
        is_noop_with(o, "Local model inference failed: "@ + err@),
{
    let mut reason = owned("Local model inference failed: ");
    push_str(&mut reason, err);
    noop(reason)
}

/// The JSON object inside a reply: from the first `{` to the last `}` of
/// the trimmed reply, when it has both.
pub fn tick_json_slice(text: &str) -> (r: Option<String>)
    requires
        braces_in_order(text@),
    ensures
        match brace_span(trim(text@)) {
            Some((i, j)) => r matches Some(s) && s@ == trim(text@).subrange(i, j + 1),
            None => r is None,
        },
{
    let v = chars_of(text);
    let (a, b) = trim_bounds(&v);
    let t = string_of_range(&v, a, b);
    let tv = chars_of(t.as_str());
    let open = find_first(&tv, '{');
    let close = find_last(&tv, '}');
    match (open, close) {
        (Some(i), Some(j)) => {
            proof {
                let i0 = choose|x: int| 0 <= x < tv@.len() && tv@[x] == '{' && forall|k: int| 0 <= k < x ==> tv@[k] != '{';
                let j0 = choose|x: int| 0 <= x < tv@.len() && tv@[x] == '}' && forall|k: int| x < k < tv@.len() ==> tv@[k] != '}';
                assert(i0 == i as int) by {
                    if i0 < i as int {} else if i0 > i as int { assert(tv@[i as int] == '{'); }
                }
                assert(j0 == j as int) by {
                    if j0 > j as int {} else if j0 < j as int { assert(tv@[j as int] == '}'); }
                }
            }
            Some(string_of_range(&tv, i, j + 1))
        },
        _ => None,
    }
}

/// The longest reason text kept from an unparseable reply, in bytes.
pub const UNPARSEABLE_PREVIEW_BYTES: usize = 100;

/// The characters of `s` that make up its first `n` UTF-8 bytes exist:
/// `n` falls on a character boundary.
pub open spec fn byte_boundary(s: Seq<char>, n: nat) -> bool {
    exists|k: int| 0 <= k <= s.len() && #[trigger] encode_utf8(s.take(k)).len() == n
}

/// The byte length `min(len, 100)` of the preview of `s`.
pub open spec fn preview_bytes(s: Seq<char>) -> nat {
    if encode_utf8(s).len() < UNPARSEABLE_PREVIEW_BYTES {
        encode_utf8(s).len()
    } else {
        UNPARSEABLE_PREVIEW_BYTES as nat
    }
}

proof fn lemma_encode_push(a: Seq<char>, c: char)
    ensures
        encode_utf8(a.push(c)) == encode_utf8(a) + encode_scalar(c as u32),
    decreases a.len(),
{
    if a.len() == 0 {
        assert(seq![c].drop_first() =~= Seq::<char>::empty());
        assert(a.push(c) =~= seq![c]);
        assert(encode_utf8(Seq::<char>::empty()) == Seq::<u8>::empty());
        assert(encode_utf8(a) == Seq::<u8>::empty());
        assert(encode_utf8(seq![c]) == encode_scalar(c as u32) + encode_utf8(seq![c].drop_first()));
        assert(encode_scalar(c as u32) + Seq::<u8>::empty() =~= encode_scalar(c as u32));
        assert(Seq::<u8>::empty() + encode_scalar(c as u32) =~= encode_scalar(c as u32));
    } else {
        lemma_encode_push(a.drop_first(), c);
        assert(a.push(c).drop_first() =~= a.drop_first().push(c));
        assert(a.push(c)[0] == a[0]);
        assert(encode_utf8(a.push(c)) == encode_scalar(a[0] as u32) + encode_utf8(a.push(c).drop_first()));
        assert(encode_utf8(a) == encode_scalar(a[0] as u32) + encode_utf8(a.drop_first()));
        assert(encode_scalar(a[0] as u32) + (encode_utf8(a.drop_first()) + encode_scalar(c as u32))
            =~= (encode_scalar(a[0] as u32) + encode_utf8(a.drop_first())) + encode_scalar(c as u32));
    }
}

fn utf8_width(c: char) -> (w: usize)
    ensures
        w == encode_scalar(c as u32).len(),
{
    let u = c as u32;
    if u <= 0x7F {
        1
    } else if u <= 0x7FF {
        2
    } else if u <= 0xFFFF {
        3
    } else {
        4
    }
}

/// The characters of the first `min(len, 100)` bytes of `text`.
fn byte_preview(text: &str) -> (r: String)
    requires
        byte_boundary(text@, preview_bytes(text@)),
    ensures
        exists|k: int|
            0 <= k <= text@.len() && r@ == text@.take(k) && encode_utf8(text@.take(k)).len()
                == preview_bytes(text@),
{
    let v = chars_of(text);
    let ghost limit = preview_bytes(text@);
    let mut bytes: usize = 0;
    let mut i: usize = 0;
    assert(v@.take(0) =~= Seq::<char>::empty());
    assert(text@.take(text@.len() as int) =~= text@);
    while i < v.len() && bytes < UNPARSEABLE_PREVIEW_BYTES
        invariant
            v@ == text@,
            i <= v@.len(),
            bytes == encode_utf8(v@.take(i as int)).len(),
            bytes <= UNPARSEABLE_PREVIEW_BYTES + 3,
            limit == preview_bytes(text@),
            byte_boundary(text@, limit),
            i > 0 ==> encode_utf8(v@.take(i - 1)).len() < UNPARSEABLE_PREVIEW_BYTES,
        decreases v@.len() - i,
    {
        let w = utf8_width(v[i]);
        proof {
            lemma_encode_push(v@.take(i as int), v@[i as int]);
            assert(v@.take(i + 1) =~= v@.take(i as int).push(v@[i as int]));
        }
        bytes = bytes + w;
        i = i + 1;
    }
    proof {
        let k = choose|k: int| 0 <= k <= text@.len() && #[trigger] encode_utf8(text@.take(k)).len() == limit;
        if i < v@.len() {
            lemma_prefix_bytes_monotone(text@, i as int, text@.len() as int);
        } else {
            assert(v@.take(i as int) =~= text@);
        }
        if bytes >= UNPARSEABLE_PREVIEW_BYTES {
            if k < i as int {
                if k < i - 1 {
                    lemma_prefix_bytes_monotone(text@, k, i - 1);
                }
                assert(false);
            } else if k > i as int {
                lemma_prefix_bytes_monotone(text@, i as int, k);
                assert(false);
            }
        }
        assert(encode_utf8(text@.take(i as int)).len() == limit);
        assert(v@.subrange(0, i as int) =~= text@.take(i as int));
    }
    string_of_range(&v, 0, i)
}

/// The no-op decision for a reply that did not parse: its reason names the
/// first `min(len, 100)` bytes of the reply.
pub open spec fn is_unparseable_outcome(o: TickOutput, text: Seq<char>) -> bool {
    &&& o.decision == Decision::Noop
    &&& o.actions@.len() == 0
    &&& exists|k: int|
        0 <= k <= text.len() && o.reason@ == "Unparseable model output: "@ + text.take(k)
            && encode_utf8(text.take(k)).len() == preview_bytes(text)
}

/// The decision in a model reply, given what parsing the whole reply
/// (`whole`) and its JSON slice (`sliced`) gave: the whole reply first, then
/// the slice, else a no-op naming the start of the reply. The start is cut
/// at byte 100, which must fall on a character boundary.
pub fn parse_tick_output_with(text: &str, whole: Option<TickOutput>, sliced: Option<TickOutput>) -> (o: TickOutput)
    requires
        whole is None && sliced is None ==> byte_boundary(text@, preview_bytes(text@)),
    ensures
        match whole {
            Some(w) => o == w,
            None => match sliced {
                Some(x) => o == x,
                None => is_unparseable_outcome(o, text@),
            },
        },
{
    match whole {
        Some(w) => w,
        None => match sliced {
            Some(x) => x,
            None => {
                let mut reason = owned("Unparseable model output: ");
                let p = byte_preview(text);
                push_str(&mut reason, p.as_str());
                noop(reason)
            },
        },
    }
}

proof fn lemma_prefix_bytes_monotone(s: Seq<char>, a: int, b: int)
    requires
        0 <= a < b <= s.len(),
    ensures
        encode_utf8(s.take(a)).len() < encode_utf8(s.take(b)).len(),
    decreases b - a,
{
    lemma_encode_push(s.take(b - 1), s[b - 1]);
    assert(s.take(b) =~= s.take(b - 1).push(s[b - 1]));
    if a < b - 1 {
        lemma_prefix_bytes_monotone(s, a, b - 1);
    }
}

} // verus!
