//! Task classification and routing policy.
//!
//! Maps `hint:*` model strings to task categories and produces deterministic
//! routing decisions based on task category and local model availability.

use vstd::prelude::*;
use crate::text::{chars_of, owned, starts_with, starts_with_seq, str_eq, string_of_range};

verus! {

/// Task complexity tier for model selection.
#[derive(Debug, Clone, Copy, PartialEq, Eq, Structural)]
pub enum TaskCategory {
    /// Reactions, short classifications, simple formatting. Local-first.
    Lightweight,
    /// Summarization, limited tool orchestration. Local-preferred.
    Medium,
    /// Deep reasoning, long-context planning, complex generation. Remote only.
    Heavy,
}

/// The telemetry label of a category.
pub open spec fn category_label(c: TaskCategory) -> Seq<char> {
    match c {
        TaskCategory::Lightweight => "lightweight"@,
        TaskCategory::Medium => "medium"@,
        TaskCategory::Heavy => "heavy"@,
    }
}

impl TaskCategory {
    /// Human-readable label for telemetry.
    pub fn as_str(self) -> (s: &'static str)
        ensures
            s@ == category_label(self),
    {
        match self {
            TaskCategory::Lightweight => "lightweight",
            TaskCategory::Medium => "medium",
            TaskCategory::Heavy => "heavy",
        }
    }
}

/// Routing target produced by the policy decision.
#[derive(Debug, Clone, PartialEq, Eq)]
pub enum RoutingTarget {
    /// Use the local model with the given model ID.
    Local { model: String },
    /// Use the remote backend with the given model string (may be a `hint:*`).
    Remote { model: String },
}

/// Abstract view of a routing target: where, and with which model string.
pub enum TargetView {
    Local(Seq<char>),
    Remote(Seq<char>),
}

impl View for RoutingTarget {
    type V = TargetView;

    open spec fn view(&self) -> TargetView {
        match self {
            RoutingTarget::Local { model } => TargetView::Local(model@),
            RoutingTarget::Remote { model } => TargetView::Remote(model@),
        }
    }
}

/// The model string of a target view.
pub open spec fn target_model(t: TargetView) -> Seq<char> {
    match t {
        TargetView::Local(m) => m,
        TargetView::Remote(m) => m,
    }
}

/// The telemetry label of a target view.
pub open spec fn target_label(t: TargetView) -> Seq<char> {
    match t {
        TargetView::Local(_) => "local"@,
        TargetView::Remote(_) => "remote"@,
    }
}

/// The view of an optional target.
pub open spec fn opt_target(t: Option<RoutingTarget>) -> Option<TargetView> {
    match t {
        Some(x) => Some(x@),
        None => None,
    }
}

impl RoutingTarget {
    /// Human-readable label for telemetry.
    pub fn label(&self) -> (s: &'static str)
        ensures
            s@ == target_label(self@),
    {
        match self {
            RoutingTarget::Local { .. } => "local",
            RoutingTarget::Remote { .. } => "remote",
        }
    }

    /// The resolved model string passed to the chosen provider.
    pub fn model(&self) -> (s: &str)
        ensures
            s@ == target_model(self@),
    {
        match self {
            RoutingTarget::Local { model } => model.as_str(),
            RoutingTarget::Remote { model } => model.as_str(),
        }
    }
}

/// The hint named by a `hint:*` model string, or `None` for an exact model name.
pub open spec fn hint_of(model: Seq<char>) -> Option<Seq<char>> {
    if starts_with(model, "hint:"@) {
        Some(model.skip(5))
    } else {
        None
    }
}

/// The hints that name lightweight tasks.
pub open spec fn is_lightweight_hint(h: Seq<char>) -> bool {
    h == "reaction"@ || h == "classify"@ || h == "format"@ || h == "sentiment"@ || h
        == "lightweight"@
}

/// The hints that name medium tasks.
pub open spec fn is_medium_hint(h: Seq<char>) -> bool {
    h == "summarize"@ || h == "medium"@ || h == "tool_lite"@
}

/// The category of a model string: listed lightweight and medium hints map
/// to their tier; every other hint and every exact model name is heavy.
pub open spec fn spec_classify(model: Seq<char>) -> TaskCategory {
    match hint_of(model) {
        Some(h) => if is_lightweight_hint(h) {
            TaskCategory::Lightweight
        } else if is_medium_hint(h) {
            TaskCategory::Medium
        } else {
            TaskCategory::Heavy
        },
        None => TaskCategory::Heavy,
    }
}

/// Classify a model string (possibly `hint:*`) into a task category.
///
/// - `hint:reaction`, `hint:classify`, `hint:format`, `hint:sentiment`,
///   `hint:lightweight` → [`TaskCategory::Lightweight`]
/// - `hint:summarize`, `hint:medium`, `hint:tool_lite` → [`TaskCategory::Medium`]
/// - all other `hint:*` values and non-hint strings → [`TaskCategory::Heavy`]
pub fn classify(model: &str) -> (c: TaskCategory)
    ensures
        c == spec_classify(model@),
{
    let v = chars_of(model);
    let prefix = chars_of("hint:");
    proof {
        reveal_strlit("hint:");
    }
    if !starts_with_seq(&v, &prefix) {
        return TaskCategory::Heavy;
    }
    let h = string_of_range(&v, 5, v.len());
    assert(h@ =~= model@.skip(5));
    let hs = h.as_str();
    if str_eq(hs, "reaction") || str_eq(hs, "classify") || str_eq(hs, "format") || str_eq(
        hs,
        "sentiment",
    ) || str_eq(hs, "lightweight") {
        TaskCategory::Lightweight
    } else if str_eq(hs, "summarize") || str_eq(hs, "medium") || str_eq(hs, "tool_lite") {
        TaskCategory::Medium
    } else {
        TaskCategory::Heavy
    }
}

/// The routing decision: local (with remote fallback) exactly when the
/// local model is available and the task is lightweight or medium;
/// otherwise remote with no fallback.
pub open spec fn spec_decide(
    category: TaskCategory,
    local_model: Seq<char>,
    remote_model: Seq<char>,
    local_available: bool,
) -> (TargetView, Option<TargetView>) {
    if local_available && category != TaskCategory::Heavy {
        (TargetView::Local(local_model), Some(TargetView::Remote(remote_model)))
    } else {
        (TargetView::Remote(remote_model), None)
    }
}

/// Decide where to route a task.
///
/// Returns the primary `RoutingTarget` and an optional fallback target. The
/// fallback is `Some` only when the primary target is local (local → remote
/// fallback). Remote targets never fall back to local.
pub fn decide(
    category: TaskCategory,
    local_model: &str,
    remote_model: &str,
    local_available: bool,
) -> (r: (RoutingTarget, Option<RoutingTarget>))
    ensures
        (r.0@, opt_target(r.1)) == spec_decide(category, local_model@, remote_model@, local_available),
{
    let use_local = local_available && match category {
        TaskCategory::Lightweight => true,
        TaskCategory::Medium => true,
        TaskCategory::Heavy => false,
    };
    if use_local {
        let primary = RoutingTarget::Local { model: owned(local_model) };
        let fallback = RoutingTarget::Remote { model: owned(remote_model) };
        (primary, Some(fallback))
    } else {
        let primary = RoutingTarget::Remote { model: owned(remote_model) };
        (primary, None)
    }
}

/// Heavy tasks never route to the local model, whatever its health; any
/// exact (non-hint) model name is heavy.
pub proof fn law_heavy_never_local(model: Seq<char>, local_model: Seq<char>, remote_model: Seq<char>, local_available: bool)
    requires
        spec_classify(model) == TaskCategory::Heavy,
    ensures
        spec_decide(spec_classify(model), local_model, remote_model, local_available)
            == (TargetView::Remote(remote_model), None::<TargetView>),
        hint_of(model) is None ==> spec_classify(model) == TaskCategory::Heavy,
{
}

/// A fallback is offered exactly when the primary target is local, and the
/// fallback is always remote with the remote model string.
pub proof fn law_fallback_only_from_local(
    category: TaskCategory,
    local_model: Seq<char>,
    remote_model: Seq<char>,
    local_available: bool,
)
    ensures
        ({
            let (p, f) = spec_decide(category, local_model, remote_model, local_available);
            &&& (f is Some <==> p is Local)
            &&& (f is Some ==> f == Some(TargetView::Remote(remote_model)))
            &&& (p is Local ==> local_available && category != TaskCategory::Heavy)
        }),
{
}

} // verus!
