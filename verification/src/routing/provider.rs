//! Decision core of the policy-driven provider that routes requests between
//! a local Ollama model and the remote backend.
//!
//! On each call the provider
//! 1. classifies the `model` hint string into a [`TaskCategory`],
//! 2. learns whether the local server is healthy (only probed when local
//!    routing is enabled),
//! 3. produces a primary [`RoutingTarget`] and optional fallback,
//! 4. forces remote when tools are in play,
//! 5. retries with the remote fallback when the local call fails, and
//! 6. reports where the call was finally routed.
//! The provider calls themselves (network I/O) are made by the caller with
//! the targets decided here.

use vstd::prelude::*;
use crate::routing::policy::{
    classify, decide, opt_target, spec_classify, spec_decide, target_label, target_model,
    RoutingTarget, TargetView, TaskCategory,
};
use crate::text::owned;

verus! {

/// Provider that routes requests between a local model server and the
/// remote backend based on task complexity and local model health. `P` is
/// the provider handle type and `H` the shared health-checker handle.
pub struct IntelligentRoutingProvider<P, H> {
    /// Remote backend.
    pub remote: P,
    /// Local Ollama-backed provider.
    pub local: P,
    /// Model ID passed to the local provider.
    pub local_model: String,
    /// Model string used when routing a lightweight/medium task to remote.
    pub remote_fallback_model: String,
    /// Whether local routing is enabled at all.
    pub local_enabled: bool,
    /// Shared health checker.
    pub health: H,
}

/// The remote model string for a call: heavy tasks keep the caller's model
/// string (so the remote router can resolve known hints); lightweight and
/// medium tasks use the configured default model.
pub open spec fn spec_remote_model(model: Seq<char>, remote_fallback_model: Seq<char>) -> Seq<char> {
    if spec_classify(model) == TaskCategory::Heavy {
        model
    } else {
        remote_fallback_model
    }
}

/// What `resolve` returns: primary target, fallback, category, and the
/// effective local health.
pub struct Resolution {
    pub primary: RoutingTarget,
    pub fallback: Option<RoutingTarget>,
    pub category: TaskCategory,
    pub local_healthy: bool,
}

impl<P, H> IntelligentRoutingProvider<P, H> {
    /// Create the provider.
    pub fn new(
        remote: P,
        local: P,
        local_model: String,
        remote_fallback_model: String,
        local_enabled: bool,
        health: H,
    ) -> (r: Self)
        ensures
            r.remote == remote,
            r.local == local,
            r.local_model == local_model,
            r.remote_fallback_model == remote_fallback_model,
            r.local_enabled == local_enabled,
            r.health == health,
    {
        IntelligentRoutingProvider { remote, local, local_model, remote_fallback_model, local_enabled, health }
    }

    /// Whether a health probe is needed before routing (only when local
    /// routing is enabled).
    pub fn needs_health_probe(&self) -> (b: bool)
        ensures
            b == self.local_enabled,
    {
        self.local_enabled
    }

    /// The remote model string for `model`.
    pub fn remote_model_for(&self, model: &str) -> (s: String)
        ensures
            s@ == spec_remote_model(model@, self.remote_fallback_model@),
    {
        match classify(model) {
            TaskCategory::Heavy => owned(model),
            _ => owned(self.remote_fallback_model.as_str()),
        }
    }

    /// Resolve routing targets for `model`, given the health probe's answer
    /// (ignored when local routing is disabled).
    pub fn resolve(&self, model: &str, probe_healthy: bool) -> (r: Resolution)
        ensures
            r.category == spec_classify(model@),
            r.local_healthy == (self.local_enabled && probe_healthy),
            (r.primary@, opt_target(r.fallback)) == spec_decide(
                spec_classify(model@),
                self.local_model@,
                spec_remote_model(model@, self.remote_fallback_model@),
                self.local_enabled && probe_healthy,
            ),
    {
        let category = classify(model);
        let local_healthy = self.local_enabled && probe_healthy;
        let remote_model = self.remote_model_for(model);
        let (primary, fallback) = decide(
            category,
            self.local_model.as_str(),
            remote_model.as_str(),
            local_healthy,
        );
        Resolution { primary, fallback, category, local_healthy }
    }

    /// The target actually used for a full `chat` call: when tools are
    /// present a local primary is replaced by the remote default model,
    /// since local models may not support native tool calling.
    pub fn effective_primary(&self, primary: &RoutingTarget, has_tools: bool) -> (r: RoutingTarget)
        ensures
            r@ == spec_effective_primary(primary@, has_tools, self.remote_fallback_model@),
    {
        match primary {
            RoutingTarget::Local { model } => {
                if has_tools {
                    RoutingTarget::Remote { model: owned(self.remote_fallback_model.as_str()) }
                } else {
                    RoutingTarget::Local { model: owned(model.as_str()) }
                }
            },
            RoutingTarget::Remote { model } => RoutingTarget::Remote { model: owned(model.as_str()) },
        }
    }

    /// The model used for streaming, which always goes to remote.
    pub fn stream_model(&self, model: &str) -> (s: String)
        ensures
            s@ == spec_remote_model(model@, self.remote_fallback_model@),
    {
        self.remote_model_for(model)
    }

    /// Whether to warm up the local provider after the remote one.
    pub fn warmup_local(&self) -> (b: bool)
        ensures
            b == self.local_enabled,
    {
        self.local_enabled
    }
}

/// Tool-bearing calls never stay local.
pub open spec fn spec_effective_primary(primary: TargetView, has_tools: bool, remote_fallback_model: Seq<char>) -> TargetView {
    match primary {
        TargetView::Local(m) => if has_tools {
            TargetView::Remote(remote_fallback_model)
        } else {
            TargetView::Local(m)
        },
        TargetView::Remote(m) => TargetView::Remote(m),
    }
}

/// The model to retry with after the primary call: the fallback's model
/// exactly when the primary was local, its call failed, and a remote
/// fallback exists.
pub open spec fn spec_retry_model(primary: TargetView, fallback: Option<TargetView>, primary_failed: bool) -> Option<Seq<char>> {
    match (primary, fallback) {
        (TargetView::Local(_), Some(TargetView::Remote(m))) => if primary_failed {
            Some(m)
        } else {
            None
        },
        _ => None,
    }
}

/// Where a call that failed on `primary` is retried, if anywhere.
pub fn retry_model(primary: &RoutingTarget, fallback: &Option<RoutingTarget>, primary_failed: bool) -> (r: Option<String>)
    ensures
        match r {
            Some(s) => spec_retry_model(primary@, opt_target(*fallback), primary_failed) == Some(s@),
            None => spec_retry_model(primary@, opt_target(*fallback), primary_failed) is None,
        },
{
    match (primary, fallback) {
        (RoutingTarget::Local { .. }, Some(RoutingTarget::Remote { model })) => {
            if primary_failed {
                Some(owned(model.as_str()))
            } else {
                None
            }
        },
        _ => None,
    }
}

/// Telemetry for a finished call: the label of where it was served and
/// the model string it was served with.
pub struct RoutedTo {
    pub routed_to: &'static str,
    pub resolved_model: String,
    pub fallback_to_remote: bool,
}

/// The telemetry of a finished call: after a fallback the call was served
/// remotely with the fallback's model (empty when there was none);
/// otherwise by the primary target.
pub open spec fn spec_routed_label(primary: TargetView, fallback_occurred: bool) -> Seq<char> {
    if fallback_occurred {
        "remote"@
    } else {
        target_label(primary)
    }
}

/// The resolved model string of a finished call.
pub open spec fn spec_resolved_model(primary: TargetView, fallback: Option<TargetView>, fallback_occurred: bool) -> Seq<char> {
    if fallback_occurred {
        match fallback {
            Some(t) => target_model(t),
            None => Seq::empty(),
        }
    } else {
        target_model(primary)
    }
}

/// Telemetry fields of a finished call.
pub fn routed_to(primary: &RoutingTarget, fallback: &Option<RoutingTarget>, fallback_occurred: bool) -> (r: RoutedTo)
    ensures
        r.routed_to@ == spec_routed_label(primary@, fallback_occurred),
        r.resolved_model@ == spec_resolved_model(primary@, opt_target(*fallback), fallback_occurred),
        r.fallback_to_remote == fallback_occurred,
{
    let label: &'static str = if fallback_occurred {
        "remote"
    } else {
        primary.label()
    };
    let resolved = if fallback_occurred {
        match fallback {
            Some(t) => owned(t.model()),
            None => String::new(),
        }
    } else {
        owned(primary.model())
    };
    RoutedTo { routed_to: label, resolved_model: resolved, fallback_to_remote: fallback_occurred }
}

/// Routing laws of the provider: heavy calls go remote with the caller's own
/// model string; with local routing disabled nothing routes locally; a call
/// carrying tools never runs locally; and a retry happens only after a
/// failed local primary, always against the remote fallback.
pub proof fn law_provider_routing(
    model: Seq<char>,
    local_model: Seq<char>,
    remote_fallback_model: Seq<char>,
    local_enabled: bool,
    probe_healthy: bool,
    has_tools: bool,
    primary_failed: bool,
)
    ensures
        ({
            let healthy = local_enabled && probe_healthy;
            let (p, f) = spec_decide(
                spec_classify(model),
                local_model,
                spec_remote_model(model, remote_fallback_model),
                healthy,
            );
            &&& (spec_classify(model) == TaskCategory::Heavy ==> p == TargetView::Remote(model))
            &&& (!local_enabled ==> p is Remote && f is None)
            &&& (has_tools ==> spec_effective_primary(p, has_tools, remote_fallback_model) is Remote)
            &&& (spec_retry_model(p, f, primary_failed) is Some ==> p is Local && primary_failed
                && spec_retry_model(p, f, primary_failed) == Some(remote_fallback_model))
        }),
{
}

} // verus!
