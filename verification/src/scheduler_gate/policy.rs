//! Decision logic — turn sampled host signals plus the user's gate mode
//! into a [`Policy`].
//!
//! The host signals that are measured as floating-point values (battery
//! charge, CPU usage) enter as the outcome of their comparison against the
//! configured floor/threshold; the caller that samples them takes those
//! comparisons (`charge >= battery_floor`, `cpu <= cpu_busy_threshold_pct`).

use vstd::prelude::*;

verus! {

/// Background-AI scheduling tier.
#[derive(Debug, Clone, Copy, PartialEq, Eq, Structural)]
pub enum Policy {
    Aggressive,
    Normal,
    Throttled,
    Paused,
}

/// The telemetry label of a policy.
pub open spec fn policy_label(p: Policy) -> Seq<char> {
    match p {
        Policy::Aggressive => "aggressive"@,
        Policy::Normal => "normal"@,
        Policy::Throttled => "throttled"@,
        Policy::Paused => "paused"@,
    }
}

impl Policy {
    /// Human-readable label.
    pub fn as_str(self) -> (s: &'static str)
        ensures
            s@ == policy_label(self),
    {
        match self {
            Policy::Aggressive => "aggressive",
            Policy::Normal => "normal",
            Policy::Throttled => "throttled",
            Policy::Paused => "paused",
        }
    }
}

/// User-selected gate mode.
#[derive(Debug, Clone, Copy, PartialEq, Eq, Structural)]
pub enum SchedulerGateMode {
    /// Never run background AI work.
    Off,
    /// Always run it, whatever the host signals say.
    AlwaysOn,
    /// Decide from the host signals.
    Auto,
}

/// Sampled host signals, with the measured quantities already compared
/// against the configured limits.
#[derive(Debug, Clone, Copy, PartialEq, Eq, Structural)]
pub struct GateSignals {
    /// The host is on mains power.
    pub on_ac_power: bool,
    /// `Some(charge >= battery_floor)` when a battery is present, `None`
    /// when the host has no battery.
    pub battery_at_or_above_floor: Option<bool>,
    /// `cpu_usage_pct <= cpu_busy_threshold_pct`.
    pub cpu_within_threshold: bool,
    /// The process runs as a headless server.
    pub server_mode: bool,
}

/// The policy for a mode and signals: explicit user overrides win first,
/// then deployment mode, then the dynamic host signals (a missing battery
/// counts as being plugged in).
pub open spec fn spec_decide(signals: GateSignals, mode: SchedulerGateMode) -> Policy {
    match mode {
        SchedulerGateMode::Off => Policy::Paused,
        SchedulerGateMode::AlwaysOn => Policy::Aggressive,
        SchedulerGateMode::Auto => if signals.server_mode {
            Policy::Aggressive
        } else if (signals.on_ac_power || match signals.battery_at_or_above_floor {
            Some(ok) => ok,
            None => true,
        }) && signals.cpu_within_threshold {
            Policy::Normal
        } else {
            Policy::Throttled
        },
    }
}

/// The [`Policy`] for the given host signals and gate mode.
pub fn decide(signals: &GateSignals, mode: SchedulerGateMode) -> (p: Policy)
    ensures
        p == spec_decide(*signals, mode),
{
    match mode {
        SchedulerGateMode::Off => return Policy::Paused,
        SchedulerGateMode::AlwaysOn => return Policy::Aggressive,
        SchedulerGateMode::Auto => {},
    }
    if signals.server_mode {
        return Policy::Aggressive;
    }
    let battery_ok = signals.on_ac_power || match signals.battery_at_or_above_floor {
        Some(ok) => ok,
        None => true,
    };
    let cpu_ok = signals.cpu_within_threshold;
    if battery_ok && cpu_ok {
        Policy::Normal
    } else {
        Policy::Throttled
    }
}

/// Gate laws: `Off` always pauses and `AlwaysOn` is always aggressive,
/// whatever the signals; in `Auto`, a busy CPU never yields `Normal`; and
/// `Auto` never pauses.
pub proof fn law_gate_overrides(signals: GateSignals)
    ensures
        spec_decide(signals, SchedulerGateMode::Off) == Policy::Paused,
        spec_decide(signals, SchedulerGateMode::AlwaysOn) == Policy::Aggressive,
        !signals.cpu_within_threshold ==> spec_decide(signals, SchedulerGateMode::Auto) != Policy::Normal,
        spec_decide(signals, SchedulerGateMode::Auto) != Policy::Paused,
{
}

} // verus!
