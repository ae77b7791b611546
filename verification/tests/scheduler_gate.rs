use openhuman::scheduler_gate::policy::{decide, GateSignals, Policy, SchedulerGateMode};

const BATTERY_FLOOR: f32 = 0.8;
const CPU_BUSY_THRESHOLD_PCT: f32 = 70.0;

fn signals(on_ac: bool, charge: Option<f32>, cpu: f32, server: bool) -> GateSignals {
    GateSignals {
        on_ac_power: on_ac,
        battery_at_or_above_floor: charge.map(|c| c >= BATTERY_FLOOR),
        cpu_within_threshold: cpu <= CPU_BUSY_THRESHOLD_PCT,
        server_mode: server,
    }
}

#[test]
fn off_mode_pauses() {
    let p = decide(&signals(true, None, 5.0, true), SchedulerGateMode::Off);
    assert_eq!(p, Policy::Paused);
}

#[test]
fn always_on_overrides_signals() {
    let p = decide(&signals(false, Some(0.10), 99.0, false), SchedulerGateMode::AlwaysOn);
    assert_eq!(p, Policy::Aggressive);
}

#[test]
fn server_mode_is_aggressive() {
    let p = decide(&signals(false, None, 50.0, true), SchedulerGateMode::Auto);
    assert_eq!(p, Policy::Aggressive);
}

#[test]
fn plugged_in_idle_is_normal() {
    let p = decide(&signals(true, Some(0.45), 20.0, false), SchedulerGateMode::Auto);
    assert_eq!(p, Policy::Normal);
}

#[test]
fn battery_above_floor_is_normal() {
    let p = decide(&signals(false, Some(0.85), 20.0, false), SchedulerGateMode::Auto);
    assert_eq!(p, Policy::Normal);
}

#[test]
fn battery_below_floor_throttles() {
    let p = decide(&signals(false, Some(0.30), 20.0, false), SchedulerGateMode::Auto);
    assert_eq!(p, Policy::Throttled);
}

#[test]
fn busy_cpu_throttles_even_when_plugged_in() {
    let p = decide(&signals(true, Some(0.95), 90.0, false), SchedulerGateMode::Auto);
    assert_eq!(p, Policy::Throttled);
}

#[test]
fn no_battery_treated_as_plugged_in() {
    let p = decide(&signals(false, None, 20.0, false), SchedulerGateMode::Auto);
    assert_eq!(p, Policy::Normal);
}

#[test]
fn policy_names() {
    assert_eq!(Policy::Aggressive.as_str(), "aggressive");
    assert_eq!(Policy::Normal.as_str(), "normal");
    assert_eq!(Policy::Throttled.as_str(), "throttled");
    assert_eq!(Policy::Paused.as_str(), "paused");
}
