use openhuman::routing::policy::{RoutingTarget, TaskCategory};
use openhuman::routing::provider::{retry_model, routed_to, IntelligentRoutingProvider};

fn provider(local_enabled: bool) -> IntelligentRoutingProvider<&'static str, ()> {
    IntelligentRoutingProvider::new("remote", "local", "gemma3:4b".into(), "neocortex-mk1".into(), local_enabled, ())
}

#[test]
fn light_hint_routes_local_when_healthy() {
    let p = provider(true);
    let r = p.resolve("hint:reaction", true);
    assert_eq!(r.category, TaskCategory::Lightweight);
    assert!(r.local_healthy);
    assert_eq!(r.primary, RoutingTarget::Local { model: "gemma3:4b".into() });
    assert_eq!(r.fallback, Some(RoutingTarget::Remote { model: "neocortex-mk1".into() }));
}

#[test]
fn heavy_hint_keeps_its_model_remotely() {
    let p = provider(true);
    let r = p.resolve("hint:coding", true);
    assert_eq!(r.primary, RoutingTarget::Remote { model: "hint:coding".into() });
    assert!(r.fallback.is_none());
    assert_eq!(p.stream_model("hint:coding"), "hint:coding");
    assert_eq!(p.stream_model("hint:reaction"), "neocortex-mk1");
}

#[test]
fn local_disabled_routes_all_to_remote() {
    let p = provider(false);
    assert!(!p.needs_health_probe());
    let r = p.resolve("hint:reaction", true);
    assert!(!r.local_healthy);
    assert_eq!(r.primary, RoutingTarget::Remote { model: "neocortex-mk1".into() });
}

#[test]
fn tools_force_remote_and_fallback_telemetry() {
    let p = provider(true);
    let local = RoutingTarget::Local { model: "gemma3:4b".into() };
    let fb = Some(RoutingTarget::Remote { model: "neocortex-mk1".into() });
    assert_eq!(p.effective_primary(&local, true), RoutingTarget::Remote { model: "neocortex-mk1".into() });
    assert_eq!(p.effective_primary(&local, false), local);
    assert_eq!(retry_model(&local, &fb, true), Some("neocortex-mk1".to_string()));
    assert_eq!(retry_model(&local, &fb, false), None);
    let t = routed_to(&local, &fb, true);
    assert_eq!(t.routed_to, "remote");
    assert_eq!(t.resolved_model, "neocortex-mk1");
    assert!(t.fallback_to_remote);
    let t = routed_to(&local, &fb, false);
    assert_eq!(t.routed_to, "local");
    assert_eq!(t.resolved_model, "gemma3:4b");
}
