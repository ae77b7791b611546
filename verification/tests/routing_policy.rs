use openhuman::routing::policy::{classify, decide, RoutingTarget, TaskCategory};

#[test]
fn lightweight_hints_classify_correctly() {
    for hint in &["hint:reaction", "hint:classify", "hint:format", "hint:sentiment", "hint:lightweight"] {
        assert_eq!(classify(hint), TaskCategory::Lightweight, "{hint} should be Lightweight");
    }
}

#[test]
fn medium_hints_classify_correctly() {
    for hint in &["hint:summarize", "hint:medium", "hint:tool_lite"] {
        assert_eq!(classify(hint), TaskCategory::Medium, "{hint} should be Medium");
    }
}

#[test]
fn heavy_hints_classify_correctly() {
    for hint in &["hint:reasoning", "hint:agentic", "hint:coding", "hint:heavy", "hint:fast", "hint:unknown_future_hint"] {
        assert_eq!(classify(hint), TaskCategory::Heavy, "{hint} should be Heavy");
    }
}

#[test]
fn exact_model_name_is_heavy() {
    assert_eq!(classify("gemma3:4b-it-qat"), TaskCategory::Heavy);
    assert_eq!(classify("neocortex-mk1"), TaskCategory::Heavy);
    assert_eq!(classify(""), TaskCategory::Heavy);
}

#[test]
fn lightweight_local_healthy_routes_local_with_fallback() {
    let (primary, fallback) = decide(TaskCategory::Lightweight, "local-model", "remote-model", true);
    assert_eq!(primary, RoutingTarget::Local { model: "local-model".into() });
    assert_eq!(fallback, Some(RoutingTarget::Remote { model: "remote-model".into() }));
}

#[test]
fn lightweight_local_unavailable_routes_remote_no_fallback() {
    let (primary, fallback) = decide(TaskCategory::Lightweight, "local-model", "remote-model", false);
    assert_eq!(primary, RoutingTarget::Remote { model: "remote-model".into() });
    assert!(fallback.is_none());
}

#[test]
fn medium_local_healthy_routes_local_with_fallback() {
    let (primary, fallback) = decide(TaskCategory::Medium, "local-model", "remote-model", true);
    assert_eq!(primary, RoutingTarget::Local { model: "local-model".into() });
    assert!(fallback.is_some());
}

#[test]
fn heavy_always_routes_remote_regardless_of_local_health() {
    for local_healthy in [true, false] {
        let (primary, fallback) = decide(TaskCategory::Heavy, "local-model", "remote-model", local_healthy);
        assert_eq!(
            primary,
            RoutingTarget::Remote { model: "remote-model".into() },
            "heavy tasks must always go remote (local_healthy={local_healthy})"
        );
        assert!(fallback.is_none());
    }
}

#[test]
fn regression_reasoning_always_remote() {
    let category = classify("hint:reasoning");
    assert_eq!(category, TaskCategory::Heavy);
    let (primary, _) = decide(category, "local-model", "hint:reasoning", true);
    assert_eq!(primary, RoutingTarget::Remote { model: "hint:reasoning".into() });
}

#[test]
fn regression_agentic_always_remote() {
    let category = classify("hint:agentic");
    assert_eq!(category, TaskCategory::Heavy);
    let (primary, _) = decide(category, "local-model", "hint:agentic", true);
    assert!(matches!(primary, RoutingTarget::Remote { .. }));
}

#[test]
fn routing_target_label_and_model() {
    let local = RoutingTarget::Local { model: "m".into() };
    assert_eq!(local.label(), "local");
    assert_eq!(local.model(), "m");
    let remote = RoutingTarget::Remote { model: "r".into() };
    assert_eq!(remote.label(), "remote");
    assert_eq!(remote.model(), "r");
}

#[test]
fn task_category_as_str() {
    assert_eq!(TaskCategory::Lightweight.as_str(), "lightweight");
    assert_eq!(TaskCategory::Medium.as_str(), "medium");
    assert_eq!(TaskCategory::Heavy.as_str(), "heavy");
}
