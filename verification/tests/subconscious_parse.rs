use openhuman::subconscious::engine::{
    parse_tick_output_with, tick_json_slice, Decision, TickAction, TickOutput,
};
use openhuman::subconscious::engine::{model_failure_outcome, plan_after_report, plan_tick, ReportPlan, TickPlan};
use serde_json::Value;

fn from_json(v: &Value) -> Option<TickOutput> {
    let obj = v.as_object()?;
    let decision = match obj.get("decision")?.as_str()? {
        "noop" => Decision::Noop,
        "act" => Decision::Act,
        "escalate" => Decision::Escalate,
        _ => return None,
    };
    let reason = obj.get("reason")?.as_str()?.to_string();
    let mut actions = Vec::new();
    for a in obj.get("actions")?.as_array()? {
        actions.push(TickAction {
            kind: a.get("type")?.as_str()?.to_string(),
            description: a.get("description")?.as_str()?.to_string(),
            priority: a.get("priority")?.as_str()?.to_string(),
        });
    }
    Some(TickOutput { decision, reason, actions })
}

fn parse_tick_output(text: &str) -> TickOutput {
    let whole = serde_json::from_str::<Value>(text).ok().and_then(|v| from_json(&v));
    let sliced = if whole.is_none() {
        tick_json_slice(text).and_then(|s| serde_json::from_str::<Value>(&s).ok()).and_then(|v| from_json(&v))
    } else {
        None
    };
    parse_tick_output_with(text, whole, sliced)
}

#[test]
fn parse_valid_noop() {
    let output = parse_tick_output(r#"{"decision": "noop", "reason": "Nothing changed.", "actions": []}"#);
    assert_eq!(output.decision, Decision::Noop);
}

#[test]
fn parse_valid_escalate() {
    let output = parse_tick_output(
        r#"{"decision": "escalate", "reason": "Deadline moved to tomorrow", "actions": [{"type": "escalate_to_agent", "description": "Notify about deadline change", "priority": "high"}]}"#,
    );
    assert_eq!(output.decision, Decision::Escalate);
    assert_eq!(output.actions.len(), 1);
}

#[test]
fn parse_json_in_markdown_block() {
    let output = parse_tick_output("```json\n{\"decision\": \"act\", \"reason\": \"Store to memory\", \"actions\": []}\n```");
    assert_eq!(output.decision, Decision::Act);
}

#[test]
fn parse_garbage_falls_back_to_noop() {
    let output = parse_tick_output("This is not JSON at all");
    assert_eq!(output.decision, Decision::Noop);
    assert!(output.reason.contains("Unparseable"));
}

#[test]
fn unparseable_reason_keeps_first_hundred_bytes() {
    let long = "x".repeat(150);
    let output = parse_tick_output(&long);
    assert_eq!(output.reason, format!("Unparseable model output: {}", "x".repeat(100)));
    let output = parse_tick_output("éé not json");
    assert_eq!(output.reason, "Unparseable model output: éé not json");
}

#[test]
fn tick_steps() {
    match plan_tick(&Vec::new()) {
        TickPlan::Finish(o) => {
            assert_eq!(o.decision, Decision::Noop);
            assert_eq!(o.reason, "No tasks in HEARTBEAT.md");
        }
        TickPlan::BuildReport => panic!("no tasks must finish"),
    }
    assert!(matches!(plan_tick(&vec!["check mail".to_string()]), TickPlan::BuildReport));
    match plan_after_report("No changes since last tick") {
        ReportPlan::Finish(o) => assert_eq!(o.reason, "No state changes since last tick."),
        ReportPlan::AskModel => panic!("no changes must finish"),
    }
    assert!(matches!(plan_after_report("Bob replied"), ReportPlan::AskModel));
    assert_eq!(model_failure_outcome("timeout").reason, "Local model inference failed: timeout");
}
