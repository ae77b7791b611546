use openhuman::cron::bus::{CronDeliverySubscriber, DeliveryPlan};
use openhuman::event_bus::events::DomainEvent;
use openhuman::rpc::RpcOutcome;
use openhuman::service::bus::RestartSubscriber;

fn delivery(channel: &str) -> DomainEvent {
    DomainEvent::CronDeliveryRequested {
        job_id: "job-1".into(),
        channel: channel.into(),
        target: "#general".into(),
        output: "done".into(),
    }
}

#[test]
fn event_domains() {
    assert_eq!(DomainEvent::AgentTurnStarted { session_id: "s".into(), channel: "c".into() }.domain(), "agent");
    assert_eq!(DomainEvent::MemoryRecalled { query: "q".into(), hit_count: 1 }.domain(), "memory");
    assert_eq!(DomainEvent::ChannelConnected { channel: "c".into() }.domain(), "channel");
    assert_eq!(delivery("x").domain(), "cron");
    assert_eq!(DomainEvent::SkillLoaded { skill_id: "s".into() }.domain(), "skill");
    assert_eq!(DomainEvent::ToolExecutionStarted { tool_name: "t".into(), session_id: "s".into() }.domain(), "tool");
    assert_eq!(DomainEvent::WebhookReceived { tunnel_id: "t".into(), skill_id: "s".into() }.domain(), "webhook");
    assert_eq!(DomainEvent::HealthChanged { component: "c".into(), healthy: true }.domain(), "system");
    assert_eq!(DomainEvent::SystemRestartRequested { source: "cli".into(), reason: "r".into() }.domain(), "system");
}

#[test]
fn cron_delivery_routes_by_lowercased_channel() {
    let sub = CronDeliverySubscriber::new(vec!["telegram".into(), "slack".into()]);
    assert_eq!(sub.name(), "cron::delivery");
    assert_eq!(sub.domains(), Some(vec!["cron"]));
    match sub.plan(&delivery("Telegram")) {
        DeliveryPlan::Send { job_id, channel, target, output } => {
            assert_eq!(job_id, "job-1");
            assert_eq!(channel, "telegram");
            assert_eq!(target, "#general");
            assert_eq!(output, "done");
        }
        other => panic!("expected send, got {other:?}"),
    }
    match sub.plan(&delivery("Discord")) {
        DeliveryPlan::NoChannel { channel, .. } => assert_eq!(channel, "discord"),
        other => panic!("expected no channel, got {other:?}"),
    }
    assert!(matches!(sub.plan(&DomainEvent::SkillLoaded { skill_id: "s".into() }), DeliveryPlan::Ignore));
}

#[test]
fn restart_subscriber_picks_restart_requests() {
    let sub = RestartSubscriber;
    assert_eq!(sub.name(), "service::restart");
    assert_eq!(sub.domains(), Some(vec!["system"]));
    let ev = DomainEvent::SystemRestartRequested { source: "rpc".into(), reason: "update".into() };
    assert_eq!(sub.restart_request(&ev), Some(("rpc".to_string(), "update".to_string())));
    assert_eq!(sub.restart_request(&DomainEvent::SystemStartup { component: "core".into() }), None);
}

#[test]
fn rpc_outcome_constructors() {
    let o = RpcOutcome::new(7, vec!["a".to_string(), "b".to_string()]);
    assert_eq!(o.value, 7);
    assert_eq!(o.logs.len(), 2);
    let s = RpcOutcome::single_log("v", "one line".to_string());
    assert_eq!(s.value, "v");
    assert_eq!(s.logs, vec!["one line".to_string()]);
}
