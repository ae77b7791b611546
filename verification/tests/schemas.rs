use openhuman::cron::schemas as cron;
use openhuman::eventkit::schemas as eventkit;
use openhuman::health::schemas as health;
use openhuman::skills::runtime_rpc as runtime;
use openhuman::skills::schemas as skills;
use openhuman::subconscious::schemas as subconscious;
use openhuman::controller::{ControllerSchema, TypeSchema};
use openhuman::cron::schemas::{missing_required, read_optional_u64, ParamValue};
use openhuman::skills::runtime_rpc::{missing_param, sanitize_filename};

fn names(v: &[ControllerSchema]) -> Vec<&'static str> {
    v.iter().map(|s| s.function).collect()
}

#[test]
fn cron_controllers_in_order() {
    let all = cron::all_controller_schemas();
    assert_eq!(names(&all), vec!["list", "update", "remove", "run", "runs"]);
    assert!(all.iter().all(|s| s.namespace == "cron"));
    let reg = cron::all_registered_controllers();
    assert_eq!(reg.len(), 5);
    assert_eq!(reg[4].handler, cron::CronHandler::Runs);
    assert_eq!(reg[2].schema.function, "remove");
}

#[test]
fn cron_schema_details() {
    let update = cron::schemas("update");
    assert_eq!(update.inputs.len(), 2);
    assert_eq!(update.inputs[0].name, "job_id");
    assert!(update.inputs[0].required);
    let runs = cron::schemas("runs");
    assert_eq!(runs.inputs[1].name, "limit");
    assert!(!runs.inputs[1].required);
    assert!(matches!(runs.inputs[1].ty, TypeSchema::Optional(_)));
    let run = cron::schemas("run");
    match &run.outputs[0].ty {
        TypeSchema::Object { fields } => {
            assert_eq!(fields.len(), 4);
            match &fields[1].ty {
                TypeSchema::Enum { variants } => assert_eq!(variants, &vec!["ok", "error"]),
                _ => panic!("status must be an enum"),
            }
        }
        _ => panic!("run result must be an object"),
    }
    let unknown = cron::schemas("bogus");
    assert_eq!(unknown.function, "unknown");
    assert_eq!(unknown.inputs[0].name, "function");
}

#[test]
fn health_and_subconscious_schemas() {
    assert_eq!(names(&health::all_controller_schemas()), vec!["snapshot"]);
    assert_eq!(health::schemas("nope").function, "unknown");
    assert_eq!(health::all_registered_controllers()[0].handler, health::HealthHandler::Snapshot);
    assert_eq!(names(&subconscious::all_controller_schemas()), vec!["status", "trigger"]);
    assert_eq!(subconscious::schemas("x").inputs[0].name, "function");
}

#[test]
fn eventkit_schemas() {
    let all = eventkit::all_controller_schemas();
    assert_eq!(names(&all), vec!["list_events", "create_reminder"]);
    let list = eventkit::schemas("list_events");
    assert_eq!(list.inputs.len(), 3);
    match &list.outputs[0].ty {
        TypeSchema::Array(inner) => match inner.as_ref() {
            TypeSchema::Object { fields } => {
                assert_eq!(fields.len(), 11);
                assert_eq!(fields[0].name, "ical_uid");
                assert_eq!(fields[10].name, "fetched_at");
            }
            _ => panic!("events must hold objects"),
        },
        _ => panic!("events must be an array"),
    }
    assert_eq!(eventkit::schemas("create_reminder").inputs.len(), 5);
    assert_eq!(eventkit::schemas("zzz").function, "unknown");
}

#[test]
fn runtime_and_skills_schemas() {
    let all = runtime::all_controller_schemas();
    assert_eq!(all.len(), 10);
    assert_eq!(all[3].function, "rpc");
    assert_eq!(all[3].inputs.len(), 3);
    assert_eq!(runtime::schemas("nope").function, "unknown");
    let sk = skills::all_controller_schemas();
    assert_eq!(
        names(&sk),
        vec!["connect", "disconnect", "state", "emit", "registry_fetch", "search", "install", "uninstall", "list_installed", "list_available"]
    );
    assert!(sk[..4].iter().all(|s| s.namespace == "socket"));
    assert!(sk[4..].iter().all(|s| s.namespace == "skills"));
    let reg = skills::all_registered_controllers();
    assert_eq!(reg[0].handler, skills::SkillsHandler::SocketUnavailable);
    assert_eq!(reg[9].handler, skills::SkillsHandler::ListAvailable);
}

#[test]
fn handler_parameter_checks() {
    assert_eq!(read_optional_u64("limit", None), Ok(None));
    assert_eq!(read_optional_u64("limit", Some(ParamValue::Null)), Ok(None));
    assert_eq!(read_optional_u64("limit", Some(ParamValue::Number(Some(7)))), Ok(Some(7)));
    assert_eq!(
        read_optional_u64("limit", Some(ParamValue::Number(None))),
        Err("invalid 'limit': expected unsigned integer".to_string())
    );
    assert_eq!(
        read_optional_u64("limit", Some(ParamValue::Text)),
        Err("invalid 'limit': expected unsigned integer, got string".to_string())
    );
    assert_eq!(missing_required("job_id"), "missing required param 'job_id'");
    assert_eq!(missing_param("skill_id"), "missing param 'skill_id'");
    assert_eq!(sanitize_filename("  notes.txt "), Ok("notes.txt".to_string()));
    assert_eq!(sanitize_filename("   "), Err("filename is required".to_string()));
    assert_eq!(sanitize_filename("../etc"), Err("invalid filename".to_string()));
    assert_eq!(sanitize_filename("a/b"), Err("invalid filename".to_string()));
    assert_eq!(sanitize_filename("a\\b"), Err("invalid filename".to_string()));
}
