use darktide_discord::activity::{client_config, initial_activity, APPLICATION_ID};
use darktide_discord::logging::LogLevel;
use darktide_discord::plugin::Plugin;
use darktide_discord::script::{op_result, op_script_name, script_module_plan, OpName};

fn plugin(tag: &str) -> Plugin {
    Plugin { tag: tag.to_string(), log_initial_failure: false }
}

#[test]
fn lifecycle_never_fails() {
    let (p, _activity) = Plugin::new("DarktideDiscord".to_string(), false, Ok(())).unwrap();
    let setup = p.setup_game();
    assert_eq!(setup.log.level, LogLevel::Info);
    assert_eq!(setup.log.text, "[setup_game] Initialising");
    for _ in 0..100 {
        assert!(p.update_game(&Ok(())).is_none());
    }
    let line = p.shutdown_game();
    assert_eq!(line.level, LogLevel::Info);
    assert_eq!(line.text, "[shutdown_game] Shutting down");
}

#[test]
fn setup_registers_six_ops_and_the_version_constant() {
    let p = plugin("Tag");
    let setup = p.setup_game();
    assert_eq!(setup.plan.module, "DarktideDiscord");
    assert_eq!(setup.plan.constant_name, "VERSION");
    assert_eq!(setup.plan.version_tenths, 20);
    assert_eq!(setup.plan.version_tenths as f64 / 10.0, 2.0);
    let names: Vec<String> = setup.plan.ops.iter().map(|op| op_script_name(*op)).collect();
    assert_eq!(
        names,
        vec![
            "set_state",
            "set_details",
            "set_class",
            "set_party_size",
            "set_start_time",
            "update"
        ]
    );
}

#[test]
fn every_operation_reports_success() {
    let ops = [
        OpName::SetState,
        OpName::SetDetails,
        OpName::SetClass,
        OpName::SetPartySize,
        OpName::SetStartTime,
        OpName::Update,
    ];
    for op in ops {
        assert_eq!(op_result(op), 0);
    }
}

#[test]
fn update_swallows_failures_with_one_error_line() {
    let p = plugin("Tag");
    assert!(p.update_game(&Ok(())).is_none());
    let line = p.update_game(&Err("connection reset".to_string())).unwrap();
    assert_eq!(line.level, LogLevel::Error);
    assert_eq!(line.tag, "Tag");
    assert_eq!(line.text, "[update_game] connection reset");
}

#[test]
fn construction_failure_is_fatal() {
    let r = Plugin::new("Tag".to_string(), false, Err("invalid application id".to_string()));
    assert_eq!(r.err().unwrap(), "invalid application id");
}

#[test]
fn shutdown_is_idempotent_and_history_independent() {
    let p = plugin("Tag");
    let after_nothing = p.shutdown_game();
    p.setup_game();
    p.update_game(&Err("boom".to_string()));
    p.update_game(&Ok(()));
    let after_history = p.shutdown_game();
    let again = p.shutdown_game();
    for line in [&after_nothing, &after_history, &again] {
        assert_eq!(line.level, LogLevel::Info);
        assert_eq!(line.tag, "Tag");
        assert_eq!(line.text, "[shutdown_game] Shutting down");
    }
}

#[test]
fn session_trace_lists_the_logs_in_order() {
    let p = plugin("Tag");
    let ticks: Vec<Result<(), String>> =
        vec![Ok(()), Err("a".to_string()), Ok(()), Err("b".to_string())];
    let trace = p.run_session(&ticks);
    let texts: Vec<&str> = trace.logs.iter().map(|l| l.text.as_str()).collect();
    assert_eq!(
        texts,
        vec![
            "[setup_game] Initialising",
            "[update_game] a",
            "[update_game] b",
            "[shutdown_game] Shutting down"
        ]
    );
    let errors = trace.logs.iter().filter(|l| l.level == LogLevel::Error).count();
    assert_eq!(errors, 2);
    assert_eq!(trace.plan.ops.len(), 6);
}

#[test]
fn session_with_no_ticks_still_opens_and_closes() {
    let p = plugin("Tag");
    let trace = p.run_session(&Vec::new());
    assert_eq!(trace.logs.len(), 2);
    assert_eq!(trace.logs[0].level, LogLevel::Info);
    assert_eq!(trace.logs[1].text, "[shutdown_game] Shutting down");
}

#[test]
fn initial_update_reaction_is_quiet_by_default() {
    let p = plugin("Tag");
    assert!(p.activity_update_reaction(&Ok(())).is_none());
    assert!(p.activity_update_reaction(&Err("no connection".to_string())).is_none());
}

#[test]
fn initial_update_reaction_reports_when_configured() {
    let p = Plugin { tag: "Tag".to_string(), log_initial_failure: true };
    assert!(p.activity_update_reaction(&Ok(())).is_none());
    let line = p.activity_update_reaction(&Err("no connection".to_string())).unwrap();
    assert_eq!(line.level, LogLevel::Info);
    assert_eq!(line.text, "failed to update activity: no connection");
}

#[test]
fn client_config_is_fixed() {
    let c = client_config();
    assert_eq!(c.application_id, 1111429477055090698);
    assert_eq!(c.application_id, APPLICATION_ID);
    assert!(!c.require_companion);
}

#[test]
fn initial_activity_carries_the_image_key_and_start_time() {
    let a = initial_activity(1700000000);
    assert_eq!(a.large_image_key, "darktide");
    assert_eq!(a.start_time, 1700000000);
}

#[test]
fn new_stamps_the_activity_with_the_current_time() {
    let before = chrono::Utc::now().timestamp();
    let (_p, activity) = Plugin::new("Tag".to_string(), false, Ok(())).unwrap();
    let after = chrono::Utc::now().timestamp();
    assert_eq!(activity.large_image_key, "darktide");
    assert!(before <= activity.start_time && activity.start_time <= after);
}

#[test]
fn describe_names_the_plugin_api() {
    let p = plugin("Tag");
    assert_eq!(p.describe(), "PluginApi");
}
