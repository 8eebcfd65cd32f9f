use rtx_doctor::checks::evaluate;
use rtx_doctor::config::ConfigSnapshot;
use rtx_doctor::config::EnvVarEntry;
use rtx_doctor::config::PluginStatus;
use rtx_doctor::doctor::Doctor;
use rtx_doctor::doctor::DoctorOutcome;
use rtx_doctor::report::render;

fn plugin(name: &str, installed: bool) -> PluginStatus {
    PluginStatus { name: name.to_string(), installed }
}

fn snapshot(plugins: Vec<PluginStatus>, activated: bool) -> ConfigSnapshot {
    ConfigSnapshot { plugins, activated, summary: "config summary".to_string() }
}

fn entry(key: &str, value: &str) -> EnvVarEntry {
    EnvVarEntry { key: key.to_string(), value: value.to_string() }
}

fn failure_message(outcome: &DoctorOutcome) -> String {
    match outcome {
        DoctorOutcome::Success => panic!("expected a failure outcome"),
        DoctorOutcome::Failure(message) => message.clone(),
    }
}

#[test]
fn test_doctor() {
    let snapshot = snapshot(vec![], true);
    let _ = Doctor {}.run(&snapshot, &vec![], &None, "1.0.0");
}

#[test]
fn test_healthy_snapshot_succeeds() {
    let snapshot = snapshot(vec![plugin("node", true)], true);
    let report = Doctor {}.run(&snapshot, &vec![], &None, "1.0.0");
    assert!(matches!(report.outcome, DoctorOutcome::Success));
    assert!(report.errors.is_empty());
    assert!(report.warnings.is_empty());
    assert!(report.output.ends_with("No problems found\n"));
    assert_eq!(
        report.output,
        "config summary\n\nrtx environment variables:\n\n\nNo problems found\n"
    );
}

#[test]
fn test_missing_plugin_fails() {
    let snapshot = snapshot(vec![plugin("node", false), plugin("python", true)], true);
    let problems = evaluate(&snapshot);
    assert_eq!(problems.len(), 1);
    assert_eq!(problems[0].message, "plugin node is not installed");
    let report = Doctor {}.run(&snapshot, &vec![], &None, "1.0.0");
    assert_eq!(report.errors, vec!["plugin node is not installed".to_string()]);
    assert_eq!(failure_message(&report.outcome), "1 problems found");
    assert!(!report.output.contains("No problems found"));
}

#[test]
fn test_not_activated_fails() {
    let snapshot = snapshot(vec![], false);
    let problems = evaluate(&snapshot);
    assert_eq!(problems.len(), 1);
    assert_eq!(
        problems[0].message,
        "rtx is not activated, run `rtx help activate` for setup instructions"
    );
    let report = Doctor {}.run(&snapshot, &vec![], &None, "1.0.0");
    assert_eq!(
        report.errors,
        vec!["rtx is not activated, run `rtx help activate` for setup instructions".to_string()]
    );
    assert_eq!(failure_message(&report.outcome), "1 problems found");
}

#[test]
fn test_unactivated_counts_plugins() {
    let snapshot = snapshot(
        vec![plugin("node", false), plugin("ruby", true), plugin("python", false)],
        false,
    );
    let report = Doctor {}.run(&snapshot, &vec![], &None, "1.0.0");
    assert_eq!(report.errors.len(), 3);
    assert_eq!(failure_message(&report.outcome), "3 problems found");
}

#[test]
fn test_problems_keep_evaluation_order() {
    let snapshot = snapshot(vec![plugin("node", false), plugin("python", false)], false);
    let problems = evaluate(&snapshot);
    let messages: Vec<String> = problems.into_iter().map(|p| p.message).collect();
    assert_eq!(
        messages,
        vec![
            "plugin node is not installed".to_string(),
            "plugin python is not installed".to_string(),
            "rtx is not activated, run `rtx help activate` for setup instructions".to_string(),
        ]
    );
}

#[test]
fn test_evaluate_idempotent() {
    let snapshot = snapshot(vec![plugin("node", false), plugin("python", true)], false);
    let first: Vec<String> = evaluate(&snapshot).into_iter().map(|p| p.message).collect();
    let second: Vec<String> = evaluate(&snapshot).into_iter().map(|p| p.message).collect();
    assert_eq!(first, second);
}

#[test]
fn test_env_render_filters_prefix() {
    let vars = vec![entry("RTX_X", "1"), entry("PATH", "/bin"), entry("RTX_Y", "2")];
    let block = render("RTX_", &vars);
    assert_eq!(block, "rtx environment variables:\nRTX_X=1\nRTX_Y=2\n");
}

#[test]
fn test_env_render_keeps_order_and_duplicates() {
    let vars = vec![
        entry("RTX_B", "2"),
        entry("RTX_A", "1"),
        entry("RTX_B", "3"),
        entry("rtx_lower", "x"),
    ];
    let block = render("RTX_", &vars);
    assert_eq!(block, "rtx environment variables:\nRTX_B=2\nRTX_A=1\nRTX_B=3\n");
}

#[test]
fn test_version_check_is_advisory() {
    let snapshot = snapshot(vec![plugin("node", false)], true);
    let vars = vec![entry("RTX_X", "1")];
    let with_version = Doctor {}.run(&snapshot, &vars, &Some("9.9.9".to_string()), "1.2.3");
    let without = Doctor {}.run(&snapshot, &vars, &None, "1.2.3");
    assert_eq!(
        with_version.warnings,
        vec!["new rtx version 9.9.9 available, currently on 1.2.3".to_string()]
    );
    assert!(without.warnings.is_empty());
    assert_eq!(with_version.output, without.output);
    assert_eq!(with_version.errors, without.errors);
    assert_eq!(
        failure_message(&with_version.outcome),
        failure_message(&without.outcome)
    );
}

#[test]
fn test_failure_count_multi_digit() {
    let mut plugins = Vec::new();
    for i in 0..12 {
        plugins.push(plugin(&format!("plugin{}", i), false));
    }
    let snapshot = snapshot(plugins, true);
    let report = Doctor {}.run(&snapshot, &vec![], &None, "1.0.0");
    assert_eq!(report.errors.len(), 12);
    assert_eq!(failure_message(&report.outcome), "12 problems found");
}

#[test]
fn test_output_block_layout() {
    let snapshot = snapshot(vec![plugin("node", false)], true);
    let vars = vec![entry("RTX_X", "1")];
    let report = Doctor {}.run(&snapshot, &vars, &None, "1.0.0");
    assert_eq!(
        report.output,
        "config summary\n\nrtx environment variables:\nRTX_X=1\n\n\n"
    );
}
