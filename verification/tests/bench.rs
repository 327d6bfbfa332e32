use orion_cli::bench::{bench_start, bench_step, BenchAction, BenchEvent, BenchPhase};
use orion_cli::bench::{
    check_workflow_active, created_workflow_id, get_scenarios, is_bench_workflow_name,
    leftover_workflows, listed_workflow_ids, ready_step, user_workflow_channel, ReadyStep, Scenario,
    READY_TIMEOUT_MS,
};

fn json(s: &str) -> serde_json::Value {
    serde_json::from_str(s).unwrap()
}

#[test]
fn scenario_lists() {
    let all = get_scenarios(&Scenario::All);
    let names: Vec<&str> = all.iter().map(|c| c.name).collect();
    assert_eq!(names, vec!["simple", "complex", "multi"]);
    assert!(all[2].is_import);
    assert_eq!(all[1].channel, "orders");
    assert_eq!(get_scenarios(&Scenario::Multi)[0].description, "Multi-workflow channel (12 workflows)");
    assert_eq!(get_scenarios(&Scenario::Simple).len(), 1);
}

#[test]
fn bench_names() {
    assert!(is_bench_workflow_name("Bench simple log"));
    assert!(is_bench_workflow_name("Multi Rule 7"));
    assert!(!is_bench_workflow_name("Bench"));
    assert!(!is_bench_workflow_name("My Bench workflow"));
}

#[test]
fn leftovers_and_ids() {
    let resp = json(
        r#"{"data":[{"name":"Bench a","workflow_id":"1"},{"name":"Orders","workflow_id":"2"},
        {"name":"Multi Rule 3"},{"name":"Multi Rule 4","workflow_id":"4"}]}"#,
    );
    assert_eq!(
        leftover_workflows(&resp),
        vec![("Bench a".to_string(), "1".to_string()), ("Multi Rule 4".to_string(), "4".to_string())]
    );
    assert_eq!(listed_workflow_ids(&resp), vec!["1", "2", "4"]);
}

#[test]
fn workflow_checks() {
    assert!(check_workflow_active(&json(r#"{"data":{"status":"active"}}"#), "w").is_ok());
    assert_eq!(
        check_workflow_active(&json(r#"{"data":{}}"#), "w").unwrap_err(),
        "Workflow 'w' is not active (status: unknown). Activate it first."
    );
    assert_eq!(created_workflow_id(&json(r#"{"data":{"workflow_id":"abc"}}"#)).unwrap(), "abc");
    assert_eq!(created_workflow_id(&json("{}")).unwrap_err(), "No workflow_id in response");
}

#[test]
fn readiness_steps() {
    assert_eq!(ready_step(Some("ok"), 0), ReadyStep::Ready);
    assert_eq!(ready_step(Some("starting"), 100), ReadyStep::Retry);
    assert_eq!(ready_step(Some("starting"), READY_TIMEOUT_MS), ReadyStep::TimedOut);
    assert_eq!(ready_step(None, 100), ReadyStep::Retry);
    assert_eq!(ready_step(None, READY_TIMEOUT_MS), ReadyStep::CheckFailed);
}

#[test]
fn user_workflow_arguments() {
    assert_eq!(user_workflow_channel(None, true, false).unwrap_err(), "--workflow requires --channel <name>");
    assert_eq!(
        user_workflow_channel(Some("c"), false, false).unwrap_err(),
        "--workflow requires a data payload via -d or -f"
    );
    assert_eq!(user_workflow_channel(Some("c"), false, true).unwrap(), "c");
}

#[test]
fn builtin_scenario_steps() {
    let (p, a) = bench_start();
    assert_eq!((p, a), (BenchPhase::Setup, BenchAction::CreateResources));
    let (p, a) = bench_step(p, 2, BenchEvent::SetupSucceeded, false);
    assert_eq!((p, a), (BenchPhase::Running(0), BenchAction::RunScenario(0)));
    let (p, a) = bench_step(p, 2, BenchEvent::ScenarioEnded, false);
    assert_eq!((p, a), (BenchPhase::Running(1), BenchAction::RunScenario(1)));
    let (p, a) = bench_step(p, 2, BenchEvent::ScenarioEnded, false);
    assert_eq!((p, a), (BenchPhase::Removing, BenchAction::RemoveResources));
    let (p, a) = bench_step(p, 2, BenchEvent::Removed, false);
    assert_eq!((p, a), (BenchPhase::Finished, BenchAction::Finish(0)));
    let (p, a) = bench_step(BenchPhase::Setup, 2, BenchEvent::SetupFailed, false);
    assert_eq!((p, a), (BenchPhase::CleaningUp, BenchAction::CleanupAll));
    assert_eq!(bench_step(p, 2, BenchEvent::Removed, false), (BenchPhase::Finished, BenchAction::Finish(1)));
    assert_eq!(
        bench_step(BenchPhase::Running(0), 3, BenchEvent::ScenarioEnded, true),
        (BenchPhase::Removing, BenchAction::RemoveResources)
    );
}
