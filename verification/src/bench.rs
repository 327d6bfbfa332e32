//! The built-in benchmark scenarios and the decisions the benchmark makes
//! about server state: which workflows are benchmark leftovers, whether a
//! workflow can be benchmarked, what a setup step gave back.
use vstd::prelude::*;
use serde_json::Value;
use crate::json::{as_str, contents, field, json_content, str_field_or, array_items, array_at, JsonValue};
use crate::strings::{push_str, str_eq};
use crate::view::{str_at, str_or};

verus! {

/// The built-in benchmark scenarios.
#[derive(Debug, Clone, Copy, PartialEq, Eq)]
pub enum Scenario {
    /// Single log task: baseline pipeline overhead.
    Simple,
    /// Four-task e-commerce workflow: condition and enrichment.
    Complex,
    /// Twelve workflows on one channel: fan-out and rule evaluation.
    Multi,
    /// Every scenario, one after the other.
    All,
}

/// One scenario's setup: its name, description, the fixture file holding
/// its workflow definition (a list of definitions when `is_import`), the
/// channel data is sent to, and the fixture file holding the payload.
#[derive(Debug, Clone, Copy, PartialEq, Eq)]
pub struct ScenarioConfig {
    pub name: &'static str,
    pub description: &'static str,
    pub workflow_fixture: &'static str,
    pub is_import: bool,
    pub channel: &'static str,
    pub payload_fixture: &'static str,
}

/// The content of a scenario's setup.
pub struct ScenarioView {
    pub name: Seq<char>,
    pub description: Seq<char>,
    pub workflow_fixture: Seq<char>,
    pub is_import: bool,
    pub channel: Seq<char>,
    pub payload_fixture: Seq<char>,
}

/// The content of a scenario's setup.
pub open spec fn config_view(c: ScenarioConfig) -> ScenarioView {
    ScenarioView {
        name: c.name@,
        description: c.description@,
        workflow_fixture: c.workflow_fixture@,
        is_import: c.is_import,
        channel: c.channel@,
        payload_fixture: c.payload_fixture@,
    }
}

/// The simple scenario.
pub open spec fn simple_view() -> ScenarioView {
    ScenarioView {
        name: "simple"@,
        description: "Simple workflow (1 log task)"@,
        workflow_fixture: "bench_simple_log.json"@,
        is_import: false,
        channel: "bench"@,
        payload_fixture: "simple_payload.json"@,
    }
}

/// The complex scenario.
pub open spec fn complex_view() -> ScenarioView {
    ScenarioView {
        name: "complex"@,
        description: "Complex workflow (4 tasks)"@,
        workflow_fixture: "bench_complex_ecommerce.json"@,
        is_import: false,
        channel: "orders"@,
        payload_fixture: "complex_payload.json"@,
    }
}

/// The multi-workflow scenario.
pub open spec fn multi_view() -> ScenarioView {
    ScenarioView {
        name: "multi"@,
        description: "Multi-workflow channel (12 workflows)"@,
        workflow_fixture: "bench_multi_rules.json"@,
        is_import: true,
        channel: "bench"@,
        payload_fixture: "simple_payload.json"@,
    }
}

/// The scenarios a choice runs, in order.
pub open spec fn scenarios_spec(s: Scenario) -> Seq<ScenarioView> {
    match s {
        Scenario::Simple => seq![simple_view()],
        Scenario::Complex => seq![complex_view()],
        Scenario::Multi => seq![multi_view()],
        Scenario::All => seq![simple_view(), complex_view(), multi_view()],
    }
}

fn simple_config() -> (c: ScenarioConfig)
    ensures
        config_view(c) == simple_view(),
{
    ScenarioConfig {
        name: "simple",
        description: "Simple workflow (1 log task)",
        workflow_fixture: "bench_simple_log.json",
        is_import: false,
        channel: "bench",
        payload_fixture: "simple_payload.json",
    }
}

fn complex_config() -> (c: ScenarioConfig)
    ensures
        config_view(c) == complex_view(),
{
    ScenarioConfig {
        name: "complex",
        description: "Complex workflow (4 tasks)",
        workflow_fixture: "bench_complex_ecommerce.json",
        is_import: false,
        channel: "orders",
        payload_fixture: "complex_payload.json",
    }
}

fn multi_config() -> (c: ScenarioConfig)
    ensures
        config_view(c) == multi_view(),
{
    ScenarioConfig {
        name: "multi",
        description: "Multi-workflow channel (12 workflows)",
        workflow_fixture: "bench_multi_rules.json",
        is_import: true,
        channel: "bench",
        payload_fixture: "simple_payload.json",
    }
}

/// The scenarios a choice runs, in order.
pub fn get_scenarios(scenario: &Scenario) -> (v: Vec<ScenarioConfig>)
    ensures
        v@.map_values(|c: ScenarioConfig| config_view(c)) == scenarios_spec(*scenario),
{
    let v = match scenario {
        Scenario::Simple => vec![simple_config()],
        Scenario::Complex => vec![complex_config()],
        Scenario::Multi => vec![multi_config()],
        Scenario::All => vec![simple_config(), complex_config(), multi_config()],
    };
    assert(v@.map_values(|c: ScenarioConfig| config_view(c)) =~= scenarios_spec(*scenario));
    v
}

/// Whether `s` starts with `prefix`.
pub open spec fn starts_with(s: Seq<char>, prefix: Seq<char>) -> bool {
    prefix.len() <= s.len() && s.subrange(0, prefix.len() as int) == prefix
}

fn str_starts_with(s: &str, prefix: &str) -> (b: bool)
    ensures
        b == starts_with(s@, prefix@),
{
    let n = prefix.unicode_len();
    if n > s.unicode_len() {
        return false;
    }
    let mut i: usize = 0;
    while i < n
        invariant
            n == prefix@.len(),
            n <= s@.len(),
            i <= n,
            forall|j: int| 0 <= j < i ==> s@[j] == prefix@[j],
        decreases n - i,
    {
        if s.get_char(i) != prefix.get_char(i) {
            assert(s@.subrange(0, n as int)[i as int] != prefix@[i as int]);
            return false;
        }
        i = i + 1;
    }
    assert(s@.subrange(0, n as int) =~= prefix@);
    true
}

/// Whether a workflow name is one the benchmark creates.
pub open spec fn is_bench_name(name: Seq<char>) -> bool {
    starts_with(name, "Bench "@) || starts_with(name, "Multi Rule "@)
}

/// Whether a workflow name is one the benchmark creates ("Bench ..." or
/// "Multi Rule ...").
pub fn is_bench_workflow_name(name: &str) -> (b: bool)
    ensures
        b == is_bench_name(name@),
{
    str_starts_with(name, "Bench ") || str_starts_with(name, "Multi Rule ")
}

/// The (name, id) of each listed workflow that the benchmark created and
/// that has a string id, in list order.
pub open spec fn leftover_targets(items: Seq<JsonValue>) -> Seq<(Seq<char>, Seq<char>)>
    decreases items.len(),
{
    if items.len() == 0 {
        Seq::empty()
    } else {
        let prev = leftover_targets(items.drop_last());
        let w = items.last();
        let name = str_or(w, "name"@, ""@);
        match str_at(w, "workflow_id"@) {
            Some(id) => if is_bench_name(name) {
                prev.push((name, id))
            } else {
                prev
            },
            None => prev,
        }
    }
}

/// The benchmark workflows left on the server, from a workflow list
/// response: (name, id) pairs to delete.
pub fn leftover_workflows(resp: &Value) -> (targets: Vec<(String, String)>)
    ensures
        targets@.map_values(|t: (String, String)| (t.0@, t.1@)) == leftover_targets(
            array_at(json_content(*resp), "data"@),
        ),
{
    let items = array_items(resp, "data");
    let ghost s = contents(items@);
    let mut targets: Vec<(String, String)> = Vec::new();
    let mut i: usize = 0;
    while i < items.len()
        invariant
            i <= items.len(),
            s == contents(items@),
            targets@.map_values(|t: (String, String)| (t.0@, t.1@)) == leftover_targets(s.take(i as int)),
        decreases items.len() - i,
    {
        proof {
            assert(s.take(i + 1).drop_last() =~= s.take(i as int));
            assert(s.take(i + 1).last() == json_content(items@[i as int]));
            reveal_strlit("");
        }
        let w = &items[i];
        let name = str_field_or(w, "name", "");
        let ghost before = targets@;
        match as_str(field(w, "workflow_id")) {
            Some(id) => {
                if is_bench_workflow_name(name) {
                    targets.push((name.to_owned(), id.to_owned()));
                    assert(targets@.map_values(|t: (String, String)| (t.0@, t.1@)) =~= before.map_values(
                        |t: (String, String)| (t.0@, t.1@),
                    ).push((name@, id@)));
                }
            },
            None => {},
        }
        i = i + 1;
    }
    assert(s.take(s.len() as int) =~= s);
    targets
}

/// The message when a workflow cannot be benchmarked because it is not
/// active.
pub open spec fn not_active_message(id: Seq<char>, status: Seq<char>) -> Seq<char> {
    "Workflow '"@ + id + "' is not active (status: "@ + status + "). Activate it first."@
}

/// Checks that a workflow to be benchmarked is active, from its `get`
/// response.
pub fn check_workflow_active(resp: &Value, workflow_id: &str) -> (res: Result<(), String>)
    ensures
        ({
            let status = str_or(crate::json::field_or_null(json_content(*resp), "data"@), "status"@, "unknown"@);
            if status == "active"@ {
                res is Ok
            } else {
                res is Err && res->Err_0@ == not_active_message(workflow_id@, status)
            }
        }),
{
    let status = str_field_or(field(resp, "data"), "status", "unknown");
    if str_eq(status, "active") {
        Ok(())
    } else {
        let mut m = String::from_str("Workflow '");
        push_str(&mut m, workflow_id);
        push_str(&mut m, "' is not active (status: ");
        push_str(&mut m, status);
        push_str(&mut m, "). Activate it first.");
        Err(m)
    }
}

/// The id of a workflow the benchmark created, from the create response.
pub fn created_workflow_id(resp: &Value) -> (res: Result<String, String>)
    ensures
        match str_at(crate::json::field_or_null(json_content(*resp), "data"@), "workflow_id"@) {
            Some(id) => res is Ok && res->Ok_0@ == id,
            None => res is Err && res->Err_0@ == "No workflow_id in response"@,
        },
{
    match as_str(field(field(resp, "data"), "workflow_id")) {
        Some(id) => Ok(id.to_owned()),
        None => Err(String::from_str("No workflow_id in response")),
    }
}

/// The ids of the listed workflows that have one, in order.
pub open spec fn ids_of(items: Seq<JsonValue>) -> Seq<Seq<char>>
    decreases items.len(),
{
    if items.len() == 0 {
        Seq::empty()
    } else {
        let prev = ids_of(items.drop_last());
        match str_at(items.last(), "workflow_id"@) {
            Some(id) => prev.push(id),
            None => prev,
        }
    }
}

/// The ids of the workflows in a list response (the drafts an import
/// created, which the benchmark then activates).
pub fn listed_workflow_ids(resp: &Value) -> (ids: Vec<String>)
    ensures
        ids@.map_values(|s: String| s@) == ids_of(array_at(json_content(*resp), "data"@)),
{
    let items = array_items(resp, "data");
    let ghost s = contents(items@);
    let mut ids: Vec<String> = Vec::new();
    let mut i: usize = 0;
    while i < items.len()
        invariant
            i <= items.len(),
            s == contents(items@),
            ids@.map_values(|s: String| s@) == ids_of(s.take(i as int)),
        decreases items.len() - i,
    {
        proof {
            assert(s.take(i + 1).drop_last() =~= s.take(i as int));
            assert(s.take(i + 1).last() == json_content(items@[i as int]));
        }
        let ghost before = ids@;
        match as_str(field(&items[i], "workflow_id")) {
            Some(id) => {
                ids.push(id.to_owned());
                assert(ids@.map_values(|s: String| s@) =~= before.map_values(|s: String| s@).push(id@));
            },
            None => {},
        }
        i = i + 1;
    }
    assert(s.take(s.len() as int) =~= s);
    ids
}

/// What waiting for the server after a reload does next.
#[derive(Debug, Clone, Copy, PartialEq, Eq)]
pub enum ReadyStep {
    /// The server reported "ok".
    Ready,
    /// Wait half a second and check again.
    Retry,
    /// The check failed and the time is up: fail with the check's error.
    CheckFailed,
    /// The server answered but was not ready in time.
    TimedOut,
}

/// How long the benchmark waits for the server after a reload, in
/// milliseconds.
pub const READY_TIMEOUT_MS: u64 = 15000;

/// Decides the next step while waiting for the server after a reload:
/// `health` is the status of the health response, or `None` when the check
/// failed; `elapsed_ms` is the time since waiting began.
pub fn ready_step(health: Option<&str>, elapsed_ms: u64) -> (step: ReadyStep)
    ensures
        step == match health {
            Some(s) => if s@ == "ok"@ {
                ReadyStep::Ready
            } else if elapsed_ms >= READY_TIMEOUT_MS {
                ReadyStep::TimedOut
            } else {
                ReadyStep::Retry
            },
            None => if elapsed_ms < READY_TIMEOUT_MS {
                ReadyStep::Retry
            } else {
                ReadyStep::CheckFailed
            },
        },
{
    match health {
        Some(s) => {
            if str_eq(s, "ok") {
                ReadyStep::Ready
            } else if elapsed_ms >= READY_TIMEOUT_MS {
                ReadyStep::TimedOut
            } else {
                ReadyStep::Retry
            }
        },
        None => {
            if elapsed_ms < READY_TIMEOUT_MS {
                ReadyStep::Retry
            } else {
                ReadyStep::CheckFailed
            }
        },
    }
}

/// The arguments `benchmark --workflow` needs: a channel and a payload
/// source. Returns the channel, or the message the command fails with.
pub fn user_workflow_channel<'a>(channel: Option<&'a str>, has_data: bool, has_file: bool) -> (res: Result<&'a str, String>)
    ensures
        match channel {
            None => res is Err && res->Err_0@ == "--workflow requires --channel <name>"@,
            Some(c) => if !has_data && !has_file {
                res is Err && res->Err_0@ == "--workflow requires a data payload via -d or -f"@
            } else {
                res is Ok && res->Ok_0@ == c@
            },
        },
{
    match channel {
        None => Err(String::from_str("--workflow requires --channel <name>")),
        Some(c) => {
            if !has_data && !has_file {
                Err(String::from_str("--workflow requires a data payload via -d or -f"))
            } else {
                Ok(c)
            }
        },
    }
}

/// Where a run of the built-in scenarios stands.
#[derive(Debug, Clone, Copy, PartialEq, Eq, Structural)]
pub enum BenchPhase {
    /// Creating the scenarios' workflows and channels.
    Setup,
    /// Running scenario `i` (in the order the scenarios were created).
    Running(usize),
    /// Removing the resources that were created.
    Removing,
    /// Setup failed: removing every benchmark resource on the server.
    CleaningUp,
    /// Nothing is left to do.
    Finished,
}

/// What happened since the last step.
#[derive(Debug, Clone, Copy, PartialEq, Eq, Structural)]
pub enum BenchEvent {
    /// Every scenario's resources were created.
    SetupSucceeded,
    /// Creating the resources failed.
    SetupFailed,
    /// The running scenario ended, with a report or with an error (a failed
    /// scenario is skipped; the others still run).
    ScenarioEnded,
    /// The requested removal or clean-up is done.
    Removed,
}

/// What to do next.
#[derive(Debug, Clone, Copy, PartialEq, Eq, Structural)]
pub enum BenchAction {
    /// Create the resources of all scenarios.
    CreateResources,
    /// Run scenario `i`.
    RunScenario(usize),
    /// Remove the resources that were created.
    RemoveResources,
    /// Remove every benchmark resource on the server (after a failed setup).
    CleanupAll,
    /// Stop with this exit code; with 0, print the reports first.
    Finish(i32),
}

/// The next phase and action of a run of `count` scenarios, given the
/// event and whether the run was interrupted: after setup the scenarios
/// run in order while not interrupted, then what was created is removed
/// and the reports are printed (exit code 0); a failed setup cleans up
/// everything and exits with 1. An event that does not belong to the phase
/// changes nothing and asks for nothing new.
pub open spec fn bench_next(phase: BenchPhase, count: usize, event: BenchEvent, cancelled: bool) -> (BenchPhase, BenchAction) {
    match (phase, event) {
        (BenchPhase::Setup, BenchEvent::SetupSucceeded) => if count > 0 && !cancelled {
            (BenchPhase::Running(0), BenchAction::RunScenario(0))
        } else {
            (BenchPhase::Removing, BenchAction::RemoveResources)
        },
        (BenchPhase::Setup, BenchEvent::SetupFailed) => (BenchPhase::CleaningUp, BenchAction::CleanupAll),
        (BenchPhase::Running(i), BenchEvent::ScenarioEnded) => if i + 1 < count && !cancelled {
            (BenchPhase::Running((i + 1) as usize), BenchAction::RunScenario((i + 1) as usize))
        } else {
            (BenchPhase::Removing, BenchAction::RemoveResources)
        },
        (BenchPhase::Removing, BenchEvent::Removed) => (BenchPhase::Finished, BenchAction::Finish(0)),
        (BenchPhase::CleaningUp, BenchEvent::Removed) => (BenchPhase::Finished, BenchAction::Finish(1)),
        (BenchPhase::Finished, _) => (BenchPhase::Finished, BenchAction::Finish(0)),
        _ => (phase, BenchAction::Finish(1)),
    }
}

/// The first step of a run of the built-in scenarios: create the resources.
pub fn bench_start() -> (res: (BenchPhase, BenchAction))
    ensures
        res == (BenchPhase::Setup, BenchAction::CreateResources),
{
    (BenchPhase::Setup, BenchAction::CreateResources)
}

/// One step of a run of `count` built-in scenarios (see `bench_next`).
pub fn bench_step(phase: BenchPhase, count: usize, event: BenchEvent, cancelled: bool) -> (res: (BenchPhase, BenchAction))
    requires
        phase matches BenchPhase::Running(i) ==> i < count,
    ensures
        res == bench_next(phase, count, event, cancelled),
        res.0 matches BenchPhase::Running(j) ==> j < count,
{
    match (phase, event) {
        (BenchPhase::Setup, BenchEvent::SetupSucceeded) => if count > 0 && !cancelled {
            (BenchPhase::Running(0), BenchAction::RunScenario(0))
        } else {
            (BenchPhase::Removing, BenchAction::RemoveResources)
        },
        (BenchPhase::Setup, BenchEvent::SetupFailed) => (BenchPhase::CleaningUp, BenchAction::CleanupAll),
        (BenchPhase::Running(i), BenchEvent::ScenarioEnded) => if i + 1 < count && !cancelled {
            (BenchPhase::Running(i + 1), BenchAction::RunScenario(i + 1))
        } else {
            (BenchPhase::Removing, BenchAction::RemoveResources)
        },
        (BenchPhase::Removing, BenchEvent::Removed) => (BenchPhase::Finished, BenchAction::Finish(0)),
        (BenchPhase::CleaningUp, BenchEvent::Removed) => (BenchPhase::Finished, BenchAction::Finish(1)),
        (BenchPhase::Finished, _) => (BenchPhase::Finished, BenchAction::Finish(0)),
        _ => (phase, BenchAction::Finish(1)),
    }
}

/// What a run of the built-in scenarios promises, step by step: once set up,
/// it never finishes without first removing what it created; a scenario
/// ending leads to the next one or to the removal; the only way to exit
/// with 1 after setup started is a failed setup followed by a clean-up.
pub proof fn law_bench_cleans_up(phase: BenchPhase, count: usize, event: BenchEvent, cancelled: bool)
    requires
        phase matches BenchPhase::Running(i) ==> i < count,
    ensures
        ({
            let (next, action) = bench_next(phase, count, event, cancelled);
            &&& phase is Running && event is ScenarioEnded ==> (action == BenchAction::RemoveResources
                || action == BenchAction::RunScenario((phase->0 + 1) as usize))
            &&& action == BenchAction::Finish(0) && !(phase is Finished) ==> phase is Removing
            &&& next is Finished && phase is CleaningUp ==> action == BenchAction::Finish(1)
            &&& cancelled && action is RunScenario ==> false
        }),
{
}

} // verus!
