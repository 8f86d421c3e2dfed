use contract_runner::call::{Argument, CallDescriptor};
use contract_runner::outcome::{Criterion, Failure, Outcome, Response};
use contract_runner::runner::{Action, Event, Fatal, Mode, Phase, RunResult, Runner};

fn arg(key: &str, value: &str) -> Argument {
    Argument::new(key.to_string(), value.to_string())
}

fn call(name: &str, args: Vec<Argument>) -> CallDescriptor {
    CallDescriptor::standard(name.to_string(), args)
}

fn ok(payload: &[u8]) -> Event {
    Event::CallDone { response: Response::Returned { payload: payload.to_vec(), logs: Vec::new() } }
}

fn failed(error: &str) -> Event {
    Event::CallDone { response: Response::Failed { error: error.to_string() } }
}

/// Feeds the setup events and returns the actions that came back.
fn deploy(runner: &mut Runner, artifact: &[u8]) -> Vec<Action> {
    vec![
        runner.step(Event::Start),
        runner.step(Event::Provisioned),
        runner.step(Event::ArtifactRead { bytes: artifact.to_vec() }),
        runner.step(Event::Deployed),
    ]
}

fn count_deploys(actions: &[Action]) -> usize {
    actions.iter().filter(|a| matches!(a, Action::Deploy { .. })).count()
}

fn issued(actions: &[Action]) -> Vec<usize> {
    let mut indexes = Vec::new();
    for action in actions {
        if let Action::Issue { index } = action {
            indexes.push(*index);
        }
    }
    indexes
}

#[test]
fn init_contract_succeeds_without_payload() {
    let mut runner =
        Runner::new(Mode::CollectAll, Criterion::Completion, vec![call("InitContract", Vec::new())]);
    let descriptor = runner.call(0).unwrap().clone();
    assert_eq!(descriptor.function_name, "InitContract");
    assert!(descriptor.args.is_empty());
    assert_eq!(descriptor.deposit, 3_000_000_000_000_000_000_000_000u128);
    assert_eq!(descriptor.gas, 300_000_000_000_000u64);
    let setup = deploy(&mut runner, b"\0asm");
    assert_eq!(
        setup,
        vec![
            Action::Provision,
            Action::ReadArtifact,
            Action::Deploy { artifact: b"\0asm".to_vec() },
            Action::Issue { index: 0 },
        ]
    );
    assert_eq!(runner.step(ok(b"")), Action::Report);
    assert_eq!(runner.outcomes(), &vec![Outcome::Success { payload: Vec::new(), logs: Vec::new() }]);
    assert!(runner.is_done());
    assert!(runner.exits_successfully());
    assert_eq!(runner.report(), vec!["InitContract result: Test succeeded".to_string()]);
}

#[test]
fn write_then_read_returns_the_written_value() {
    let calls = vec![
        call("WriteData", vec![arg("key", "testKey"), arg("data", "testData")]),
        call("ReadData", vec![arg("key", "testKey")]),
    ];
    let mut runner = Runner::new(Mode::CollectAll, Criterion::Completion, calls);
    deploy(&mut runner, b"\0asm");
    assert_eq!(runner.call(0).unwrap().function_name, "WriteData");
    assert_eq!(
        runner.call(0).unwrap().args,
        vec![arg("key", "testKey"), arg("data", "testData")]
    );
    assert_eq!(runner.step(ok(b"")), Action::Issue { index: 1 });
    assert_eq!(runner.call(1).unwrap().function_name, "ReadData");
    assert_eq!(runner.call(1).unwrap().args, vec![arg("key", "testKey")]);
    assert_eq!(runner.step(ok(b"\"testData\"")), Action::Report);
    assert!(runner.outcomes()[0].is_success());
    assert!(runner.outcomes()[1].is_success());
    let payload = runner.outcomes()[1].payload().unwrap();
    let value: String = serde_json::from_slice(payload).unwrap();
    assert_eq!(value, "testData");
}

#[test]
fn rejected_artifact_is_fatal_and_no_call_is_issued() {
    let calls = vec![call("InitContract", Vec::new()), call("ReadData", Vec::new())];
    let mut runner = Runner::new(Mode::CollectAll, Criterion::Completion, calls);
    let mut actions = vec![
        runner.step(Event::Start),
        runner.step(Event::Provisioned),
        runner.step(Event::ArtifactRead { bytes: Vec::new() }),
        runner.step(Event::DeployRejected { error: "cannot compile".to_string() }),
    ];
    assert_eq!(actions[2], Action::Deploy { artifact: Vec::new() });
    assert_eq!(actions[3], Action::Abort);
    assert_eq!(runner.fatal(), &Some(Fatal::Deployment { error: "cannot compile".to_string() }));
    assert!(runner.is_done());
    assert!(!runner.exits_successfully());
    actions.push(runner.step(Event::Deployed));
    actions.push(runner.step(ok(b"1")));
    actions.push(runner.step(Event::Start));
    assert_eq!(issued(&actions), Vec::<usize>::new());
    assert!(runner.outcomes().is_empty());
    assert!(runner.report().is_empty());
}

#[test]
fn provisioning_failure_is_fatal() {
    let mut runner = Runner::new(Mode::FailFast, Criterion::Flag, vec![call("A", Vec::new())]);
    assert_eq!(runner.step(Event::Start), Action::Provision);
    assert_eq!(runner.phase(), Phase::Provisioning);
    assert_eq!(
        runner.step(Event::ProvisionFailed { error: "no sandbox".to_string() }),
        Action::Abort
    );
    assert_eq!(runner.fatal(), &Some(Fatal::Provisioning { error: "no sandbox".to_string() }));
    assert_eq!(runner.phase(), Phase::Done);
    assert!(!runner.exits_successfully());
}

#[test]
fn missing_artifact_is_fatal() {
    let mut runner = Runner::new(Mode::FailFast, Criterion::Flag, vec![call("A", Vec::new())]);
    runner.step(Event::Start);
    assert_eq!(runner.step(Event::Provisioned), Action::ReadArtifact);
    assert_eq!(runner.phase(), Phase::Reading);
    assert_eq!(
        runner.step(Event::ArtifactMissing { error: "not found".to_string() }),
        Action::Abort
    );
    assert_eq!(runner.fatal(), &Some(Fatal::MissingArtifact { error: "not found".to_string() }));
    assert_eq!(runner.step(Event::Deployed), Action::Nothing);
}

#[test]
fn exactly_one_deploy_before_the_first_call() {
    let calls = vec![call("A", Vec::new()), call("B", Vec::new())];
    let mut runner = Runner::new(Mode::CollectAll, Criterion::Completion, calls);
    let mut actions = deploy(&mut runner, b"code");
    assert_eq!(count_deploys(&actions[..3]), 1);
    assert_eq!(actions[3], Action::Issue { index: 0 });
    actions.push(runner.step(Event::ArtifactRead { bytes: b"again".to_vec() }));
    actions.push(runner.step(Event::Deployed));
    actions.push(runner.step(ok(b"")));
    actions.push(runner.step(Event::ArtifactRead { bytes: b"again".to_vec() }));
    actions.push(runner.step(ok(b"")));
    assert_eq!(count_deploys(&actions), 1);
    assert_eq!(issued(&actions), vec![0, 1]);
}

#[test]
fn fail_fast_stops_at_the_first_failure() {
    let calls = vec![call("A", Vec::new()), call("B", Vec::new()), call("C", Vec::new())];
    let mut runner = Runner::new(Mode::FailFast, Criterion::Completion, calls);
    let mut actions = deploy(&mut runner, b"code");
    actions.push(runner.step(ok(b"")));
    actions.push(runner.step(failed("panicked")));
    assert_eq!(actions[5], Action::Report);
    actions.push(runner.step(ok(b"")));
    actions.push(runner.step(ok(b"")));
    assert_eq!(actions[6], Action::Nothing);
    assert_eq!(actions[7], Action::Nothing);
    assert_eq!(issued(&actions), vec![0, 1]);
    assert_eq!(runner.outcomes().len(), 2);
    assert!(runner.outcomes()[0].is_success());
    assert_eq!(
        runner.outcomes()[1],
        Outcome::Failure { cause: Failure::Rejected { error: "panicked".to_string() } }
    );
    assert!(runner.is_done());
    assert!(runner.exits_successfully());
}

#[test]
fn fail_fast_stops_on_a_flag_that_does_not_pass() {
    let calls = vec![call("A", Vec::new()), call("B", Vec::new())];
    let mut runner = Runner::new(Mode::FailFast, Criterion::Flag, calls);
    deploy(&mut runner, b"code");
    assert_eq!(runner.step(ok(b"0")), Action::Report);
    assert_eq!(runner.outcomes(), &vec![Outcome::Failure { cause: Failure::Flag { value: 0 } }]);
}

#[test]
fn fail_fast_runs_to_the_end_when_nothing_fails() {
    let calls = vec![call("A", Vec::new()), call("B", Vec::new())];
    let mut runner = Runner::new(Mode::FailFast, Criterion::Flag, calls);
    let mut actions = deploy(&mut runner, b"code");
    actions.push(runner.step(ok(b"1")));
    actions.push(runner.step(ok(b"1")));
    assert_eq!(issued(&actions), vec![0, 1]);
    assert_eq!(actions[5], Action::Report);
    assert_eq!(runner.outcomes().len(), 2);
}

#[test]
fn collect_all_issues_every_call_once() {
    let calls = vec![call("A", Vec::new()), call("B", Vec::new()), call("C", Vec::new())];
    let mut runner = Runner::new(Mode::CollectAll, Criterion::Flag, calls);
    assert_eq!(runner.mode(), Mode::CollectAll);
    assert_eq!(runner.criterion(), Criterion::Flag);
    let mut actions = deploy(&mut runner, b"code");
    actions.push(runner.step(failed("out of gas")));
    actions.push(runner.step(ok(b"junk")));
    actions.push(runner.step(ok(b"1")));
    assert_eq!(issued(&actions), vec![0, 1, 2]);
    assert_eq!(actions[6], Action::Report);
    assert_eq!(
        runner.outcomes(),
        &vec![
            Outcome::Failure { cause: Failure::Rejected { error: "out of gas".to_string() } },
            Outcome::Failure { cause: Failure::Malformed { payload: b"junk".to_vec() } },
            Outcome::Success { payload: b"1".to_vec(), logs: Vec::new() },
        ]
    );
    assert!(runner.exits_successfully());
    assert_eq!(
        runner.report(),
        vec![
            "A result: Test failed with error: out of gas".to_string(),
            "B result: Test failed: malformed response".to_string(),
            "C result: Test succeeded".to_string(),
        ]
    );
}

#[test]
fn empty_sequence_reports_right_after_deploy() {
    let mut runner = Runner::new(Mode::CollectAll, Criterion::Completion, Vec::new());
    let actions = deploy(&mut runner, b"code");
    assert_eq!(actions[3], Action::Report);
    assert!(runner.is_done());
    assert!(runner.calls().is_empty());
    assert_eq!(runner.call(0), None);
    assert!(runner.report().is_empty());
}

#[test]
fn event_out_of_phase_changes_nothing() {
    let mut runner = Runner::new(Mode::CollectAll, Criterion::Completion, vec![call("A", Vec::new())]);
    assert_eq!(runner.step(Event::Deployed), Action::Nothing);
    assert_eq!(runner.step(ok(b"")), Action::Nothing);
    assert_eq!(runner.phase(), Phase::Idle);
    assert_eq!(runner.step(Event::Start), Action::Provision);
    assert_eq!(runner.step(Event::Start), Action::Nothing);
    assert_eq!(runner.phase(), Phase::Provisioning);
    runner.step(Event::Provisioned);
    runner.step(Event::ArtifactRead { bytes: b"code".to_vec() });
    assert_eq!(runner.phase(), Phase::Deploying);
    assert_eq!(runner.step(ok(b"")), Action::Nothing);
    assert_eq!(runner.step(Event::Deployed), Action::Issue { index: 0 });
    assert_eq!(runner.phase(), Phase::Calling);
    assert_eq!(runner.step(Event::Deployed), Action::Nothing);
    assert!(runner.outcomes().is_empty());
}

#[test]
fn report_names_each_kind_of_failure() {
    let calls = vec![call("TestStorageWrite", Vec::new()), call("TestStorageRead", Vec::new())];
    let mut runner = Runner::new(Mode::CollectAll, Criterion::Flag, calls);
    deploy(&mut runner, b"code");
    runner.step(ok(b"1"));
    runner.step(ok(b"0"));
    assert_eq!(
        runner.report(),
        vec![
            "TestStorageWrite result: Test succeeded".to_string(),
            "TestStorageRead result: Test failed".to_string(),
        ]
    );
}

#[test]
fn report_lists_the_logs_of_each_success_after_its_headline() {
    let calls = vec![call("SetStatus", vec![arg("message", "testInputValue")]), call("GetStatus", Vec::new()), call("Last", Vec::new())];
    let mut runner = Runner::new(Mode::CollectAll, Criterion::Completion, calls);
    deploy(&mut runner, b"code");
    assert!(runner.report().is_empty());
    runner.step(Event::CallDone {
        response: Response::Returned {
            payload: Vec::new(),
            logs: vec!["stored".to_string(), "done".to_string()],
        },
    });
    runner.step(failed("no such account"));
    runner.step(Event::CallDone {
        response: Response::Returned { payload: b"7".to_vec(), logs: vec!["bye".to_string()] },
    });
    assert_eq!(
        runner.report(),
        vec![
            "SetStatus result: Test succeeded".to_string(),
            "stored".to_string(),
            "done".to_string(),
            "GetStatus result: Test failed with error: no such account".to_string(),
            "Last result: Test succeeded".to_string(),
            "bye".to_string(),
        ]
    );
}

#[test]
fn result_is_absent_until_the_run_is_over() {
    let mut runner = Runner::new(Mode::CollectAll, Criterion::Completion, vec![call("A", Vec::new())]);
    assert_eq!(runner.clone().into_result(), None);
    deploy(&mut runner, b"code");
    assert_eq!(runner.clone().into_result(), None);
    runner.step(ok(b"x"));
    assert_eq!(
        runner.into_result(),
        Some(RunResult::Finished {
            outcomes: vec![Outcome::Success { payload: b"x".to_vec(), logs: Vec::new() }],
        })
    );
}

#[test]
fn result_of_a_failed_setup_is_the_fatal_error() {
    let mut runner = Runner::new(Mode::CollectAll, Criterion::Completion, vec![call("A", Vec::new())]);
    runner.step(Event::Start);
    runner.step(Event::ProvisionFailed { error: "no sandbox".to_string() });
    assert_eq!(
        runner.into_result(),
        Some(RunResult::Aborted { fatal: Fatal::Provisioning { error: "no sandbox".to_string() } })
    );
}

#[test]
fn result_of_a_fail_fast_run_ends_with_the_failure() {
    let calls = vec![call("A", Vec::new()), call("B", Vec::new()), call("C", Vec::new())];
    let mut runner = Runner::new(Mode::FailFast, Criterion::Flag, calls);
    deploy(&mut runner, b"code");
    runner.step(ok(b"1"));
    runner.step(ok(b"2"));
    assert_eq!(
        runner.into_result(),
        Some(RunResult::Finished {
            outcomes: vec![
                Outcome::Success { payload: b"1".to_vec(), logs: Vec::new() },
                Outcome::Failure { cause: Failure::Flag { value: 2 } },
            ],
        })
    );
}

#[test]
fn read_before_write_is_issued_before_the_write() {
    let calls = vec![
        call("ReadData", vec![arg("key", "testKey")]),
        call("WriteData", vec![arg("key", "testKey"), arg("data", "testData")]),
    ];
    let mut runner = Runner::new(Mode::CollectAll, Criterion::Completion, calls);
    let setup = deploy(&mut runner, b"code");
    assert_eq!(setup[3], Action::Issue { index: 0 });
    assert_eq!(runner.call(0).unwrap().function_name, "ReadData");
    assert_eq!(runner.step(ok(b"null")), Action::Issue { index: 1 });
    assert_eq!(runner.call(1).unwrap().function_name, "WriteData");
    assert_eq!(runner.step(ok(b"")), Action::Report);
    assert_eq!(runner.outcomes()[0].payload(), Some(&b"null".to_vec()));
}
