use shiki::error::ShikiError;
use shiki::exec::{combine_output, plan_command, split_env, timeout_error, ExecBackend};
use shiki::reconcile::{CommandOutput, Operation, Outcome, Request, Step, StatusQuery, QueryStep};
use shiki::service::{ServiceAction, ServiceOperationResult, ServiceState, ServiceStatus};
use shiki::services::{ServiceDefinition, ServiceMap};
use shiki::shell::split_command;

fn create_test_services() -> ServiceMap {
    let mut services = ServiceMap::new();
    services.insert(
        "test-service".to_string(),
        ServiceDefinition {
            start: "echo starting".to_string(),
            stop: "echo stopping".to_string(),
            status: "true".to_string(),
            ..Default::default()
        },
    );
    services.insert(
        "stopped-service".to_string(),
        ServiceDefinition {
            start: "echo starting".to_string(),
            stop: "echo stopping".to_string(),
            status: "false".to_string(),
            ..Default::default()
        },
    );
    services.insert(
        "service-with-env".to_string(),
        ServiceDefinition {
            start: "echo $TEST_VAR".to_string(),
            stop: "echo stopping".to_string(),
            status: "true".to_string(),
            restart: Some("echo restarting".to_string()),
            working_dir: Some("/tmp".to_string()),
            env: vec!["TEST_VAR=hello".to_string()],
            ..Default::default()
        },
    );
    services
}

fn exited(success: bool, output: &str) -> Outcome {
    Ok(CommandOutput { success, output: output.to_string() })
}

/// Drives an operation with scripted outcomes; returns the requests it made
/// and its result.
fn drive(
    first: (Operation, Step),
    mut outcomes: Vec<Outcome>,
) -> (Vec<Request>, Result<ServiceOperationResult, ShikiError>) {
    let (mut op, mut step) = first;
    let mut requests = Vec::new();
    outcomes.reverse();
    loop {
        match step {
            Step::Done(r) => return (requests, r),
            other => {
                requests.push(other.request().unwrap());
                let o = outcomes.pop().expect("the script ran out of outcomes");
                step = op.advance(o);
            },
        }
    }
}

fn query(first: (StatusQuery, QueryStep), mut outcomes: Vec<Outcome>) -> (Vec<Request>, Result<ServiceStatus, ShikiError>) {
    let (mut q, mut step) = first;
    let mut requests = Vec::new();
    outcomes.reverse();
    loop {
        match step {
            QueryStep::Done(r) => return (requests, r),
            other => {
                requests.push(other.request().unwrap());
                let o = outcomes.pop().expect("the script ran out of outcomes");
                step = q.advance(o);
            },
        }
    }
}

#[test]
fn exec_test_exec_backend_new() {
    let backend = ExecBackend::new(create_test_services());
    assert_eq!(backend.name(), "exec");
}

#[test]
fn exec_test_supports_service() {
    let backend = ExecBackend::new(create_test_services());
    assert!(backend.supports_service("test-service"));
    assert!(backend.supports_service("stopped-service"));
    assert!(!backend.supports_service("nonexistent"));
}

#[test]
fn exec_tests_test_exec_backend_new() {
    let backend = ExecBackend::new(create_test_services());
    assert_eq!(backend.name(), "exec");
}

#[test]
fn exec_tests_test_supports_service() {
    let backend = ExecBackend::new(create_test_services());
    assert!(backend.supports_service("test-service"));
    assert!(backend.supports_service("stopped-service"));
    assert!(!backend.supports_service("nonexistent"));
}

#[test]
fn exec_test_list_services() {
    let backend = ExecBackend::new(create_test_services());
    let list = backend.list_services();
    assert_eq!(list.len(), 3);
    assert!(list.contains(&"test-service".to_string()));
    assert!(list.contains(&"stopped-service".to_string()));
    assert!(list.contains(&"service-with-env".to_string()));
}

#[test]
fn exec_test_status_running() {
    let backend = ExecBackend::new(create_test_services());
    let (requests, status) = query(backend.begin_status("test-service").unwrap(), vec![exited(true, "")]);
    assert_eq!(requests, vec![Request::Probe]);
    let status = status.unwrap();
    assert_eq!(status.name, "test-service");
    assert_eq!(status.state, ServiceState::Running);
}

#[test]
fn exec_test_status_stopped() {
    let backend = ExecBackend::new(create_test_services());
    let (_, status) = query(backend.begin_status("stopped-service").unwrap(), vec![exited(false, "")]);
    let status = status.unwrap();
    assert_eq!(status.name, "stopped-service");
    assert_eq!(status.state, ServiceState::Stopped);
}

#[test]
fn exec_test_status_not_found() {
    let backend = ExecBackend::new(create_test_services());
    let result = backend.begin_status("nonexistent");
    assert!(matches!(result, Err(ShikiError::ServiceNotFound { .. })));
}

#[test]
fn exec_test_start_already_running() {
    let backend = ExecBackend::new(create_test_services());
    let (requests, result) = drive(backend.begin("test-service", ServiceAction::Start).unwrap(), vec![
        exited(true, ""),
    ]);
    assert_eq!(requests, vec![Request::Probe]);
    let result = result.unwrap();
    assert!(result.success);
    assert_eq!(result.action, ServiceAction::Start);
    assert_eq!(result.state, ServiceState::Running);
}

#[test]
fn exec_test_stop_already_stopped() {
    let backend = ExecBackend::new(create_test_services());
    let (requests, result) = drive(backend.begin("stopped-service", ServiceAction::Stop).unwrap(), vec![
        exited(false, ""),
    ]);
    assert_eq!(requests, vec![Request::Probe]);
    let result = result.unwrap();
    assert!(result.success);
    assert_eq!(result.action, ServiceAction::Stop);
    assert_eq!(result.state, ServiceState::Stopped);
}

#[test]
fn exec_test_restart_with_restart_command() {
    let backend = ExecBackend::new(create_test_services());
    let (requests, result) = drive(
        backend.begin("service-with-env", ServiceAction::Restart).unwrap(),
        vec![exited(true, "restarting\n"), exited(true, "")],
    );
    assert_eq!(requests, vec![Request::Run(ServiceAction::Restart), Request::Probe]);
    let result = result.unwrap();
    assert!(result.success);
    assert_eq!(result.action, ServiceAction::Restart);
    assert_eq!(result.state, ServiceState::Running);
}

#[test]
fn exec_test_perform_action() {
    let backend = ExecBackend::new(create_test_services());
    let (_, result) = drive(backend.begin("test-service", ServiceAction::Start).unwrap(), vec![
        exited(true, ""),
    ]);
    assert!(result.unwrap().success);
    let (_, result) = drive(backend.begin("stopped-service", ServiceAction::Stop).unwrap(), vec![
        exited(false, ""),
    ]);
    assert!(result.unwrap().success);
}

#[test]
fn start_runs_the_command_and_verifies() {
    let backend = ExecBackend::new(create_test_services());
    let (requests, result) = drive(backend.begin("stopped-service", ServiceAction::Start).unwrap(), vec![
        exited(false, ""),
        exited(true, "starting\n"),
        exited(true, ""),
    ]);
    assert_eq!(requests, vec![Request::Probe, Request::Run(ServiceAction::Start), Request::Probe]);
    let result = result.unwrap();
    assert!(result.success);
    assert_eq!(result.state, ServiceState::Running);
}

#[test]
fn start_command_failure_reports_its_output() {
    let backend = ExecBackend::new(create_test_services());
    let (requests, result) = drive(backend.begin("stopped-service", ServiceAction::Start).unwrap(), vec![
        exited(false, ""),
        exited(false, "permission denied"),
    ]);
    assert_eq!(requests, vec![Request::Probe, Request::Run(ServiceAction::Start)]);
    let result = result.unwrap();
    assert!(!result.success);
    assert_eq!(result.state, ServiceState::Failed);
    assert_eq!(result.message, Some("permission denied".to_string()));
}

#[test]
fn start_that_exits_zero_without_effect_fails_verification() {
    let backend = ExecBackend::new(create_test_services());
    let (_, result) = drive(backend.begin("stopped-service", ServiceAction::Start).unwrap(), vec![
        exited(false, ""),
        exited(true, ""),
        exited(false, ""),
    ]);
    let result = result.unwrap();
    assert!(!result.success);
    assert_eq!(result.state, ServiceState::Stopped);
    assert_eq!(result.message, Some("Service did not start properly".to_string()));
}

#[test]
fn restart_without_command_stops_then_starts() {
    let backend = ExecBackend::new(create_test_services());
    let (requests, result) = drive(backend.begin("test-service", ServiceAction::Restart).unwrap(), vec![
        exited(true, ""),
        exited(true, "stopping\n"),
        exited(false, ""),
        exited(false, ""),
        exited(true, "starting\n"),
        exited(true, ""),
    ]);
    assert_eq!(requests, vec![
        Request::Probe,
        Request::Run(ServiceAction::Stop),
        Request::Probe,
        Request::Probe,
        Request::Run(ServiceAction::Start),
        Request::Probe,
    ]);
    let result = result.unwrap();
    assert!(result.success);
    assert_eq!(result.action, ServiceAction::Restart);
    assert_eq!(result.state, ServiceState::Running);
}

#[test]
fn restart_fallback_reports_the_start_failure() {
    let backend = ExecBackend::new(create_test_services());
    let (requests, result) = drive(backend.begin("stopped-service", ServiceAction::Restart).unwrap(), vec![
        exited(false, ""),
        exited(false, ""),
        exited(false, "cannot bind port"),
    ]);
    assert_eq!(requests, vec![Request::Probe, Request::Probe, Request::Run(ServiceAction::Start)]);
    let result = result.unwrap();
    assert!(!result.success);
    assert_eq!(result.action, ServiceAction::Restart);
    assert_eq!(result.state, ServiceState::Failed);
    assert_eq!(result.message, Some("cannot bind port".to_string()));
}

#[test]
fn restart_fallback_stop_failure_never_starts() {
    let backend = ExecBackend::new(create_test_services());
    let (requests, result) = drive(backend.begin("test-service", ServiceAction::Restart).unwrap(), vec![
        exited(true, ""),
        exited(false, "stop refused"),
    ]);
    assert_eq!(requests, vec![Request::Probe, Request::Run(ServiceAction::Stop)]);
    let result = result.unwrap();
    assert!(!result.success);
    assert_eq!(result.action, ServiceAction::Restart);
    assert_eq!(result.message, Some("stop refused".to_string()));
}

#[test]
fn status_deadline_is_a_timeout_error() {
    let mut services = ServiceMap::new();
    services.insert(
        "slow".to_string(),
        ServiceDefinition {
            start: "true".to_string(),
            stop: "true".to_string(),
            status: "sleep 10".to_string(),
            timeout: Some(1),
            ..Default::default()
        },
    );
    let backend = ExecBackend::new(services);
    let inv = backend.invocation("slow", Request::Probe).unwrap();
    assert_eq!(inv.timeout_seconds, Some(1));
    assert_eq!(inv.program, "sleep");
    let err = timeout_error(&inv.command, 1);
    let (_, status) = query(backend.begin_status("slow").unwrap(), vec![Err(err)]);
    match status {
        Err(ShikiError::Timeout { operation, seconds }) => {
            assert_eq!(operation, "sleep 10");
            assert_eq!(seconds, 1);
        },
        other => panic!("expected a timeout, got {:?}", other),
    }
}

#[test]
fn invocation_plans_words_env_and_deadline() {
    let backend = ExecBackend::with_default_timeout(create_test_services(), 45);
    let inv = backend.invocation("service-with-env", Request::Run(ServiceAction::Start)).unwrap();
    assert_eq!(inv.program, "echo");
    assert_eq!(inv.args, vec!["$TEST_VAR".to_string()]);
    assert_eq!(inv.working_dir, Some("/tmp".to_string()));
    assert_eq!(inv.env, vec![("TEST_VAR".to_string(), "hello".to_string())]);
    assert_eq!(inv.timeout_seconds, Some(45));
    let inv = backend.invocation("service-with-env", Request::Run(ServiceAction::Restart)).unwrap();
    assert_eq!(inv.args, vec!["restarting".to_string()]);
    assert!(backend.invocation("test-service", Request::Run(ServiceAction::Restart)).is_err());
    assert!(matches!(
        backend.invocation("missing", Request::Probe),
        Err(ShikiError::ServiceNotFound { .. })
    ));
}

#[test]
fn split_keeps_quoted_words_together() {
    let words = split_command("echo \"hello world\" --flag").unwrap();
    assert_eq!(words, vec!["echo".to_string(), "hello world".to_string(), "--flag".to_string()]);
}

#[test]
fn split_quoting_and_escapes() {
    assert_eq!(split_command("a 'b c' d").unwrap(), vec!["a", "b c", "d"]);
    assert_eq!(split_command("a\\ b").unwrap(), vec!["a b"]);
    assert_eq!(split_command("\"x\\\"y\" 'it''s'").unwrap(), vec!["x\"y", "its"]);
    assert_eq!(split_command("\"a\\nb\"").unwrap(), vec!["a\\nb"]);
    assert_eq!(split_command("  spaced\t out \n").unwrap(), vec!["spaced", "out"]);
    assert_eq!(split_command("\"\"").unwrap(), vec![""]);
    assert_eq!(split_command("").unwrap(), Vec::<String>::new());
    assert!(split_command("'open").is_none());
    assert!(split_command("\"open").is_none());
    assert!(split_command("trailing\\").is_none());
}

#[test]
fn empty_and_broken_commands_are_errors() {
    let d = ServiceDefinition::default();
    assert!(matches!(plan_command("   ", &d, 5), Err(ShikiError::Backend { .. })));
    assert!(matches!(plan_command("echo 'x", &d, 5), Err(ShikiError::Backend { .. })));
    let inv = plan_command("ls -l", &d, 5).unwrap();
    assert_eq!(inv.program, "ls");
    assert_eq!(inv.timeout_seconds, Some(5));
}

#[test]
fn env_entries_split_at_first_equals() {
    assert_eq!(split_env("A=b=c"), Some(("A".to_string(), "b=c".to_string())));
    assert_eq!(split_env("EMPTY="), Some(("EMPTY".to_string(), "".to_string())));
    assert_eq!(split_env("NOEQUALS"), None);
    let d = ServiceDefinition {
        env: vec!["A=1".to_string(), "bad".to_string(), "B=2".to_string()],
        ..Default::default()
    };
    let inv = plan_command("run", &d, 1).unwrap();
    assert_eq!(inv.env, vec![("A".to_string(), "1".to_string()), ("B".to_string(), "2".to_string())]);
    assert_eq!(inv.malformed_env, vec!["bad".to_string()]);
}

#[test]
fn output_combines_streams() {
    assert_eq!(combine_output("out", ""), "out");
    assert_eq!(combine_output("out", "err"), "out\nerr");
    assert_eq!(combine_output("", "err"), "\nerr");
}

#[test]
fn listed_names_are_distinct_after_redefinition() {
    let mut services = create_test_services();
    services.insert("test-service".to_string(), ServiceDefinition {
        start: "a".to_string(),
        stop: "b".to_string(),
        status: "c".to_string(),
        ..Default::default()
    });
    let backend = ExecBackend::new(services);
    let list = backend.list_services();
    assert_eq!(list.len(), 3);
    assert_eq!(list.iter().filter(|n| n.as_str() == "test-service").count(), 1);
}
