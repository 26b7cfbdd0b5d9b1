use shiki::config::{Backend, Config};
use shiki::controller::{create_backend, ListPlan, ServiceController};
use shiki::reconcile::{CommandOutput, Request, Step};
use shiki::service::{ServiceAction, ServiceState};
use shiki::services::{ServiceDefinition, ServiceMap};

fn create_exec_config() -> Config {
    let mut config = Config::default();
    config.agent.backend = Backend::Exec;
    let mut services = ServiceMap::new();
    services.insert(
        "test-service".to_string(),
        ServiceDefinition {
            start: "echo starting".to_string(),
            stop: "echo stopping".to_string(),
            status: "true".to_string(),
            ..Default::default()
        },
    );
    config.services = services;
    config
}

fn create_systemd_config() -> Config {
    let mut config = Config::default();
    config.agent.backend = Backend::Systemd;
    config
}

#[test]
fn test_service_controller_from_exec_config() {
    let config = create_exec_config();
    let controller = ServiceController::from_config(&config).unwrap();

    assert_eq!(controller.backend_name(), "exec");
    assert_eq!(controller.backend_type(), Backend::Exec);
    assert!(controller.supports_service("test-service"));
    assert!(!controller.supports_service("nonexistent"));
}

#[test]
fn test_service_controller_from_systemd_config() {
    let config = create_systemd_config();
    let controller = ServiceController::from_config(&config).unwrap();

    assert_eq!(controller.backend_name(), "systemd");
    assert_eq!(controller.backend_type(), Backend::Systemd);
}

#[test]
fn test_exec_backend_requires_services() {
    let mut config = Config::default();
    config.agent.backend = Backend::Exec;
    let result = ServiceController::from_config(&config);
    assert!(result.is_err());
}

#[test]
fn test_create_backend_exec() {
    let config = create_exec_config();
    let backend = create_backend(&config).unwrap();
    assert_eq!(backend.name(), "exec");
}

#[test]
fn test_create_backend_systemd() {
    let config = create_systemd_config();
    let backend = create_backend(&config).unwrap();
    assert_eq!(backend.name(), "systemd");
}

#[test]
fn test_service_controller_operations() {
    let config = create_exec_config();
    let controller = ServiceController::from_config(&config).unwrap();

    match controller.list_services() {
        ListPlan::Known(services) => assert!(services.contains(&"test-service".to_string())),
        ListPlan::Query(_) => panic!("the exec backend knows its services"),
    }

    let (mut q, step) = controller.status("test-service").unwrap();
    assert_eq!(step.request(), Some(Request::Probe));
    match q.advance(Ok(CommandOutput { success: true, output: String::new() })) {
        shiki::reconcile::QueryStep::Done(Ok(status)) => {
            assert_eq!(status.name, "test-service");
            assert_eq!(status.state, ServiceState::Running);
        },
        other => panic!("expected a status, got {:?}", other),
    }

    let (mut op, _) = controller.start("test-service").unwrap();
    match op.advance(Ok(CommandOutput { success: true, output: String::new() })) {
        Step::Done(Ok(r)) => assert!(r.success),
        other => panic!("expected success, got {:?}", other),
    }

    let (mut op, _) = controller.perform_action("test-service", ServiceAction::Start).unwrap();
    match op.advance(Ok(CommandOutput { success: true, output: String::new() })) {
        Step::Done(Ok(r)) => assert!(r.success),
        other => panic!("expected success, got {:?}", other),
    }
}

#[test]
fn test_service_controller_not_found() {
    let config = create_exec_config();
    let controller = ServiceController::from_config(&config).unwrap();
    assert!(controller.status("nonexistent").is_err());
}

#[test]
fn exec_controller_uses_configured_deadline() {
    let mut config = create_exec_config();
    config.timeout.service_seconds = 12;
    let controller = ServiceController::from_config(&config).unwrap();
    let inv = controller.invocation("test-service", Request::Probe).unwrap();
    assert_eq!(inv.program, "true");
    assert_eq!(inv.timeout_seconds, Some(12));
}

#[test]
fn systemd_controller_lists_through_systemctl() {
    let controller = ServiceController::from_config(&create_systemd_config()).unwrap();
    match controller.list_services() {
        ListPlan::Query(inv) => assert_eq!(inv.program, "systemctl"),
        ListPlan::Known(_) => panic!("the service manager must be asked"),
    }
    let names = controller.finish_listing(true, "a.service enabled\nb.service enabled\n").unwrap();
    assert_eq!(names, vec!["a".to_string(), "b".to_string()]);
}
