use shiki::config::{Backend, Config};
use shiki::controller::ServiceController;
use shiki::error::ShikiError;
use shiki::server::{
    admit_notify, default_limit, notify_response, operation_response, operation_status,
    page_services, AppState, ListServicesQuery, NotifyOptions, NotifyRequest, ServiceInfo, Stats,
};
use shiki::server::{AgentState, HealthStatus};
use shiki::service::{ServiceAction, ServiceOperationResult, ServiceState};
use shiki::services::{ServiceDefinition, ServiceMap};

fn create_test_config() -> Config {
    let mut config = Config::default();
    config.agent.backend = Backend::Exec;
    config.agent.name = Some("test-agent".to_string());
    config.agent.tags = vec!["test".to_string()];
    let mut services = ServiceMap::new();
    services.insert(
        "test-service".to_string(),
        ServiceDefinition {
            start: "true".to_string(),
            stop: "true".to_string(),
            status: "true".to_string(),
            ..Default::default()
        },
    );
    config.services = services;
    config
}

#[test]
fn test_notify_options_default() {
    let options = NotifyOptions::default();
    assert!(options.wait);
    assert_eq!(options.timeout_seconds, 60);
}

#[test]
fn test_stats_default() {
    let stats = Stats::default();
    let snapshot = stats.snapshot();
    assert_eq!(snapshot.requests_total, 0);
    assert_eq!(snapshot.requests_success, 0);
    assert_eq!(snapshot.requests_failed, 0);
}

#[test]
fn test_app_state_new() {
    let config = create_test_config();
    let state = AppState::new(&config).unwrap();
    assert_eq!(state.agent_name, "test-agent");
    assert_eq!(state.agent_tags, vec!["test".to_string()]);
    assert_eq!(state.server_bind, "0.0.0.0");
    assert_eq!(state.server_port, 8080);
    assert!(!state.tls_enabled);
}

#[test]
fn test_app_state_uptime() {
    let config = create_test_config();
    let state = AppState::new(&config).unwrap();
    assert!(state.uptime_seconds() < 1);
}

#[test]
fn test_stats_increment() {
    let config = create_test_config();
    let state = AppState::new(&config).unwrap();
    state.increment_requests();
    state.increment_requests();
    state.increment_success();
    state.increment_failed();
    let snapshot = state.stats.snapshot();
    assert_eq!(snapshot.requests_total, 2);
    assert_eq!(snapshot.requests_success, 1);
    assert_eq!(snapshot.requests_failed, 1);
}

fn request(action: &str, service: &str) -> NotifyRequest {
    NotifyRequest {
        action: action.to_string(),
        service: service.to_string(),
        options: NotifyOptions::default(),
    }
}

#[test]
fn notify_admission() {
    let controller = ServiceController::from_config(&create_test_config()).unwrap();
    assert_eq!(admit_notify(&controller, &request("START", "test-service")).unwrap(), ServiceAction::Start);
    let e = admit_notify(&controller, &request("invalid", "test-service")).unwrap_err();
    assert_eq!(e.code().http_status(), 400);
    assert_eq!(e.to_string(), "Invalid request: Invalid action: invalid");
    let e = admit_notify(&controller, &request("start", "nonexistent")).unwrap_err();
    assert!(matches!(e, ShikiError::ServiceNotFound { .. }));
    assert_eq!(e.code().http_status(), 404);
}

#[test]
fn failed_operation_is_still_answered() {
    let outcome = ServiceOperationResult::failure("web", ServiceAction::Start, ServiceState::Failed, "boom");
    let data = notify_response(
        "id-1".to_string(),
        &request("start", "web"),
        Some(ServiceState::Stopped),
        &outcome,
        12,
    );
    assert_eq!(data.result, "failed");
    assert_eq!(data.previous_status, Some("stopped".to_string()));
    assert_eq!(data.current_status, Some("failed".to_string()));
    assert_eq!(data.duration_ms, Some(12));
    assert_eq!(data.message, Some("boom".to_string()));

    let ok = ServiceOperationResult::success("web", ServiceAction::Start, ServiceState::Running);
    let data = notify_response("id-2".to_string(), &request("start", "web"), None, &ok, 3);
    assert_eq!(data.result, "completed");
    assert_eq!(data.previous_status, None);
}

#[test]
fn operation_answer() {
    let ok = ServiceOperationResult::success("web", ServiceAction::Stop, ServiceState::Stopped);
    let data = operation_response("web", ServiceAction::Stop, Some(ServiceState::Running), &ok);
    assert_eq!(data.action, "stop");
    assert!(data.success);
    assert_eq!(data.previous_state, Some("running".to_string()));
    assert_eq!(data.current_state, "stopped");
}

#[test]
fn operation_error_statuses() {
    assert_eq!(operation_status(&ShikiError::ServiceNotFound { service: "a".to_string() }), 404);
    assert_eq!(
        operation_status(&ShikiError::ServiceDenied { service: "a".to_string(), reason: "r".to_string() }),
        403
    );
    assert_eq!(operation_status(&ShikiError::Timeout { operation: "x".to_string(), seconds: 1 }), 504);
    assert_eq!(operation_status(&ShikiError::backend("x")), 500);
}

fn info(name: &str, status: &str) -> ServiceInfo {
    ServiceInfo { name: name.to_string(), status: status.to_string(), description: None }
}

#[test]
fn services_page_filters_then_cuts() {
    let infos = vec![info("a", "running"), info("b", "stopped"), info("c", "running"), info("d", "running")];
    let query = ListServicesQuery { status: Some("running".to_string()), limit: 2, offset: 1 };
    let page = page_services(infos.clone(), &query);
    assert_eq!(page.total, 3);
    let names: Vec<String> = page.services.iter().map(|s| s.name.clone()).collect();
    assert_eq!(names, vec!["c".to_string(), "d".to_string()]);

    let query = ListServicesQuery { status: None, limit: default_limit(), offset: 10 };
    let page = page_services(infos, &query);
    assert_eq!(page.total, 4);
    assert!(page.services.is_empty());
    assert_eq!(page.limit, 100);
}

#[test]
fn health_and_status_reports() {
    let state = AppState::new(&create_test_config()).unwrap();
    let h = state.health("1.2.3");
    assert_eq!(h.status, HealthStatus::Healthy);
    assert_eq!(h.status.as_str(), "healthy");
    assert_eq!(h.version, "1.2.3");

    state.increment_requests();
    let r = state.status_report("1.2.3");
    assert_eq!(r.agent.name, "test-agent");
    assert_eq!(r.agent.state, AgentState::Ready);
    assert_eq!(r.agent.state.as_str(), "ready");
    assert_eq!(r.agent.mode, "standalone");
    assert_eq!(r.server.port, 8080);
    assert_eq!(r.stats.requests_total, 1);
    assert_eq!(AgentState::ShuttingDown.as_str(), "shuttingdown");
}
