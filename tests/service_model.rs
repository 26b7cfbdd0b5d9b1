use shiki::service::{ServiceAction, ServiceOperationResult, ServiceState, ServiceStatus};

#[test]
fn test_service_state_display() {
    assert_eq!(ServiceState::Running.to_string(), "running");
    assert_eq!(ServiceState::Stopped.to_string(), "stopped");
    assert_eq!(ServiceState::Failed.to_string(), "failed");
    assert_eq!(ServiceState::Unknown.to_string(), "unknown");
}

#[test]
fn backend_test_service_action_display() {
    assert_eq!(ServiceAction::Start.to_string(), "start");
    assert_eq!(ServiceAction::Stop.to_string(), "stop");
    assert_eq!(ServiceAction::Restart.to_string(), "restart");
}

#[test]
fn backend_test_service_action_parse() {
    assert_eq!("start".parse::<ServiceAction>().unwrap(), ServiceAction::Start);
    assert_eq!("STOP".parse::<ServiceAction>().unwrap(), ServiceAction::Stop);
    assert_eq!("Restart".parse::<ServiceAction>().unwrap(), ServiceAction::Restart);
    assert!("invalid".parse::<ServiceAction>().is_err());
}

#[test]
fn test_service_operation_result_success() {
    let result = ServiceOperationResult::success("nginx", ServiceAction::Start, ServiceState::Running);

    assert_eq!(result.service, "nginx");
    assert_eq!(result.action, ServiceAction::Start);
    assert!(result.success);
    assert_eq!(result.state, ServiceState::Running);
    assert!(result.message.is_none());
}

#[test]
fn test_service_operation_result_failure() {
    let result = ServiceOperationResult::failure(
        "nginx",
        ServiceAction::Start,
        ServiceState::Failed,
        "Permission denied",
    );

    assert_eq!(result.service, "nginx");
    assert_eq!(result.action, ServiceAction::Start);
    assert!(!result.success);
    assert_eq!(result.state, ServiceState::Failed);
    assert_eq!(result.message, Some("Permission denied".to_string()));
}

#[test]
fn test_service_status() {
    let status = ServiceStatus::new("nginx", ServiceState::Running);
    assert_eq!(status.name, "nginx");
    assert_eq!(status.state, ServiceState::Running);
    assert!(status.description.is_none());

    let status = ServiceStatus::with_description("nginx", ServiceState::Running, "Active and running");
    assert_eq!(status.description, Some("Active and running".to_string()));
}

#[test]
fn action_parse_ignores_case_of_every_letter() {
    assert_eq!(ServiceAction::parse("ReStArT"), Some(ServiceAction::Restart));
    assert_eq!(ServiceAction::parse("start "), None);
    assert_eq!(ServiceAction::parse(""), None);
    assert_eq!(ServiceAction::from_lowercase("STOP"), None);
    assert_eq!(ServiceAction::from_lowercase("stop"), Some(ServiceAction::Stop));
}

#[test]
fn action_goals() {
    assert_eq!(ServiceAction::Start.goal(), ServiceState::Running);
    assert_eq!(ServiceAction::Stop.goal(), ServiceState::Stopped);
    assert_eq!(ServiceAction::Restart.goal(), ServiceState::Running);
}
