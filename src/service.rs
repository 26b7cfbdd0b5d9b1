//! The service model: states, actions, status reports and operation results.
use vstd::prelude::*;
use crate::text::{lower_of, lowercase, str_eq};

verus! {

/// State of a service as a backend reports it.
#[derive(Debug, Clone, Copy, PartialEq, Eq, Structural)]
pub enum ServiceState {
    /// Service is running.
    Running,
    /// Service is stopped.
    Stopped,
    /// Service has failed.
    Failed,
    /// Service state is unknown.
    Unknown,
}

/// Lower-case name of a state on the wire.
pub open spec fn state_text(s: ServiceState) -> Seq<char> {
    match s {
        ServiceState::Running => "running"@,
        ServiceState::Stopped => "stopped"@,
        ServiceState::Failed => "failed"@,
        ServiceState::Unknown => "unknown"@,
    }
}

impl ServiceState {
    /// Lower-case name of the state.
    pub fn as_str(&self) -> (r: &'static str)
        ensures
            r@ == state_text(*self),
    {
        match self {
            ServiceState::Running => "running",
            ServiceState::Stopped => "stopped",
            ServiceState::Failed => "failed",
            ServiceState::Unknown => "unknown",
        }
    }

    /// Lower-case name of the state, owned.
    pub fn to_string(&self) -> (r: String)
        ensures
            r@ == state_text(*self),
    {
        String::from_str(self.as_str())
    }
}

/// Action to perform on a service.
#[derive(Debug, Clone, Copy, PartialEq, Eq, Structural)]
pub enum ServiceAction {
    /// Start the service.
    Start,
    /// Stop the service.
    Stop,
    /// Restart the service.
    Restart,
}

/// Lower-case name of an action on the wire.
pub open spec fn action_text(a: ServiceAction) -> Seq<char> {
    match a {
        ServiceAction::Start => "start"@,
        ServiceAction::Stop => "stop"@,
        ServiceAction::Restart => "restart"@,
    }
}

/// The action named by an already lower-cased token, if any.
pub open spec fn action_named(t: Seq<char>) -> Option<ServiceAction> {
    if t == "start"@ {
        Some(ServiceAction::Start)
    } else if t == "stop"@ {
        Some(ServiceAction::Stop)
    } else if t == "restart"@ {
        Some(ServiceAction::Restart)
    } else {
        None
    }
}

/// The state an action drives a service to.
pub open spec fn goal_state(a: ServiceAction) -> ServiceState {
    match a {
        ServiceAction::Stop => ServiceState::Stopped,
        _ => ServiceState::Running,
    }
}

impl ServiceAction {
    /// Lower-case name of the action.
    pub fn as_str(&self) -> (r: &'static str)
        ensures
            r@ == action_text(*self),
    {
        match self {
            ServiceAction::Start => "start",
            ServiceAction::Stop => "stop",
            ServiceAction::Restart => "restart",
        }
    }

    /// Lower-case name of the action, owned.
    pub fn to_string(&self) -> (r: String)
        ensures
            r@ == action_text(*self),
    {
        String::from_str(self.as_str())
    }

    /// The action named by a token that is already lower case.
    pub fn from_lowercase(t: &str) -> (r: Option<ServiceAction>)
        ensures
            r == action_named(t@),
    {
        if str_eq(t, "start") {
            Some(ServiceAction::Start)
        } else if str_eq(t, "stop") {
            Some(ServiceAction::Stop)
        } else if str_eq(t, "restart") {
            Some(ServiceAction::Restart)
        } else {
            None
        }
    }

    /// Parses an action token, ignoring case.
    pub fn parse(s: &str) -> (r: Option<ServiceAction>)
        ensures
            r == action_named(lower_of(s@)),
    {
        let t = lowercase(s);
        ServiceAction::from_lowercase(t.as_str())
    }

    /// The state this action drives a service to.
    pub fn goal(&self) -> (r: ServiceState)
        ensures
            r == goal_state(*self),
    {
        match self {
            ServiceAction::Stop => ServiceState::Stopped,
            _ => ServiceState::Running,
        }
    }
}

impl core::str::FromStr for ServiceAction {
    type Err = String;

    fn from_str(s: &str) -> core::result::Result<ServiceAction, String> {
        match ServiceAction::parse(s) {
            Some(a) => Ok(a),
            None => Err(<String as vstd::string::StringExecFns>::from_str("Invalid service action: ").concat(s)),
        }
    }
}

/// Result of a start, stop or restart operation.
#[derive(Debug, Clone)]
pub struct ServiceOperationResult {
    /// The service name.
    pub service: String,
    /// The action performed.
    pub action: ServiceAction,
    /// Whether the operation succeeded.
    pub success: bool,
    /// The state of the service after the operation.
    pub state: ServiceState,
    /// Diagnostic message (captured output or a description of the failure).
    pub message: Option<String>,
}

/// Mathematical value of a [`ServiceOperationResult`].
pub struct OperationModel {
    pub service: Seq<char>,
    pub action: ServiceAction,
    pub success: bool,
    pub state: ServiceState,
    pub message: Option<Seq<char>>,
}

/// The view of an optional string.
pub open spec fn opt_view(o: Option<String>) -> Option<Seq<char>> {
    match o {
        Some(s) => Some(s@),
        None => None,
    }
}

impl View for ServiceOperationResult {
    type V = OperationModel;

    open spec fn view(&self) -> OperationModel {
        OperationModel {
            service: self.service@,
            action: self.action,
            success: self.success,
            state: self.state,
            message: opt_view(self.message),
        }
    }
}

impl ServiceOperationResult {
    /// A successful result.
    pub fn success(service: &str, action: ServiceAction, state: ServiceState) -> (r: Self)
        ensures
            r@ == (OperationModel { service: service@, action, success: true, state, message: None }),
    {
        ServiceOperationResult {
            service: String::from_str(service),
            action,
            success: true,
            state,
            message: None,
        }
    }

    /// A failed result carrying a diagnostic message.
    pub fn failure(service: &str, action: ServiceAction, state: ServiceState, message: &str) -> (r:
        Self)
        ensures
            r@ == (OperationModel {
                service: service@,
                action,
                success: false,
                state,
                message: Some(message@),
            }),
    {
        ServiceOperationResult {
            service: String::from_str(service),
            action,
            success: false,
            state,
            message: Some(String::from_str(message)),
        }
    }
}

/// Status of a service as reported by a backend.
#[derive(Debug, Clone)]
pub struct ServiceStatus {
    /// The service name.
    pub name: String,
    /// Current state.
    pub state: ServiceState,
    /// Optional description.
    pub description: Option<String>,
}

/// Mathematical value of a [`ServiceStatus`].
pub struct StatusModel {
    pub name: Seq<char>,
    pub state: ServiceState,
    pub description: Option<Seq<char>>,
}

impl View for ServiceStatus {
    type V = StatusModel;

    open spec fn view(&self) -> StatusModel {
        StatusModel { name: self.name@, state: self.state, description: opt_view(self.description) }
    }
}

impl ServiceStatus {
    /// A status without description.
    pub fn new(name: &str, state: ServiceState) -> (r: Self)
        ensures
            r@ == (StatusModel { name: name@, state, description: None }),
    {
        ServiceStatus { name: String::from_str(name), state, description: None }
    }

    /// A status with a description.
    pub fn with_description(name: &str, state: ServiceState, description: &str) -> (r: Self)
        ensures
            r@ == (StatusModel { name: name@, state, description: Some(description@) }),
    {
        ServiceStatus {
            name: String::from_str(name),
            state,
            description: Some(String::from_str(description)),
        }
    }
}

} // verus!
