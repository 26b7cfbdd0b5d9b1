//! The HTTP API's shared state, response data and decisions.
use vstd::prelude::*;
use std::sync::atomic::{AtomicU64, Ordering};
use crate::config::Config;
use crate::controller::{backend_serves, ServiceController};
use crate::error::{code_text, error_code_of, error_text, ErrorCode, ShikiError};
use crate::service::{
    action_named, action_text, opt_view, state_text, ServiceAction, ServiceOperationResult,
    ServiceState, ServiceStatus,
};
use crate::services::copy_strings;
use crate::text::{lower_of, str_eq};

verus! {

/// `std::time::Instant`, carried opaquely: the agent's start time.
#[verifier::external_type_specification]
#[verifier::external_body]
pub struct ExInstant(std::time::Instant);

/// Relies on `std::time::Instant::now`: the current instant.
#[verifier::external_body]
fn now() -> std::time::Instant {
    std::time::Instant::now()
}

/// Relies on `std::time::Instant::elapsed`: whole seconds since `t`.
#[verifier::external_body]
fn seconds_since(t: &std::time::Instant) -> u64 {
    t.elapsed().as_secs()
}

/// Request counters, shared by all request handlers; they only grow.
#[derive(Debug)]
pub struct Stats {
    /// Requests received.
    pub requests_total: AtomicU64,
    /// Requests that succeeded.
    pub requests_success: AtomicU64,
    /// Requests that failed.
    pub requests_failed: AtomicU64,
}

/// The counters at one moment.
#[derive(Debug, Clone, Copy)]
pub struct StatsSnapshot {
    /// Requests received.
    pub requests_total: u64,
    /// Requests that succeeded.
    pub requests_success: u64,
    /// Requests that failed.
    pub requests_failed: u64,
}

impl Stats {
    /// Counters at zero.
    pub fn new() -> Stats {
        Stats {
            requests_total: AtomicU64::new(0),
            requests_success: AtomicU64::new(0),
            requests_failed: AtomicU64::new(0),
        }
    }

    /// Reads the counters. Handlers may update them meanwhile, so nothing
    /// relates the three values read.
    pub fn snapshot(&self) -> StatsSnapshot {
        StatsSnapshot {
            requests_total: self.requests_total.load(Ordering::Relaxed),
            requests_success: self.requests_success.load(Ordering::Relaxed),
            requests_failed: self.requests_failed.load(Ordering::Relaxed),
        }
    }
}

impl Default for Stats {
    fn default() -> Stats {
        Stats::new()
    }
}

/// State shared by the request handlers.
#[derive(Debug)]
pub struct AppState {
    /// The service controller.
    pub controller: ServiceController,
    /// When the agent started.
    pub start_time: std::time::Instant,
    /// Agent name.
    pub agent_name: String,
    /// Agent tags.
    pub agent_tags: Vec<String>,
    /// Listen address.
    pub server_bind: String,
    /// Listen port.
    pub server_port: u16,
    /// Whether TLS is enabled.
    pub tls_enabled: bool,
    /// Request counters.
    pub stats: Stats,
}

impl AppState {
    /// The state of an agent with this configuration.
    pub fn new(config: &Config) -> (r: Result<AppState, ShikiError>)
        ensures
            r is Err <==> (config.agent.backend == crate::config::Backend::Exec && config.services@.len()
                == 0),
            r matches Ok(s) ==> {
                &&& s.agent_tags@ == config.agent.tags@
                &&& s.server_bind@ == config.server.bind@
                &&& s.server_port == config.server.port
                &&& s.tls_enabled == config.server.tls.enabled
                &&& s.controller.backend_type == config.agent.backend
                &&& (config.agent.name matches Some(n) ==> s.agent_name@ == n@)
            },
    {
        let controller = ServiceController::from_config(config)?;
        Ok(
            AppState {
                controller,
                start_time: now(),
                agent_name: config.agent_name(),
                agent_tags: copy_strings(&config.agent.tags),
                server_bind: config.server.bind.clone(),
                server_port: config.server.port,
                tls_enabled: config.server.tls.enabled,
                stats: Stats::new(),
            },
        )
    }

    /// Whole seconds since the agent started.
    pub fn uptime_seconds(&self) -> u64 {
        seconds_since(&self.start_time)
    }

    /// The health report of a running agent.
    pub fn health(&self, version: &str) -> (r: HealthData)
        ensures
            r.status == HealthStatus::Healthy,
            r.version@ == version@,
    {
        HealthData {
            status: HealthStatus::Healthy,
            version: String::from_str(version),
            uptime_seconds: self.uptime_seconds(),
        }
    }

    /// The status report of a running agent: who it is, where it listens,
    /// and its counters.
    pub fn status_report(&self, version: &str) -> (r: StatusData)
        ensures
            r.agent.name == self.agent_name,
            r.agent.state == AgentState::Ready,
            r.agent.mode@ == "standalone"@,
            r.agent.tags@ == self.agent_tags@,
            r.server.bind == self.server_bind,
            r.server.port == self.server_port,
            r.server.tls_enabled == self.tls_enabled,
            r.stats.active_connections == 0,
            r.version@ == version@,
    {
        let s = self.stats.snapshot();
        StatusData {
            agent: AgentInfo {
                name: self.agent_name.clone(),
                state: AgentState::Ready,
                mode: String::from_str("standalone"),
                tags: copy_strings(&self.agent_tags),
            },
            server: ServerInfo {
                bind: self.server_bind.clone(),
                port: self.server_port,
                tls_enabled: self.tls_enabled,
            },
            stats: StatsInfo {
                requests_total: s.requests_total,
                requests_success: s.requests_success,
                requests_failed: s.requests_failed,
                active_connections: 0,
            },
            version: String::from_str(version),
            uptime_seconds: self.uptime_seconds(),
        }
    }

    /// Counts a received request.
    pub fn increment_requests(&self) {
        self.stats.requests_total.fetch_add(1, Ordering::Relaxed);
    }

    /// Counts a request that succeeded.
    pub fn increment_success(&self) {
        self.stats.requests_success.fetch_add(1, Ordering::Relaxed);
    }

    /// Counts a request that failed.
    pub fn increment_failed(&self) {
        self.stats.requests_failed.fetch_add(1, Ordering::Relaxed);
    }
}

/// Health of an agent.
#[derive(Debug, Clone, Copy, PartialEq, Eq, Structural)]
pub enum HealthStatus {
    Healthy,
    Degraded,
    Unhealthy,
}

impl HealthStatus {
    /// Lower-case name on the wire.
    pub fn as_str(&self) -> (r: &'static str)
        ensures
            r@ == (match *self {
                HealthStatus::Healthy => "healthy"@,
                HealthStatus::Degraded => "degraded"@,
                HealthStatus::Unhealthy => "unhealthy"@,
            }),
    {
        match self {
            HealthStatus::Healthy => "healthy",
            HealthStatus::Degraded => "degraded",
            HealthStatus::Unhealthy => "unhealthy",
        }
    }
}

/// Health report.
#[derive(Debug, Clone)]
pub struct HealthData {
    pub status: HealthStatus,
    pub version: String,
    pub uptime_seconds: u64,
}

/// Lifecycle state of an agent.
#[derive(Debug, Clone, Copy, PartialEq, Eq, Structural)]
pub enum AgentState {
    Ready,
    Starting,
    ShuttingDown,
    Error,
}

impl AgentState {
    /// Lower-case name on the wire.
    pub fn as_str(&self) -> (r: &'static str)
        ensures
            r@ == (match *self {
                AgentState::Ready => "ready"@,
                AgentState::Starting => "starting"@,
                AgentState::ShuttingDown => "shuttingdown"@,
                AgentState::Error => "error"@,
            }),
    {
        match self {
            AgentState::Ready => "ready",
            AgentState::Starting => "starting",
            AgentState::ShuttingDown => "shuttingdown",
            AgentState::Error => "error",
        }
    }
}

/// The agent part of a status report.
#[derive(Debug, Clone)]
pub struct AgentInfo {
    pub name: String,
    pub state: AgentState,
    pub mode: String,
    pub tags: Vec<String>,
}

/// The server part of a status report.
#[derive(Debug, Clone)]
pub struct ServerInfo {
    pub bind: String,
    pub port: u16,
    pub tls_enabled: bool,
}

/// The counters part of a status report.
#[derive(Debug, Clone, Copy)]
pub struct StatsInfo {
    pub requests_total: u64,
    pub requests_success: u64,
    pub requests_failed: u64,
    pub active_connections: u64,
}

/// Status report of an agent.
#[derive(Debug, Clone)]
pub struct StatusData {
    pub agent: AgentInfo,
    pub server: ServerInfo,
    pub stats: StatsInfo,
    pub version: String,
    pub uptime_seconds: u64,
}

/// Body of a notify request.
#[derive(Debug, Clone)]
pub struct NotifyRequest {
    /// Action token (`start`, `stop` or `restart`, in any case).
    pub action: String,
    /// Target service.
    pub service: String,
    /// Options.
    pub options: NotifyOptions,
}

/// Options of a notify request.
#[derive(Debug, Clone, Copy)]
pub struct NotifyOptions {
    /// Whether to wait for completion.
    pub wait: bool,
    /// Deadline, in seconds.
    pub timeout_seconds: u64,
}

/// Whether a notify request waits, when it does not say.
pub fn default_wait() -> (r: bool)
    ensures
        r,
{
    true
}

/// Deadline of a notify request, in seconds, when it does not say.
pub fn default_timeout() -> (r: u64)
    ensures
        r == 60,
{
    60
}

impl Default for NotifyOptions {
    fn default() -> (r: NotifyOptions)
        ensures
            r.wait,
            r.timeout_seconds == 60,
    {
        NotifyOptions { wait: default_wait(), timeout_seconds: default_timeout() }
    }
}

/// Answer to a notify request.
#[derive(Debug, Clone)]
pub struct NotifyResponseData {
    pub request_id: String,
    pub service: String,
    pub action: String,
    /// `completed` or `failed`.
    pub result: String,
    pub previous_status: Option<String>,
    pub current_status: Option<String>,
    pub duration_ms: Option<u64>,
    pub message: Option<String>,
}

/// Query of the service list.
#[derive(Debug, Clone)]
pub struct ListServicesQuery {
    /// Only services in this state.
    pub status: Option<String>,
    /// At most this many services.
    pub limit: usize,
    /// Skip this many services.
    pub offset: usize,
}

/// Page size of the service list, when the query does not say.
pub fn default_limit() -> (r: usize)
    ensures
        r == 100,
{
    100
}

/// One service of the service list.
#[derive(Debug, Clone)]
pub struct ServiceInfo {
    pub name: String,
    pub status: String,
    pub description: Option<String>,
}

/// A page of the service list.
#[derive(Debug, Clone)]
pub struct ServicesListData {
    pub services: Vec<ServiceInfo>,
    /// Number of services that passed the filter, over all pages.
    pub total: usize,
    pub limit: usize,
    pub offset: usize,
}

/// Detail of one service.
#[derive(Debug, Clone)]
pub struct ServiceDetailData {
    pub name: String,
    pub status: String,
    pub description: Option<String>,
}

/// Answer to a start, stop or restart request.
#[derive(Debug, Clone)]
pub struct ServiceOperationData {
    pub service: String,
    pub action: String,
    pub success: bool,
    pub previous_state: Option<String>,
    pub current_state: String,
    pub message: Option<String>,
}

/// A value in the details of an error response.
#[derive(Debug, Clone)]
pub enum DetailValue {
    Text(String),
    Number(u64),
}

/// Mathematical value of a [`DetailValue`].
pub enum DetailModel {
    Text(Seq<char>),
    Number(u64),
}

impl View for DetailValue {
    type V = DetailModel;

    open spec fn view(&self) -> DetailModel {
        match self {
            DetailValue::Text(s) => DetailModel::Text(s@),
            DetailValue::Number(n) => DetailModel::Number(*n),
        }
    }
}

/// Context fields of an error response, by key.
#[derive(Debug, Clone)]
pub struct ErrorDetails {
    pub fields: Vec<(String, DetailValue)>,
}

/// The views of detail fields.
pub open spec fn field_views(v: Seq<(String, DetailValue)>) -> Seq<(Seq<char>, DetailModel)> {
    v.map_values(|f: (String, DetailValue)| (f.0@, f.1@))
}

impl ErrorDetails {
    /// No fields.
    pub fn new() -> (r: ErrorDetails)
        ensures
            r.fields@.len() == 0,
    {
        ErrorDetails { fields: Vec::new() }
    }

    /// The details with a field set, replacing an earlier value of the key.
    pub fn with_field(self, key: &str, value: DetailValue) -> (r: ErrorDetails)
        ensures
            (exists|i: int|
                0 <= i < self.fields@.len() && self.fields@[i].0@ == key@ && field_views(r.fields@)
                    == field_views(self.fields@).update(i, (key@, value@)))
                || ((forall|i: int| 0 <= i < self.fields@.len() ==> self.fields@[i].0@ != key@)
                && field_views(r.fields@) == field_views(self.fields@).push((key@, value@))),
    {
        let mut fields = self.fields;
        let mut i: usize = 0;
        while i < fields.len()
            invariant
                i <= fields@.len(),
                fields@ == self.fields@,
                forall|j: int| 0 <= j < i ==> fields@[j].0@ != key@,
            decreases fields@.len() - i,
        {
            if str_eq(fields[i].0.as_str(), key) {
                let ghost before = fields@;
                let k = fields[i].0.clone();
                let ghost entry = (k, value);
                fields[i] = (k, value);
                proof {
                    assert(fields@ == before.update(i as int, entry));
                    assert(field_views(fields@) =~= field_views(before).update(i as int, (key@, entry.1@)));
                }
                return ErrorDetails { fields };
            }
            i = i + 1;
        }
        let ghost before = fields@;
        let ghost vv = value@;
        fields.push((String::from_str(key), value));
        proof {
            assert(field_views(fields@) =~= field_views(before).push((key@, vv)));
        }
        ErrorDetails { fields }
    }
}

impl Default for ErrorDetails {
    fn default() -> (r: ErrorDetails)
        ensures
            r.fields@.len() == 0,
    {
        ErrorDetails::new()
    }
}

/// The error part of a response.
#[derive(Debug, Clone)]
pub struct ErrorResponse {
    pub code: ErrorCode,
    pub message: String,
    pub details: Option<ErrorDetails>,
}

/// The detail fields that an error response carries.
pub open spec fn error_details(e: ShikiError) -> Option<Seq<(Seq<char>, DetailModel)>> {
    match e {
        ShikiError::ServiceNotFound { service } => Some(
            seq![
                ("service"@, DetailModel::Text(service@)),
                (
                    "suggestion"@,
                    DetailModel::Text("Check if the service is installed and the name is correct"@),
                ),
            ],
        ),
        ShikiError::ServiceDenied { service, reason } => Some(
            seq![("service"@, DetailModel::Text(service@)), ("reason"@, DetailModel::Text(reason@))],
        ),
        ShikiError::Timeout { operation, seconds } => Some(
            seq![
                ("operation"@, DetailModel::Text(operation@)),
                ("timeout_seconds"@, DetailModel::Number(seconds)),
            ],
        ),
        ShikiError::Connection { target } => Some(seq![("target"@, DetailModel::Text(target@))]),
        _ => None,
    }
}

fn text(s: &str) -> (r: DetailValue)
    ensures
        r@ == DetailModel::Text(s@),
{
    DetailValue::Text(String::from_str(s))
}

fn two_fields(k1: &str, v1: DetailValue, k2: &str, v2: DetailValue) -> (r: ErrorDetails)
    ensures
        field_views(r.fields@) == seq![(k1@, v1@), (k2@, v2@)],
{
    let ghost m1 = v1@;
    let ghost m2 = v2@;
    let mut fields: Vec<(String, DetailValue)> = Vec::new();
    fields.push((String::from_str(k1), v1));
    fields.push((String::from_str(k2), v2));
    assert(field_views(fields@) =~= seq![(k1@, m1), (k2@, m2)]);
    ErrorDetails { fields }
}

impl ErrorResponse {
    /// An error response without details.
    pub fn new(code: ErrorCode, message: &str) -> (r: ErrorResponse)
        ensures
            r.code == code,
            r.message@ == message@,
            r.details is None,
    {
        ErrorResponse { code, message: String::from_str(message), details: None }
    }

    /// An error response with details.
    pub fn with_details(code: ErrorCode, message: &str, details: ErrorDetails) -> (r: ErrorResponse)
        ensures
            r.code == code,
            r.message@ == message@,
            r.details == Some(details),
    {
        ErrorResponse { code, message: String::from_str(message), details: Some(details) }
    }

    /// The error response of an error: its code, its text, and the context
    /// fields of the kinds of error that have them.
    pub fn from_error(error: &ShikiError) -> (r: ErrorResponse)
        ensures
            r.code == error_code_of(*error),
            r.message@ == error_text(*error),
            match r.details {
                Some(d) => error_details(*error) == Some(field_views(d.fields@)),
                None => error_details(*error) is None,
            },
    {
        let code = error.code();
        let message = error.to_string();
        let details = match error {
            ShikiError::ServiceNotFound { service } => Some(
                two_fields(
                    "service",
                    text(service.as_str()),
                    "suggestion",
                    text("Check if the service is installed and the name is correct"),
                ),
            ),
            ShikiError::ServiceDenied { service, reason } => Some(
                two_fields("service", text(service.as_str()), "reason", text(reason.as_str())),
            ),
            ShikiError::Timeout { operation, seconds } => Some(
                two_fields(
                    "operation",
                    text(operation.as_str()),
                    "timeout_seconds",
                    DetailValue::Number(*seconds),
                ),
            ),
            ShikiError::Connection { target } => {
                let ghost t = target@;
                let mut fields: Vec<(String, DetailValue)> = Vec::new();
                fields.push((String::from_str("target"), text(target.as_str())));
                assert(field_views(fields@) =~= seq![("target"@, DetailModel::Text(t))]);
                Some(ErrorDetails { fields })
            },
            _ => None,
        };
        ErrorResponse { code, message, details }
    }
}

/// The HTTP status of an operation that ended in an error: 404 for an
/// unknown service, 403 for a denied one, 504 for a deadline, 500 otherwise.
pub open spec fn operation_error_status(e: ShikiError) -> u16 {
    match e {
        ShikiError::ServiceNotFound { .. } => 404,
        ShikiError::ServiceDenied { .. } => 403,
        ShikiError::Timeout { .. } => 504,
        _ => 500,
    }
}

/// The HTTP status of an operation that ended in an error.
pub fn operation_status(e: &ShikiError) -> (r: u16)
    ensures
        r == operation_error_status(*e),
{
    match e {
        ShikiError::ServiceNotFound { .. } => 404,
        ShikiError::ServiceDenied { .. } => 403,
        ShikiError::Timeout { .. } => 504,
        _ => 500,
    }
}

/// Admission of a notify request: the action token must name an action,
/// ignoring case (else an invalid request, answered with 400), and the
/// backend must control the service (else not found, answered with 404).
pub fn admit_notify(controller: &ServiceController, request: &NotifyRequest) -> (r: Result<
    ServiceAction,
    ShikiError,
>)
    ensures
        action_named(lower_of(request.action@)) is None ==> (r matches Err(e) && e matches ShikiError::InvalidRequest { message }
            && message@ == "Invalid action: "@ + request.action@),
        action_named(lower_of(request.action@)) matches Some(a) ==> if backend_serves(
            controller.backend,
            request.service@,
        ) {
            r == Ok::<ServiceAction, ShikiError>(a)
        } else {
            r matches Err(e) && e matches ShikiError::ServiceNotFound { service } && service@
                == request.service@
        },
{
    let action = match ServiceAction::parse(request.action.as_str()) {
        Some(a) => a,
        None => {
            return Err(
                ShikiError::InvalidRequest {
                    message: String::from_str("Invalid action: ").concat(request.action.as_str()),
                },
            );
        },
    };
    if !controller.supports_service(request.service.as_str()) {
        return Err(ShikiError::ServiceNotFound { service: request.service.clone() });
    }
    Ok(action)
}

/// `completed` for a successful operation, `failed` otherwise.
pub open spec fn notify_result_text(success: bool) -> Seq<char> {
    if success {
        "completed"@
    } else {
        "failed"@
    }
}

fn state_name(s: Option<ServiceState>) -> (r: Option<String>)
    ensures
        opt_view(r) == match s {
            Some(x) => Some(state_text(x)),
            None => None::<Seq<char>>,
        },
{
    match s {
        Some(x) => Some(x.to_string()),
        None => None,
    }
}

fn copy_opt(o: &Option<String>) -> (r: Option<String>)
    ensures
        r == *o,
{
    match o {
        Some(s) => Some(s.clone()),
        None => None,
    }
}

/// The answer to a notify request whose operation ran to a result. An
/// operation that failed is still answered (with status 200): its result
/// says `failed`.
pub fn notify_response(
    request_id: String,
    request: &NotifyRequest,
    previous: Option<ServiceState>,
    outcome: &ServiceOperationResult,
    duration_ms: u64,
) -> (r: NotifyResponseData)
    ensures
        r.request_id == request_id,
        r.service@ == request.service@,
        r.action@ == request.action@,
        r.result@ == notify_result_text(outcome.success),
        opt_view(r.previous_status) == match previous {
            Some(x) => Some(state_text(x)),
            None => None::<Seq<char>>,
        },
        opt_view(r.current_status) == Some(state_text(outcome.state)),
        r.duration_ms == Some(duration_ms),
        r.message == outcome.message,
{
    NotifyResponseData {
        request_id,
        service: request.service.clone(),
        action: request.action.clone(),
        result: if outcome.success {
            String::from_str("completed")
        } else {
            String::from_str("failed")
        },
        previous_status: state_name(previous),
        current_status: Some(outcome.state.to_string()),
        duration_ms: Some(duration_ms),
        message: copy_opt(&outcome.message),
    }
}

/// The answer to a start, stop or restart request whose operation ran to a result.
pub fn operation_response(
    service: &str,
    action: ServiceAction,
    previous: Option<ServiceState>,
    outcome: &ServiceOperationResult,
) -> (r: ServiceOperationData)
    ensures
        r.service@ == service@,
        r.action@ == action_text(action),
        r.success == outcome.success,
        opt_view(r.previous_state) == match previous {
            Some(x) => Some(state_text(x)),
            None => None::<Seq<char>>,
        },
        r.current_state@ == state_text(outcome.state),
        r.message == outcome.message,
{
    ServiceOperationData {
        service: String::from_str(service),
        action: action.to_string(),
        success: outcome.success,
        previous_state: state_name(previous),
        current_state: outcome.state.to_string(),
        message: copy_opt(&outcome.message),
    }
}

/// The list entry of a service status.
pub fn service_info(status: &ServiceStatus) -> (r: ServiceInfo)
    ensures
        r.name == status.name,
        r.status@ == state_text(status.state),
        r.description == status.description,
{
    ServiceInfo {
        name: status.name.clone(),
        status: status.state.to_string(),
        description: copy_opt(&status.description),
    }
}

/// The detail of a service status.
pub fn service_detail(status: &ServiceStatus) -> (r: ServiceDetailData)
    ensures
        r.name == status.name,
        r.status@ == state_text(status.state),
        r.description == status.description,
{
    ServiceDetailData {
        name: status.name.clone(),
        status: status.state.to_string(),
        description: copy_opt(&status.description),
    }
}

/// The entries of `infos` whose status is `filter` (all of them without a filter).
pub open spec fn filtered(infos: Seq<ServiceInfo>, filter: Option<String>) -> Seq<ServiceInfo>
    decreases infos.len(),
{
    if infos.len() == 0 {
        Seq::empty()
    } else {
        let rest = filtered(infos.drop_last(), filter);
        match filter {
            Some(f) => if infos.last().status@ == f@ {
                rest.push(infos.last())
            } else {
                rest
            },
            None => rest.push(infos.last()),
        }
    }
}

/// The page of `s` that skips `offset` entries and keeps at most `limit`.
pub open spec fn page_of(s: Seq<ServiceInfo>, offset: nat, limit: nat) -> Seq<ServiceInfo> {
    if offset >= s.len() {
        Seq::empty()
    } else if offset + limit >= s.len() {
        s.subrange(offset as int, s.len() as int)
    } else {
        s.subrange(offset as int, (offset + limit) as int)
    }
}

/// Filters the service list by status and cuts the requested page; the
/// total counts the services that passed the filter.
pub fn page_services(infos: Vec<ServiceInfo>, query: &ListServicesQuery) -> (r: ServicesListData)
    ensures
        r.services@ == page_of(filtered(infos@, query.status), query.offset as nat, query.limit as nat),
        r.total == filtered(infos@, query.status).len(),
        r.limit == query.limit,
        r.offset == query.offset,
{
    let ghost all = infos@;
    let mut rest = infos;
    let mut kept: Vec<ServiceInfo> = Vec::new();
    let ghost mut i: int = 0;
    while rest.len() > 0
        invariant
            0 <= i <= all.len(),
            rest@ == all.skip(i),
            kept@ == filtered(all.take(i), query.status),
        decreases rest@.len(),
    {
        let item = rest.remove(0);
        proof {
            assert(all.take(i + 1).drop_last() =~= all.take(i));
            assert(all.take(i + 1).last() == item);
            assert(rest@ =~= all.skip(i + 1));
        }
        let keep = match &query.status {
            Some(f) => str_eq(item.status.as_str(), f.as_str()),
            None => true,
        };
        if keep {
            kept.push(item);
        }
        proof {
            i = i + 1;
        }
    }
    proof {
        assert(all.take(i) =~= all);
    }
    let total = kept.len();
    let mut page = if query.offset <= kept.len() {
        kept.split_off(query.offset)
    } else {
        Vec::new()
    };
    page.truncate(query.limit);
    proof {
        let f = filtered(all, query.status);
        if query.offset < f.len() {
            if query.offset + query.limit >= f.len() {
                assert(page@ =~= f.subrange(query.offset as int, f.len() as int));
            } else {
                assert(page@ =~= f.subrange(query.offset as int, query.offset + query.limit));
            }
        } else {
            assert(page@ =~= Seq::<ServiceInfo>::empty());
        }
    }
    ServicesListData { services: page, total, limit: query.limit, offset: query.offset }
}

} // verus!
