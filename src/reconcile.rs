//! Reconcile-then-act-then-verify, as a state machine.
//!
//! An [`Operation`] decides, from what its previous step observed, which
//! command a backend runs next: an existence check, a state probe, or the
//! primitive of an action. The caller runs the command and hands the
//! outcome back through [`Operation::advance`] until the machine answers
//! with [`Step::Done`]. A [`StatusQuery`] does the same for a status report.
use vstd::prelude::*;
use crate::error::ShikiError;
use crate::service::{
    goal_state, opt_view, OperationModel, ServiceAction, ServiceOperationResult, ServiceState,
    ServiceStatus, StatusModel,
};
use crate::text::{contains, contains_str, str_eq, strip_prefix, trim, trimmed, without_prefix};

verus! {

/// The backend that runs the commands of a machine.
#[derive(Debug, Clone, Copy, PartialEq, Eq, Structural)]
pub enum BackendKind {
    /// User-defined commands; a status command's exit code gives the state.
    Exec,
    /// The native service manager; `is-active` output gives the state.
    Systemd,
}

/// What a command reported when it ran to completion.
#[derive(Debug, Clone)]
pub struct CommandOutput {
    /// Whether the command exited successfully.
    pub success: bool,
    /// Its standard output, followed by its standard error when there is any.
    pub output: String,
}

/// The outcome of running one step: the command's report, or the
/// infrastructure failure (cannot spawn, deadline exceeded) that stopped it.
pub type Outcome = core::result::Result<CommandOutput, ShikiError>;

/// Where an operation stands.
#[derive(Debug, Clone, Copy, PartialEq, Eq, Structural)]
pub enum Phase {
    /// Waiting for the existence check.
    Exists,
    /// Waiting for the probe of the current state.
    Check,
    /// Waiting for the action's primitive.
    Act,
    /// Waiting for the probe that verifies the action's effect.
    Verify,
    /// Finished.
    Done,
}

/// A start, stop or restart of one service, in progress.
#[derive(Debug)]
pub struct Operation {
    /// The service operated on.
    pub service: String,
    /// The action requested.
    pub action: ServiceAction,
    /// The backend that runs the commands.
    pub kind: BackendKind,
    /// A restart carried out as stop-then-start, for want of a restart primitive.
    pub fallback: bool,
    /// The primitive being reconciled now (the stop, then the start, of a fallback restart).
    pub leg: ServiceAction,
    /// Where the operation stands.
    pub phase: Phase,
}

/// The next thing to do.
#[derive(Debug)]
pub enum Step {
    /// Ask the service manager whether the unit exists.
    CheckExists,
    /// Query the current state of the service.
    Probe,
    /// Run the primitive of this action.
    Run(ServiceAction),
    /// The operation is over, with this result.
    Done(core::result::Result<ServiceOperationResult, ShikiError>),
}

/// Mathematical value of a [`Step`].
pub enum StepModel {
    CheckExists,
    Probe,
    Run(ServiceAction),
    Done(core::result::Result<OperationModel, ShikiError>),
}

impl View for Step {
    type V = StepModel;

    open spec fn view(&self) -> StepModel {
        match self {
            Step::CheckExists => StepModel::CheckExists,
            Step::Probe => StepModel::Probe,
            Step::Run(a) => StepModel::Run(*a),
            Step::Done(Ok(r)) => StepModel::Done(Ok(r@)),
            Step::Done(Err(e)) => StepModel::Done(Err(*e)),
        }
    }
}

/// The state that `systemctl is-active` reports.
pub open spec fn is_active_state(success: bool, out: Seq<char>) -> ServiceState {
    let t = trimmed(out);
    if t == "active"@ || t == "activating"@ {
        ServiceState::Running
    } else if t == "inactive"@ || t == "deactivating"@ {
        ServiceState::Stopped
    } else if t == "failed"@ {
        ServiceState::Failed
    } else if success {
        ServiceState::Running
    } else {
        ServiceState::Unknown
    }
}

/// The state a probe reports: for the exec backend, exit status 0 means
/// running and any other means stopped.
pub open spec fn probe_state(kind: BackendKind, out: CommandOutput) -> ServiceState {
    match kind {
        BackendKind::Exec => if out.success {
            ServiceState::Running
        } else {
            ServiceState::Stopped
        },
        BackendKind::Systemd => is_active_state(out.success, out.output@),
    }
}

/// Whether a `LoadState` query says the unit does not exist.
pub open spec fn load_state_missing(out: Seq<char>) -> bool {
    contains(out, "LoadState=not-found"@)
}

/// The message of an action whose command succeeded but whose goal was not reached.
pub open spec fn unsettled_message(a: ServiceAction) -> Seq<char> {
    match a {
        ServiceAction::Start => "Service did not start properly"@,
        ServiceAction::Stop => "Service did not stop properly"@,
        ServiceAction::Restart => "Service did not restart properly"@,
    }
}

/// The result reported for an operation.
pub open spec fn result_model(
    op: Operation,
    success: bool,
    state: ServiceState,
    message: Option<Seq<char>>,
) -> OperationModel {
    OperationModel { service: op.service@, action: op.action, success, state, message }
}

/// The operation finished with `m`.
pub open spec fn finished(op: Operation, m: core::result::Result<OperationModel, ShikiError>) -> (
    Operation,
    StepModel,
) {
    (Operation { phase: Phase::Done, ..op }, StepModel::Done(m))
}

/// Begins the current leg: probe first, except for a restart primitive,
/// which runs directly.
pub open spec fn leg_begin(op: Operation) -> (Operation, StepModel) {
    if op.leg == ServiceAction::Restart {
        (Operation { phase: Phase::Act, ..op }, StepModel::Run(ServiceAction::Restart))
    } else {
        (Operation { phase: Phase::Check, ..op }, StepModel::Probe)
    }
}

/// The current leg ended with `(success, state, message)`. The stop leg of a
/// fallback restart goes on to the start leg when it succeeded and ends the
/// operation when it failed; any other leg's result is the operation's.
pub open spec fn leg_end(
    op: Operation,
    success: bool,
    state: ServiceState,
    message: Option<Seq<char>>,
) -> (Operation, StepModel) {
    if op.fallback && op.leg == ServiceAction::Stop && success {
        leg_begin(Operation { leg: ServiceAction::Start, ..op })
    } else {
        finished(op, Ok(result_model(op, success, state, message)))
    }
}

/// What an operation does with the outcome of its last step (a finished
/// operation takes no further outcome).
pub open spec fn spec_advance(op: Operation, o: Outcome) -> (Operation, StepModel) {
    match o {
        Err(e) => if op.phase == Phase::Exists {
            finished(op, Err(ShikiError::ServiceNotFound { service: op.service }))
        } else {
            finished(op, Err(e))
        },
        Ok(out) => match op.phase {
            Phase::Exists => if load_state_missing(out.output@) {
                finished(op, Err(ShikiError::ServiceNotFound { service: op.service }))
            } else {
                leg_begin(op)
            },
            Phase::Check => if probe_state(op.kind, out) == goal_state(op.leg) {
                leg_end(op, true, goal_state(op.leg), None)
            } else {
                (Operation { phase: Phase::Act, ..op }, StepModel::Run(op.leg))
            },
            Phase::Act => if !out.success {
                leg_end(op, false, ServiceState::Failed, Some(out.output@))
            } else {
                (Operation { phase: Phase::Verify, ..op }, StepModel::Probe)
            },
            Phase::Verify => if probe_state(op.kind, out) == goal_state(op.leg) {
                leg_end(op, true, goal_state(op.leg), None)
            } else {
                leg_end(op, false, probe_state(op.kind, out), Some(unsettled_message(op.leg)))
            },
            Phase::Done => arbitrary(),
        },
    }
}

/// How an operation starts. A restart without a restart primitive is
/// carried out as stop-then-start; the service manager's operations first
/// check that the unit exists.
pub open spec fn spec_begin(
    service: String,
    action: ServiceAction,
    kind: BackendKind,
    has_restart: bool,
) -> (Operation, StepModel) {
    let fallback = action == ServiceAction::Restart && kind == BackendKind::Exec && !has_restart;
    let op = Operation {
        service,
        action,
        kind,
        fallback,
        leg: if fallback {
            ServiceAction::Stop
        } else {
            action
        },
        phase: Phase::Exists,
    };
    if kind == BackendKind::Systemd {
        (op, StepModel::CheckExists)
    } else {
        leg_begin(op)
    }
}

fn probe(kind: BackendKind, out: &CommandOutput) -> (r: ServiceState)
    ensures
        r == probe_state(kind, *out),
{
    match kind {
        BackendKind::Exec => if out.success {
            ServiceState::Running
        } else {
            ServiceState::Stopped
        },
        BackendKind::Systemd => state_from_is_active(out.success, out.output.as_str()),
    }
}

/// Maps the output of `systemctl is-active`: active or activating is
/// running, inactive or deactivating is stopped, failed is failed, and
/// anything else is running when the query succeeded and unknown otherwise.
pub fn state_from_is_active(success: bool, out: &str) -> (r: ServiceState)
    ensures
        r == is_active_state(success, out@),
{
    let t = trim(out);
    if str_eq(t, "active") || str_eq(t, "activating") {
        ServiceState::Running
    } else if str_eq(t, "inactive") || str_eq(t, "deactivating") {
        ServiceState::Stopped
    } else if str_eq(t, "failed") {
        ServiceState::Failed
    } else if success {
        ServiceState::Running
    } else {
        ServiceState::Unknown
    }
}

/// Whether the output of a `LoadState` query says the unit does not exist.
pub fn is_load_state_missing(out: &str) -> (r: bool)
    ensures
        r == load_state_missing(out@),
{
    contains_str(out, "LoadState=not-found")
}

fn unsettled(a: ServiceAction) -> (r: String)
    ensures
        r@ == unsettled_message(a),
{
    match a {
        ServiceAction::Start => String::from_str("Service did not start properly"),
        ServiceAction::Stop => String::from_str("Service did not stop properly"),
        ServiceAction::Restart => String::from_str("Service did not restart properly"),
    }
}

impl Operation {
    /// Begins an operation and gives its first step. `has_restart` tells
    /// whether the backend has a restart primitive for the service.
    pub fn begin(service: &str, action: ServiceAction, kind: BackendKind, has_restart: bool) -> (r: (
        Operation,
        Step,
    ))
        ensures
            r.0.service@ == service@,
            (r.0, r.1@) == spec_begin(r.0.service, action, kind, has_restart),
    {
        let fallback = action == ServiceAction::Restart && kind == BackendKind::Exec && !has_restart;
        let mut op = Operation {
            service: String::from_str(service),
            action,
            kind,
            fallback,
            leg: if fallback {
                ServiceAction::Stop
            } else {
                action
            },
            phase: Phase::Exists,
        };
        if kind == BackendKind::Systemd {
            (op, Step::CheckExists)
        } else {
            let step = op.begin_leg();
            (op, step)
        }
    }

    fn begin_leg(&mut self) -> (step: Step)
        ensures
            (*final(self), step@) == leg_begin(*old(self)),
    {
        if self.leg == ServiceAction::Restart {
            self.phase = Phase::Act;
            Step::Run(ServiceAction::Restart)
        } else {
            self.phase = Phase::Check;
            Step::Probe
        }
    }

    fn finish(&mut self, r: core::result::Result<ServiceOperationResult, ShikiError>) -> (step: Step)
        ensures
            (*final(self), step@) == finished(*old(self), match r {
                Ok(x) => Ok(x@),
                Err(e) => Err(e),
            }),
    {
        self.phase = Phase::Done;
        Step::Done(r)
    }

    fn end_leg(&mut self, success: bool, state: ServiceState, message: Option<String>) -> (step: Step)
        ensures
            (*final(self), step@) == leg_end(*old(self), success, state, opt_view(message)),
    {
        if self.fallback && self.leg == ServiceAction::Stop && success {
            self.leg = ServiceAction::Start;
            self.begin_leg()
        } else {
            let r = ServiceOperationResult {
                service: self.service.clone(),
                action: self.action,
                success,
                state,
                message,
            };
            self.finish(Ok(r))
        }
    }

    /// Takes the outcome of the last step and gives the next one.
    pub fn advance(&mut self, o: Outcome) -> (step: Step)
        requires
            old(self).phase != Phase::Done,
        ensures
            (*final(self), step@) == spec_advance(*old(self), o),
    {
        match o {
            Err(e) => if self.phase == Phase::Exists {
                let service = self.service.clone();
                self.finish(Err(ShikiError::ServiceNotFound { service }))
            } else {
                self.finish(Err(e))
            },
            Ok(out) => match self.phase {
                Phase::Exists => if is_load_state_missing(out.output.as_str()) {
                    let service = self.service.clone();
                    self.finish(Err(ShikiError::ServiceNotFound { service }))
                } else {
                    self.begin_leg()
                },
                Phase::Check => {
                    let goal = self.leg.goal();
                    if probe(self.kind, &out) == goal {
                        self.end_leg(true, goal, None)
                    } else {
                        self.phase = Phase::Act;
                        Step::Run(self.leg)
                    }
                },
                Phase::Act => if !out.success {
                    self.end_leg(false, ServiceState::Failed, Some(out.output))
                } else {
                    self.phase = Phase::Verify;
                    Step::Probe
                },
                Phase::Verify => {
                    let goal = self.leg.goal();
                    let st = probe(self.kind, &out);
                    if st == goal {
                        self.end_leg(true, goal, None)
                    } else {
                        let m = unsettled(self.leg);
                        self.end_leg(false, st, Some(m))
                    }
                },
                Phase::Done => {
                    self.finish(Err(ShikiError::backend("operation already finished")))
                },
            },
        }
    }

    /// Whether the operation has finished.
    pub fn is_done(&self) -> (r: bool)
        ensures
            r == (self.phase == Phase::Done),
    {
        self.phase == Phase::Done
    }
}

/// Where a status query stands.
#[derive(Debug, Clone, Copy, PartialEq, Eq, Structural)]
pub enum QueryPhase {
    /// Waiting for the existence check.
    Exists,
    /// Waiting for the state probe.
    Probe,
    /// Waiting for the description query.
    Describe,
    /// Finished.
    Done,
}

/// A status query of one service, in progress.
#[derive(Debug)]
pub struct StatusQuery {
    /// The service queried.
    pub service: String,
    /// The backend that runs the commands.
    pub kind: BackendKind,
    /// Where the query stands.
    pub phase: QueryPhase,
    /// The state probed so far.
    pub state: ServiceState,
}

/// The next thing to do for a status query.
#[derive(Debug)]
pub enum QueryStep {
    /// Ask the service manager whether the unit exists.
    CheckExists,
    /// Query the current state of the service.
    Probe,
    /// Ask the service manager for the unit's description.
    Describe,
    /// The query is over, with this result.
    Done(core::result::Result<ServiceStatus, ShikiError>),
}

/// Mathematical value of a [`QueryStep`].
pub enum QueryStepModel {
    CheckExists,
    Probe,
    Describe,
    Done(core::result::Result<StatusModel, ShikiError>),
}

impl View for QueryStep {
    type V = QueryStepModel;

    open spec fn view(&self) -> QueryStepModel {
        match self {
            QueryStep::CheckExists => QueryStepModel::CheckExists,
            QueryStep::Probe => QueryStepModel::Probe,
            QueryStep::Describe => QueryStepModel::Describe,
            QueryStep::Done(Ok(r)) => QueryStepModel::Done(Ok(r@)),
            QueryStep::Done(Err(e)) => QueryStepModel::Done(Err(*e)),
        }
    }
}

/// The description in the output of a `Description` query.
pub open spec fn description_of(out: Seq<char>) -> Option<Seq<char>> {
    without_prefix(trimmed(out), "Description="@)
}

/// How a status query starts.
pub open spec fn spec_query_begin(service: String, kind: BackendKind) -> (StatusQuery, QueryStepModel) {
    if kind == BackendKind::Systemd {
        (
            StatusQuery { service, kind, phase: QueryPhase::Exists, state: ServiceState::Unknown },
            QueryStepModel::CheckExists,
        )
    } else {
        (
            StatusQuery { service, kind, phase: QueryPhase::Probe, state: ServiceState::Unknown },
            QueryStepModel::Probe,
        )
    }
}

/// The query finished with `m`.
pub open spec fn query_finished(q: StatusQuery, m: core::result::Result<StatusModel, ShikiError>) -> (
    StatusQuery,
    QueryStepModel,
) {
    (StatusQuery { phase: QueryPhase::Done, ..q }, QueryStepModel::Done(m))
}

/// What a status query does with the outcome of its last step. The exec
/// backend reports the probed state; the service manager's query also
/// reports the unit's description.
pub open spec fn spec_query_advance(q: StatusQuery, o: Outcome) -> (StatusQuery, QueryStepModel) {
    match o {
        Err(e) => if q.phase == QueryPhase::Exists {
            query_finished(q, Err(ShikiError::ServiceNotFound { service: q.service }))
        } else {
            query_finished(q, Err(e))
        },
        Ok(out) => match q.phase {
            QueryPhase::Exists => if load_state_missing(out.output@) {
                query_finished(q, Err(ShikiError::ServiceNotFound { service: q.service }))
            } else {
                (StatusQuery { phase: QueryPhase::Probe, ..q }, QueryStepModel::Probe)
            },
            QueryPhase::Probe => if q.kind == BackendKind::Exec {
                query_finished(
                    q,
                    Ok(
                        StatusModel {
                            name: q.service@,
                            state: probe_state(q.kind, out),
                            description: None,
                        },
                    ),
                )
            } else {
                (
                    StatusQuery {
                        phase: QueryPhase::Describe,
                        state: probe_state(q.kind, out),
                        ..q
                    },
                    QueryStepModel::Describe,
                )
            },
            QueryPhase::Describe => query_finished(
                q,
                Ok(
                    StatusModel {
                        name: q.service@,
                        state: q.state,
                        description: description_of(out.output@),
                    },
                ),
            ),
            QueryPhase::Done => arbitrary(),
        },
    }
}

/// The description in the output of `systemctl show --property=Description`.
pub fn parse_description(out: &str) -> (r: Option<String>)
    ensures
        opt_view(r) == description_of(out@),
{
    match strip_prefix(trim(out), "Description=") {
        Some(d) => Some(String::from_str(d)),
        None => None,
    }
}

impl StatusQuery {
    /// Begins a status query and gives its first step.
    pub fn begin(service: &str, kind: BackendKind) -> (r: (StatusQuery, QueryStep))
        ensures
            r.0.service@ == service@,
            (r.0, r.1@) == spec_query_begin(r.0.service, kind),
    {
        let service = String::from_str(service);
        if kind == BackendKind::Systemd {
            (
                StatusQuery { service, kind, phase: QueryPhase::Exists, state: ServiceState::Unknown },
                QueryStep::CheckExists,
            )
        } else {
            (
                StatusQuery { service, kind, phase: QueryPhase::Probe, state: ServiceState::Unknown },
                QueryStep::Probe,
            )
        }
    }

    fn finish(&mut self, r: core::result::Result<ServiceStatus, ShikiError>) -> (step: QueryStep)
        ensures
            (*final(self), step@) == query_finished(*old(self), match r {
                Ok(x) => Ok(x@),
                Err(e) => Err(e),
            }),
    {
        self.phase = QueryPhase::Done;
        QueryStep::Done(r)
    }

    /// Takes the outcome of the last step and gives the next one.
    pub fn advance(&mut self, o: Outcome) -> (step: QueryStep)
        requires
            old(self).phase != QueryPhase::Done,
        ensures
            (*final(self), step@) == spec_query_advance(*old(self), o),
    {
        match o {
            Err(e) => if self.phase == QueryPhase::Exists {
                let service = self.service.clone();
                self.finish(Err(ShikiError::ServiceNotFound { service }))
            } else {
                self.finish(Err(e))
            },
            Ok(out) => match self.phase {
                QueryPhase::Exists => if is_load_state_missing(out.output.as_str()) {
                    let service = self.service.clone();
                    self.finish(Err(ShikiError::ServiceNotFound { service }))
                } else {
                    self.phase = QueryPhase::Probe;
                    QueryStep::Probe
                },
                QueryPhase::Probe => {
                    let st = probe(self.kind, &out);
                    if self.kind == BackendKind::Exec {
                        let r = ServiceStatus { name: self.service.clone(), state: st, description: None };
                        self.finish(Ok(r))
                    } else {
                        self.state = st;
                        self.phase = QueryPhase::Describe;
                        QueryStep::Describe
                    }
                },
                QueryPhase::Describe => {
                    let d = parse_description(out.output.as_str());
                    let r = ServiceStatus { name: self.service.clone(), state: self.state, description: d };
                    self.finish(Ok(r))
                },
                QueryPhase::Done => self.finish(Err(ShikiError::backend("query already finished"))),
            },
        }
    }

    /// Whether the query has finished.
    pub fn is_done(&self) -> (r: bool)
        ensures
            r == (self.phase == QueryPhase::Done),
    {
        self.phase == QueryPhase::Done
    }
}

/// Idempotence: starting a service that already runs, or stopping one that
/// is already stopped, finishes at the first probe of its state,
/// successfully and in the goal state, without running the action's command.
pub proof fn lemma_goal_already_met(
    service: String,
    action: ServiceAction,
    kind: BackendKind,
    has_restart: bool,
    exists: CommandOutput,
    probed: CommandOutput,
)
    requires
        action != ServiceAction::Restart,
        kind == BackendKind::Systemd ==> !load_state_missing(exists.output@),
        probe_state(kind, probed) == goal_state(action),
    ensures
        ({
            let (op0, s0) = spec_begin(service, action, kind, has_restart);
            let (op1, s1) = if kind == BackendKind::Systemd {
                spec_advance(op0, Ok(exists))
            } else {
                (op0, s0)
            };
            &&& s1 == StepModel::Probe
            &&& spec_advance(op1, Ok(probed)).1 == StepModel::Done(
                Ok(
                    OperationModel {
                        service: service@,
                        action,
                        success: true,
                        state: goal_state(action),
                        message: None,
                    },
                ),
            )
        }),
{
}

/// A restart by the exec backend of a service without a restart command
/// begins as a stop: its first step probes the state for the stop leg.
pub proof fn lemma_restart_without_primitive_stops_first(service: String)
    ensures
        ({
            let (op, s) = spec_begin(service, ServiceAction::Restart, BackendKind::Exec, false);
            &&& op.fallback
            &&& op.leg == ServiceAction::Stop
            &&& s == StepModel::Probe
        }),
{
}

/// Whether an operation is in one of the phases of a leg.
pub open spec fn in_leg(op: Operation) -> bool {
    op.phase == Phase::Check || op.phase == Phase::Act || op.phase == Phase::Verify
}

/// The stop leg of a stop-then-start restart: when it ends successfully
/// (the service was stopped, or already was) the start leg begins with its
/// probe; when it ends in failure the restart ends unsuccessfully, and the
/// start command is never run.
pub proof fn lemma_fallback_stop_leg(op: Operation, o: Outcome)
    requires
        op.fallback,
        op.leg == ServiceAction::Stop,
        in_leg(op),
    ensures
        ({
            let (next, s) = spec_advance(op, o);
            &&& s != StepModel::Run(ServiceAction::Start)
            &&& (s matches StepModel::Done(Ok(r)) ==> !r.success)
            &&& (next.leg == ServiceAction::Start ==> s == StepModel::Probe && next.phase == Phase::Check)
        }),
{
}

/// The stop leg of a stop-then-start restart behaves as a plain stop of the
/// service in the same phase: it runs the same commands, and when the plain
/// stop would end successfully (also when the service was already stopped)
/// the restart goes on with the probe of its start leg. Any other end of the
/// plain stop, a failure result or an error, is the restart's end too, with
/// the same state and message under the restart's name.
pub proof fn lemma_fallback_stop_leg_is_plain_stop(op: Operation, o: Outcome)
    requires
        op.fallback,
        op.action == ServiceAction::Restart,
        op.leg == ServiceAction::Stop,
        in_leg(op),
    ensures
        ({
            let plain = Operation { action: ServiceAction::Stop, fallback: false, ..op };
            let (next, s) = spec_advance(op, o);
            let (pnext, ps) = spec_advance(plain, o);
            if ps matches StepModel::Done(Ok(r)) && r.success {
                &&& next.leg == ServiceAction::Start
                &&& next.phase == Phase::Check
                &&& s == StepModel::Probe
            } else {
                &&& s == as_restart(ps)
                &&& next == (Operation { action: ServiceAction::Restart, fallback: true, ..pnext })
            }
        }),
{
}

/// A step relabelled as the step of a restart.
pub open spec fn as_restart(s: StepModel) -> StepModel {
    match s {
        StepModel::Done(Ok(r)) => StepModel::Done(Ok(OperationModel { action: ServiceAction::Restart, ..r })),
        _ => s,
    }
}

/// The start leg of a stop-then-start restart behaves as a plain start of
/// the service in the same phase, and the restart's result is that start's
/// result (its success, state and message) under the restart's name.
pub proof fn lemma_fallback_result_is_start_result(op: Operation, o: Outcome)
    requires
        op.fallback,
        op.action == ServiceAction::Restart,
        op.leg == ServiceAction::Start,
        in_leg(op),
    ensures
        ({
            let plain = Operation { action: ServiceAction::Start, fallback: false, ..op };
            let (next, s) = spec_advance(op, o);
            let (pnext, ps) = spec_advance(plain, o);
            &&& s == as_restart(ps)
            &&& next == (Operation { action: ServiceAction::Restart, fallback: true, ..pnext })
        }),
{
}

/// A command that a backend is asked to run.
#[derive(Debug, Clone, Copy, PartialEq, Eq, Structural)]
pub enum Request {
    /// Check that the unit exists.
    CheckExists,
    /// Query the current state.
    Probe,
    /// Query the description.
    Describe,
    /// Run the primitive of an action.
    Run(ServiceAction),
}

/// The request of a step, if it asks for a command.
pub open spec fn step_request(s: StepModel) -> Option<Request> {
    match s {
        StepModel::CheckExists => Some(Request::CheckExists),
        StepModel::Probe => Some(Request::Probe),
        StepModel::Run(a) => Some(Request::Run(a)),
        StepModel::Done(_) => None,
    }
}

/// The request of a status query's step, if it asks for a command.
pub open spec fn query_step_request(s: QueryStepModel) -> Option<Request> {
    match s {
        QueryStepModel::CheckExists => Some(Request::CheckExists),
        QueryStepModel::Probe => Some(Request::Probe),
        QueryStepModel::Describe => Some(Request::Describe),
        QueryStepModel::Done(_) => None,
    }
}

impl Step {
    /// The command this step asks for, if any.
    pub fn request(&self) -> (r: Option<Request>)
        ensures
            r == step_request(self@),
    {
        match self {
            Step::CheckExists => Some(Request::CheckExists),
            Step::Probe => Some(Request::Probe),
            Step::Run(a) => Some(Request::Run(*a)),
            Step::Done(_) => None,
        }
    }
}

impl QueryStep {
    /// The command this step asks for, if any.
    pub fn request(&self) -> (r: Option<Request>)
        ensures
            r == query_step_request(self@),
    {
        match self {
            QueryStep::CheckExists => Some(Request::CheckExists),
            QueryStep::Probe => Some(Request::Probe),
            QueryStep::Describe => Some(Request::Describe),
            QueryStep::Done(_) => None,
        }
    }
}

/// A command that missed its deadline ends a status query with that
/// timeout error: the query neither waits further nor reports a state.
pub proof fn lemma_status_deadline_is_error(q: StatusQuery, operation: String, seconds: u64)
    requires
        q.phase == QueryPhase::Probe || q.phase == QueryPhase::Describe,
    ensures
        spec_query_advance(q, Err(ShikiError::Timeout { operation, seconds })).1 == QueryStepModel::Done(
            Err(ShikiError::Timeout { operation, seconds }),
        ),
{
}

/// A command that missed its deadline ends an operation with that timeout
/// error, never with a success or failure result, whichever step it was.
pub proof fn lemma_operation_deadline_is_error(op: Operation, operation: String, seconds: u64)
    requires
        in_leg(op),
    ensures
        spec_advance(op, Err(ShikiError::Timeout { operation, seconds })).1 == StepModel::Done(
            Err(ShikiError::Timeout { operation, seconds }),
        ),
{
}

} // verus!
