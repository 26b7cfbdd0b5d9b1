//! The service controller: exactly one backend, chosen once from configuration.
use vstd::prelude::*;
use crate::acl::admits;
use crate::config::{Backend, Config};
use crate::error::ShikiError;
use crate::exec::{exec_plan, ExecBackend, Invocation};
use crate::reconcile::{
    spec_begin, spec_query_begin, BackendKind, Operation, QueryStep, Request, StatusQuery, Step,
};
use crate::service::ServiceAction;
use crate::services::{entry_names, has_name, lookup};
use crate::shell::views;
use crate::systemd::{denial, first_fields, listed_services, listing_args, systemctl_args, SystemdBackend};

verus! {

/// The backend a controller drives.
#[derive(Debug, Clone)]
pub enum ActiveBackend {
    Exec(ExecBackend),
    Systemd(SystemdBackend),
}

/// Whether a backend controls the service named `s`.
pub open spec fn backend_serves(b: ActiveBackend, s: Seq<char>) -> bool {
    match b {
        ActiveBackend::Exec(e) => has_name(e.services@, s),
        ActiveBackend::Systemd(d) => admits(d.acl.denied@, d.acl.allowed@, s),
    }
}

/// The error with which a backend refuses a service it does not control:
/// not found (exec), or denied by the access control lists (service manager).
pub open spec fn refusal(b: ActiveBackend, service: Seq<char>, e: ShikiError) -> bool {
    match b {
        ActiveBackend::Exec(_) => e matches ShikiError::ServiceNotFound { service: s } && s@ == service,
        ActiveBackend::Systemd(_) => denial(service, e),
    }
}

/// How an operation on `service` starts on a backend, when the backend
/// accepts it.
pub open spec fn backend_begin(b: ActiveBackend, service: String, action: ServiceAction) -> (
    Operation,
    crate::reconcile::StepModel,
) {
    match b {
        ActiveBackend::Exec(e) => spec_begin(
            service,
            action,
            BackendKind::Exec,
            lookup(e.services@, service@)->Some_0.restart is Some,
        ),
        ActiveBackend::Systemd(_) => spec_begin(service, action, BackendKind::Systemd, true),
    }
}

/// The kind of a backend.
pub open spec fn backend_kind(b: ActiveBackend) -> BackendKind {
    match b {
        ActiveBackend::Exec(_) => BackendKind::Exec,
        ActiveBackend::Systemd(_) => BackendKind::Systemd,
    }
}

/// What every backend offers: a name, a side-effect-free test of whether
/// it controls a service, and the start of an action on a service.
pub trait ServiceBackend {
    /// Whether the backend controls the service named `s`.
    spec fn serves(&self, s: Seq<char>) -> bool;

    /// The backend's static identifier.
    fn name(&self) -> &'static str;

    /// Whether the backend controls the service; runs no command.
    fn supports_service(&self, service: &str) -> (r: bool)
        ensures
            r == self.serves(service@),
    ;

    /// Begins an action on a service the backend controls.
    fn perform_action(&self, service: &str, action: ServiceAction) -> (r: Result<
        (Operation, Step),
        ShikiError,
    >)
        ensures
            r is Err <==> !self.serves(service@),
            r matches Ok(p) ==> p.0.service@ == service@,
    ;
}

impl ServiceBackend for ExecBackend {
    open spec fn serves(&self, s: Seq<char>) -> bool {
        has_name(self.services@, s)
    }

    fn name(&self) -> &'static str {
        "exec"
    }

    fn supports_service(&self, service: &str) -> (r: bool) {
        self.services.contains_key(service)
    }

    fn perform_action(&self, service: &str, action: ServiceAction) -> (r: Result<
        (Operation, Step),
        ShikiError,
    >) {
        self.begin(service, action)
    }
}

impl ServiceBackend for SystemdBackend {
    open spec fn serves(&self, s: Seq<char>) -> bool {
        admits(self.acl.denied@, self.acl.allowed@, s)
    }

    fn name(&self) -> &'static str {
        "systemd"
    }

    fn supports_service(&self, service: &str) -> (r: bool) {
        self.acl.is_allowed(service)
    }

    fn perform_action(&self, service: &str, action: ServiceAction) -> (r: Result<
        (Operation, Step),
        ShikiError,
    >) {
        self.begin(service, action)
    }
}

/// How a controller lists its services.
#[derive(Debug)]
pub enum ListPlan {
    /// The services are known without running anything.
    Known(Vec<String>),
    /// Run this listing, then hand its output to [`ServiceController::finish_listing`].
    Query(Invocation),
}

/// Routes service operations to the backend chosen by configuration.
#[derive(Debug, Clone)]
pub struct ServiceController {
    /// The active backend.
    pub backend: ActiveBackend,
    /// Which backend the configuration chose.
    pub backend_type: Backend,
}

/// The backend that a configuration selects; the exec backend needs at
/// least one service definition.
pub fn create_backend(config: &Config) -> (r: Result<ActiveBackend, ShikiError>)
    ensures
        r is Err <==> (config.agent.backend == Backend::Exec && config.services@.len() == 0),
        r matches Err(e) ==> e is Config,
        r matches Ok(b) ==> (b is Exec <==> config.agent.backend == Backend::Exec),
{
    let c = ServiceController::from_config(config)?;
    Ok(c.backend)
}

impl ActiveBackend {
    /// The backend's static identifier.
    pub fn name(&self) -> (r: &'static str)
        ensures
            r@ == (match *self {
                ActiveBackend::Exec(_) => "exec"@,
                ActiveBackend::Systemd(_) => "systemd"@,
            }),
    {
        match self {
            ActiveBackend::Exec(e) => e.name(),
            ActiveBackend::Systemd(d) => d.name(),
        }
    }
}

impl ServiceController {
    /// The controller of a configuration: the native service manager by
    /// default, the exec backend when configured, which needs at least one
    /// service definition.
    pub fn from_config(config: &Config) -> (r: Result<ServiceController, ShikiError>)
        ensures
            r is Err <==> (config.agent.backend == Backend::Exec && config.services@.len() == 0),
            r matches Err(e) ==> e is Config,
            r matches Ok(c) ==> c.backend_type == config.agent.backend,
            r matches Ok(c) ==> match c.backend {
                ActiveBackend::Exec(e) => config.agent.backend == Backend::Exec && e.services@
                    == config.services@ && e.default_timeout == config.timeout.service_seconds,
                ActiveBackend::Systemd(d) => config.agent.backend == Backend::Systemd && d.acl.allowed@
                    == config.acl.allowed@ && d.acl.denied@ == config.acl.denied@,
            },
    {
        match config.agent.backend {
            Backend::Systemd => Ok(
                ServiceController {
                    backend: ActiveBackend::Systemd(SystemdBackend::new(config.acl.copy())),
                    backend_type: Backend::Systemd,
                },
            ),
            Backend::Exec => {
                if config.services.is_empty() {
                    return Err(
                        ShikiError::config("Exec backend requires at least one service definition"),
                    );
                }
                Ok(
                    ServiceController {
                        backend: ActiveBackend::Exec(
                            ExecBackend::with_default_timeout(
                                config.services.copy(),
                                config.timeout.service_seconds,
                            ),
                        ),
                        backend_type: Backend::Exec,
                    },
                )
            },
        }
    }

    /// The name of the active backend.
    pub fn backend_name(&self) -> (r: &'static str)
        ensures
            r@ == (match self.backend {
                ActiveBackend::Exec(_) => "exec"@,
                ActiveBackend::Systemd(_) => "systemd"@,
            }),
    {
        match &self.backend {
            ActiveBackend::Exec(e) => e.name(),
            ActiveBackend::Systemd(d) => d.name(),
        }
    }

    /// Which backend the configuration chose.
    pub fn backend_type(&self) -> (r: Backend)
        ensures
            r == self.backend_type,
    {
        self.backend_type
    }

    /// Whether the active backend controls the service.
    pub fn supports_service(&self, service: &str) -> (r: bool)
        ensures
            r == backend_serves(self.backend, service@),
    {
        match &self.backend {
            ActiveBackend::Exec(e) => e.supports_service(service),
            ActiveBackend::Systemd(d) => d.supports_service(service),
        }
    }

    /// Begins an action on a service: the service must be defined (exec)
    /// or admitted by the access control lists (service manager).
    pub fn perform_action(&self, service: &str, action: ServiceAction) -> (r: Result<
        (Operation, Step),
        ShikiError,
    >)
        ensures
            r is Err <==> !backend_serves(self.backend, service@),
            r matches Err(e) ==> refusal(self.backend, service@, e),
            r matches Ok(p) ==> (p.0.service@ == service@ && (p.0, p.1@) == backend_begin(
                self.backend,
                p.0.service,
                action,
            )),
    {
        match &self.backend {
            ActiveBackend::Exec(e) => e.begin(service, action),
            ActiveBackend::Systemd(d) => d.begin(service, action),
        }
    }

    /// Begins a start of a service.
    pub fn start(&self, service: &str) -> (r: Result<(Operation, Step), ShikiError>)
        ensures
            r is Err <==> !backend_serves(self.backend, service@),
            r matches Err(e) ==> refusal(self.backend, service@, e),
            r matches Ok(p) ==> (p.0.service@ == service@ && (p.0, p.1@) == backend_begin(
                self.backend,
                p.0.service,
                ServiceAction::Start,
            )),
    {
        self.perform_action(service, ServiceAction::Start)
    }

    /// Begins a stop of a service.
    pub fn stop(&self, service: &str) -> (r: Result<(Operation, Step), ShikiError>)
        ensures
            r is Err <==> !backend_serves(self.backend, service@),
            r matches Err(e) ==> refusal(self.backend, service@, e),
            r matches Ok(p) ==> (p.0.service@ == service@ && (p.0, p.1@) == backend_begin(
                self.backend,
                p.0.service,
                ServiceAction::Stop,
            )),
    {
        self.perform_action(service, ServiceAction::Stop)
    }

    /// Begins a restart of a service.
    pub fn restart(&self, service: &str) -> (r: Result<(Operation, Step), ShikiError>)
        ensures
            r is Err <==> !backend_serves(self.backend, service@),
            r matches Err(e) ==> refusal(self.backend, service@, e),
            r matches Ok(p) ==> (p.0.service@ == service@ && (p.0, p.1@) == backend_begin(
                self.backend,
                p.0.service,
                ServiceAction::Restart,
            )),
    {
        self.perform_action(service, ServiceAction::Restart)
    }

    /// Begins a status query of a service.
    pub fn status(&self, service: &str) -> (r: Result<(StatusQuery, QueryStep), ShikiError>)
        ensures
            r is Err <==> !backend_serves(self.backend, service@),
            r matches Err(e) ==> refusal(self.backend, service@, e),
            r matches Ok(p) ==> (p.0.service@ == service@ && (p.0, p.1@) == spec_query_begin(
                p.0.service,
                backend_kind(self.backend),
            )),
    {
        match &self.backend {
            ActiveBackend::Exec(e) => e.begin_status(service),
            ActiveBackend::Systemd(d) => d.begin_status(service),
        }
    }

    /// The process that serves a machine's request for a service.
    pub fn invocation(&self, service: &str, request: Request) -> (r: Result<Invocation, ShikiError>)
        ensures
            self.backend is Systemd ==> (r matches Ok(inv) && inv.program@ == "systemctl"@
                && views(inv.args@) == systemctl_args(service@, request) && inv.working_dir is None
                && inv.env@.len() == 0 && inv.timeout_seconds is None),
            self.backend matches ActiveBackend::Exec(e) ==> exec_plan(e, service@, request, r),
    {
        match &self.backend {
            ActiveBackend::Exec(e) => e.invocation(service, request),
            ActiveBackend::Systemd(d) => Ok(d.invocation(service, request)),
        }
    }

    /// How to list the controllable services.
    pub fn list_services(&self) -> (r: ListPlan)
        ensures
            self.backend matches ActiveBackend::Exec(e) ==> (r matches ListPlan::Known(v) && views(
                v@,
            ) == entry_names(e.services@) && forall|i: int, j: int|
                0 <= i < j < v@.len() ==> v@[i]@ != v@[j]@),
            self.backend is Systemd ==> (r matches ListPlan::Query(inv) && inv.program@
                == "systemctl"@ && views(inv.args@) == listing_args() && inv.timeout_seconds is None),
    {
        match &self.backend {
            ActiveBackend::Exec(e) => ListPlan::Known(e.list_services()),
            ActiveBackend::Systemd(d) => ListPlan::Query(d.listing_invocation()),
        }
    }

    /// The services of a listing run for [`ListPlan::Query`].
    pub fn finish_listing(&self, success: bool, output: &str) -> (r: Result<Vec<String>, ShikiError>)
        ensures
            self.backend matches ActiveBackend::Systemd(d) ==> {
                &&& r is Err <==> !success
                &&& r matches Err(x) ==> x is Backend
                &&& r matches Ok(v) ==> views(v@) == listed_services(
                    first_fields(output@),
                    d.acl.denied@,
                    d.acl.allowed@,
                )
            },
            self.backend matches ActiveBackend::Exec(e) ==> (r matches Ok(v) && views(v@)
                == entry_names(e.services@) && forall|i: int, j: int|
                0 <= i < j < v@.len() ==> v@[i]@ != v@[j]@),
    {
        match &self.backend {
            ActiveBackend::Exec(e) => Ok(e.list_services()),
            ActiveBackend::Systemd(d) => d.services_from_listing(success, output),
        }
    }
}

} // verus!
