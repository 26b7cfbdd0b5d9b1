//! The exec backend: services controlled by user-defined commands.
use vstd::prelude::*;
use crate::error::ShikiError;
use crate::reconcile::{
    spec_begin, spec_query_begin, BackendKind, Operation, QueryStep, Request, StatusQuery, Step,
    StepModel, QueryStepModel,
};
use crate::service::{opt_view, ServiceAction};
use crate::services::{entry_names, has_name, lookup, DefinitionModel, ServiceDefinition, ServiceMap};
use crate::shell::{split_command, split_words, views};

verus! {

/// Deadline of a command whose definition names none, in seconds.
pub const DEFAULT_COMMAND_TIMEOUT: u64 = 60;

/// The exec backend.
#[derive(Debug, Clone)]
pub struct ExecBackend {
    /// Service definitions.
    pub services: ServiceMap,
    /// Deadline of a command whose definition names none, in seconds.
    pub default_timeout: u64,
}

/// A process to run, fully planned.
#[derive(Debug, Clone)]
pub struct Invocation {
    /// The command line it comes from.
    pub command: String,
    /// The program.
    pub program: String,
    /// Its arguments.
    pub args: Vec<String>,
    /// Working directory.
    pub working_dir: Option<String>,
    /// Environment variables to set.
    pub env: Vec<(String, String)>,
    /// Environment entries ignored for want of `=`.
    pub malformed_env: Vec<String>,
    /// Deadline, in seconds; `None` runs without one.
    pub timeout_seconds: Option<u64>,
}

/// The command line of a definition that serves a request.
pub open spec fn command_text(d: DefinitionModel, r: Request) -> Option<Seq<char>> {
    match r {
        Request::Probe => Some(d.status@),
        Request::Run(ServiceAction::Start) => Some(d.start@),
        Request::Run(ServiceAction::Stop) => Some(d.stop@),
        Request::Run(ServiceAction::Restart) => opt_view(d.restart),
        _ => None,
    }
}

/// Whether `e` has its first `=` at `i`.
pub open spec fn first_eq_at(e: Seq<char>, i: int) -> bool {
    &&& 0 <= i < e.len()
    &&& e[i] == '='
    &&& forall|j: int| 0 <= j < i ==> e[j] != '='
}

/// An environment entry `KEY=VALUE` split at its first `=`.
pub open spec fn env_pair(e: Seq<char>) -> Option<(Seq<char>, Seq<char>)> {
    if exists|i: int| 0 <= i < e.len() && e[i] == '=' {
        let i = choose|i: int| first_eq_at(e, i);
        Some((e.take(i), e.skip(i + 1)))
    } else {
        None
    }
}

/// The variables that a list of entries sets, in order.
pub open spec fn env_pairs(es: Seq<String>) -> Seq<(Seq<char>, Seq<char>)>
    decreases es.len(),
{
    if es.len() == 0 {
        Seq::empty()
    } else {
        match env_pair(es.last()@) {
            Some(p) => env_pairs(es.drop_last()).push(p),
            None => env_pairs(es.drop_last()),
        }
    }
}

/// The entries of a list that lack `=`, in order.
pub open spec fn env_malformed(es: Seq<String>) -> Seq<Seq<char>>
    decreases es.len(),
{
    if es.len() == 0 {
        Seq::empty()
    } else {
        match env_pair(es.last()@) {
            Some(_) => env_malformed(es.drop_last()),
            None => env_malformed(es.drop_last()).push(es.last()@),
        }
    }
}

/// The views of a vector of string pairs.
pub open spec fn pair_views(v: Seq<(String, String)>) -> Seq<(Seq<char>, Seq<char>)> {
    v.map_values(|p: (String, String)| (p.0@, p.1@))
}

proof fn lemma_first_eq_unique(e: Seq<char>, i: int, k: int)
    requires
        first_eq_at(e, i),
        first_eq_at(e, k),
    ensures
        i == k,
{
}

/// Splits an environment entry at its first `=`.
pub fn split_env(e: &str) -> (r: Option<(String, String)>)
    ensures
        r matches Some(p) ==> env_pair(e@) == Some((p.0@, p.1@)),
        r is None ==> env_pair(e@) is None,
{
    let n = e.unicode_len();
    let mut i: usize = 0;
    while i < n
        invariant
            n == e@.len(),
            i <= n,
            forall|j: int| 0 <= j < i ==> e@[j] != '=',
        decreases n - i,
    {
        if e.get_char(i) == '=' {
            proof {
                let k = choose|k: int| first_eq_at(e@, k);
                assert(first_eq_at(e@, i as int));
                lemma_first_eq_unique(e@, i as int, k);
            }
            let key = String::from_str(e.substring_char(0, i));
            let value = String::from_str(e.substring_char(i + 1, n));
            proof {
                assert(key@ =~= e@.take(i as int));
                assert(value@ =~= e@.skip(i + 1));
            }
            return Some((key, value));
        }
        i = i + 1;
    }
    None
}

/// Splits the environment entries of a definition into variables and
/// malformed entries.
pub fn plan_env(entries: &Vec<String>) -> (r: (Vec<(String, String)>, Vec<String>))
    ensures
        pair_views(r.0@) == env_pairs(entries@),
        views(r.1@) == env_malformed(entries@),
{
    let mut vars: Vec<(String, String)> = Vec::new();
    let mut bad: Vec<String> = Vec::new();
    let mut i: usize = 0;
    while i < entries.len()
        invariant
            i <= entries@.len(),
            pair_views(vars@) == env_pairs(entries@.take(i as int)),
            views(bad@) == env_malformed(entries@.take(i as int)),
        decreases entries@.len() - i,
    {
        let e = entries[i].as_str();
        proof {
            assert(entries@.take(i + 1).drop_last() =~= entries@.take(i as int));
            assert(entries@.take(i + 1).last() == entries@[i as int]);
        }
        match split_env(e) {
            Some(p) => {
                let ghost old_vars = vars@;
                vars.push(p);
                proof {
                    assert(pair_views(vars@) =~= pair_views(old_vars).push((p.0@, p.1@)));
                }
            },
            None => {
                let ghost old_bad = bad@;
                bad.push(entries[i].clone());
                proof {
                    assert(views(bad@) =~= views(old_bad).push(entries@[i as int]@));
                }
            },
        }
        i = i + 1;
    }
    proof {
        assert(entries@.take(i as int) =~= entries@);
    }
    (vars, bad)
}

/// What a process reported, as one text: standard output, then a newline
/// and standard error when standard error is not empty.
pub open spec fn combined_output(stdout: Seq<char>, stderr: Seq<char>) -> Seq<char> {
    if stderr.len() == 0 {
        stdout
    } else {
        stdout + "\n"@ + stderr
    }
}

/// Combines the two output streams of a process.
pub fn combine_output(stdout: &str, stderr: &str) -> (r: String)
    ensures
        r@ == combined_output(stdout@, stderr@),
{
    if stderr.unicode_len() == 0 {
        String::from_str(stdout)
    } else {
        String::from_str(stdout).concat("\n").concat(stderr)
    }
}

/// The error of a command that did not finish before its deadline.
pub fn timeout_error(command: &str, seconds: u64) -> (r: ShikiError)
    ensures
        r matches ShikiError::Timeout { operation, seconds: s } && operation@ == command@ && s
            == seconds,
{
    ShikiError::Timeout { operation: String::from_str(command), seconds }
}

/// The deadline of a definition's commands.
pub open spec fn deadline(d: DefinitionModel, default_timeout: u64) -> u64 {
    match d.timeout {
        Some(t) => t,
        None => default_timeout,
    }
}

/// Whether a command line is invalid or holds no word.
pub open spec fn no_words(text: Seq<char>) -> bool {
    match split_words(text) {
        None => true,
        Some(ws) => ws.len() == 0,
    }
}

/// The invocation that runs `text` for definition `d`, when `text` holds words.
pub open spec fn planned(inv: Invocation, text: Seq<char>, d: DefinitionModel, default_timeout: u64) -> bool {
    &&& split_words(text) matches Some(ws)
    &&& ws.len() > 0
    &&& inv.command@ == text
    &&& inv.program@ == ws[0]
    &&& views(inv.args@) == ws.drop_first()
    &&& opt_view(inv.working_dir) == opt_view(d.working_dir)
    &&& pair_views(inv.env@) == env_pairs(d.env)
    &&& views(inv.malformed_env@) == env_malformed(d.env)
    &&& inv.timeout_seconds == Some(deadline(d, default_timeout))
}

fn clone_opt(o: &Option<String>) -> (r: Option<String>)
    ensures
        r == *o,
{
    match o {
        Some(s) => Some(s.clone()),
        None => None,
    }
}

/// Plans the process of a command line of definition `d`.
pub fn plan_command(text: &str, d: &ServiceDefinition, default_timeout: u64) -> (r: Result<
    Invocation,
    ShikiError,
>)
    ensures
        r matches Ok(inv) ==> planned(inv, text@, d@, default_timeout),
        r is Err <==> no_words(text@),
        r matches Err(e) ==> e is Backend,
{
    let words = match split_command(text) {
        Some(w) => w,
        None => {
            return Err(ShikiError::backend("Invalid quoting in command"));
        },
    };
    if words.len() == 0 {
        return Err(ShikiError::backend("Empty command"));
    }
    let mut args = words;
    let ghost ws = views(args@);
    let program = args.remove(0);
    proof {
        assert(views(args@) =~= ws.drop_first());
    }
    let (env, malformed_env) = plan_env(&d.env);
    let timeout = match d.timeout {
        Some(t) => t,
        None => default_timeout,
    };
    Ok(
        Invocation {
            command: String::from_str(text),
            program,
            args,
            working_dir: clone_opt(&d.working_dir),
            env,
            malformed_env,
            timeout_seconds: Some(timeout),
        },
    )
}

/// What planning a request for `service` gives: not found for an undefined
/// service, an error for a request without a command, and otherwise the
/// planned process of the command, or an error when it holds no word.
pub open spec fn exec_plan(
    e: ExecBackend,
    service: Seq<char>,
    request: Request,
    r: Result<Invocation, ShikiError>,
) -> bool {
    match lookup(e.services@, service) {
        None => r matches Err(x) && x is ServiceNotFound,
        Some(d) => match command_text(d, request) {
            None => r matches Err(x) && x is Backend,
            Some(t) => {
                &&& (r matches Ok(inv) ==> planned(inv, t, d, e.default_timeout))
                &&& (r is Err <==> no_words(t))
            },
        },
    }
}

impl ExecBackend {
    /// A backend over these definitions, with the default command deadline.
    pub fn new(services: ServiceMap) -> (r: ExecBackend)
        ensures
            r.services == services,
            r.default_timeout == DEFAULT_COMMAND_TIMEOUT,
    {
        ExecBackend { services, default_timeout: DEFAULT_COMMAND_TIMEOUT }
    }

    /// A backend over these definitions, with the given command deadline.
    pub fn with_default_timeout(services: ServiceMap, seconds: u64) -> (r: ExecBackend)
        ensures
            r.services == services,
            r.default_timeout == seconds,
    {
        ExecBackend { services, default_timeout: seconds }
    }

    /// The backend's name.
    pub fn name(&self) -> (r: &'static str)
        ensures
            r@ == "exec"@,
    {
        "exec"
    }

    /// Whether the backend defines the service.
    pub fn supports_service(&self, service: &str) -> (r: bool)
        ensures
            r == has_name(self.services@, service@),
    {
        self.services.contains_key(service)
    }

    /// The defined services.
    pub fn list_services(&self) -> (r: Vec<String>)
        ensures
            views(r@) == entry_names(self.services@),
            forall|i: int, j: int| 0 <= i < j < r@.len() ==> r@[i]@ != r@[j]@,
    {
        let r = self.services.names();
        proof {
            assert(views(r@) =~= r@.map_values(|s: String| s@));
        }
        r
    }

    fn definition(&self, service: &str) -> (r: Result<&ServiceDefinition, ShikiError>)
        ensures
            r matches Ok(d) ==> lookup(self.services@, service@) == Some(d@),
            r matches Err(e) ==> (lookup(self.services@, service@) is None && (e matches ShikiError::ServiceNotFound { service: s } && s@ == service@)),
    {
        match self.services.get(service) {
            Some(d) => Ok(d),
            None => Err(ShikiError::ServiceNotFound { service: String::from_str(service) }),
        }
    }

    /// Begins a start, stop or restart of a defined service. A service
    /// without a restart command restarts by stop-then-start.
    pub fn begin(&self, service: &str, action: ServiceAction) -> (r: Result<(Operation, Step), ShikiError>)
        ensures
            r is Err <==> lookup(self.services@, service@) is None,
            r matches Err(e) ==> (e matches ShikiError::ServiceNotFound { service: s } && s@ == service@),
            r matches Ok(p) ==> (p.0.service@ == service@ && (lookup(self.services@, service@) matches Some(d)
                && (p.0, p.1@) == spec_begin(p.0.service, action, BackendKind::Exec, d.restart is Some))),
    {
        let d = self.definition(service)?;
        Ok(Operation::begin(service, action, BackendKind::Exec, d.restart.is_some()))
    }

    /// Begins a status query of a defined service.
    pub fn begin_status(&self, service: &str) -> (r: Result<(StatusQuery, QueryStep), ShikiError>)
        ensures
            r is Err <==> lookup(self.services@, service@) is None,
            r matches Err(e) ==> (e matches ShikiError::ServiceNotFound { service: s } && s@ == service@),
            r matches Ok(p) ==> p.0.service@ == service@ && (p.0, p.1@) == spec_query_begin(
                p.0.service,
                BackendKind::Exec,
            ),
    {
        let _d = self.definition(service)?;
        Ok(StatusQuery::begin(service, BackendKind::Exec))
    }

    /// Plans the process that serves a request for a defined service: the
    /// status command for a probe, the action's command for an action.
    pub fn invocation(&self, service: &str, request: Request) -> (r: Result<Invocation, ShikiError>)
        ensures
            exec_plan(*self, service@, request, r),
    {
        let d = self.definition(service)?;
        let text: &str = match request {
            Request::Probe => d.status.as_str(),
            Request::Run(ServiceAction::Start) => d.start.as_str(),
            Request::Run(ServiceAction::Stop) => d.stop.as_str(),
            Request::Run(ServiceAction::Restart) => match &d.restart {
                Some(c) => c.as_str(),
                None => {
                    return Err(ShikiError::backend("No restart command defined"));
                },
            },
            _ => {
                return Err(ShikiError::backend("Request not served by the exec backend"));
            },
        };
        plan_command(text, d, self.default_timeout)
    }
}

} // verus!
