//! The native service manager backend, driven through `systemctl`.
use vstd::prelude::*;
use crate::acl::{admits, AclConfig};
use crate::error::ShikiError;
use crate::exec::Invocation;
use crate::reconcile::{
    spec_begin, spec_query_begin, BackendKind, Operation, QueryStep, Request, StatusQuery, Step,
};
use crate::service::{action_text, ServiceAction};
use crate::shell::views;
use crate::text::{is_space, is_space_char, strip_suffix, without_suffix};

verus! {

/// The native service manager backend.
#[derive(Debug, Clone)]
pub struct SystemdBackend {
    /// Which services may be controlled.
    pub acl: AclConfig,
}

/// Where the scan of a listing stands on the current line.
#[derive(Debug, Clone, Copy, PartialEq, Eq, Structural)]
pub enum LineMode {
    /// Before the line's first field.
    Before,
    /// Inside the line's first field.
    InField,
    /// After the line's first field.
    After,
}

/// State of the scan of a listing.
pub struct ScanState {
    pub mode: LineMode,
    pub field: Seq<char>,
    pub fields: Seq<Seq<char>>,
}

/// The scan's reaction to one character.
pub open spec fn scan_step(st: ScanState, c: char) -> ScanState {
    match st.mode {
        LineMode::Before => if is_space(c) {
            st
        } else {
            ScanState { mode: LineMode::InField, field: seq![c], ..st }
        },
        LineMode::InField => if c == '\n' {
            ScanState { mode: LineMode::Before, field: Seq::empty(), fields: st.fields.push(st.field) }
        } else if is_space(c) {
            ScanState { mode: LineMode::After, field: Seq::empty(), fields: st.fields.push(st.field) }
        } else {
            ScanState { field: st.field.push(c), ..st }
        },
        LineMode::After => if c == '\n' {
            ScanState { mode: LineMode::Before, ..st }
        } else {
            st
        },
    }
}

/// The scan's state after the characters of `s`.
pub open spec fn scan_run(s: Seq<char>) -> ScanState
    decreases s.len(),
{
    if s.len() == 0 {
        ScanState { mode: LineMode::Before, field: Seq::empty(), fields: Seq::empty() }
    } else {
        scan_step(scan_run(s.drop_last()), s.last())
    }
}

/// The first whitespace-separated field of each line of `s` that has one.
pub open spec fn first_fields(s: Seq<char>) -> Seq<Seq<char>> {
    let st = scan_run(s);
    if st.mode == LineMode::InField {
        st.fields.push(st.field)
    } else {
        st.fields
    }
}

/// A unit file name without its `.service` suffix.
pub open spec fn unit_name(field: Seq<char>) -> Seq<char> {
    match without_suffix(field, ".service"@) {
        Some(n) => n,
        None => field,
    }
}

/// The services of a listing's fields that the lists admit, in order.
pub open spec fn listed_services(fields: Seq<Seq<char>>, denied: Seq<String>, allowed: Seq<String>) -> Seq<
    Seq<char>,
>
    decreases fields.len(),
{
    if fields.len() == 0 {
        Seq::empty()
    } else {
        let rest = listed_services(fields.drop_last(), denied, allowed);
        let n = unit_name(fields.last());
        if admits(denied, allowed, n) {
            rest.push(n)
        } else {
            rest
        }
    }
}

/// A listing never discloses a service that the access control lists
/// refuse: every name it yields is admitted.
pub proof fn lemma_listing_discloses_only_admitted(
    fields: Seq<Seq<char>>,
    denied: Seq<String>,
    allowed: Seq<String>,
)
    ensures
        forall|i: int|
            0 <= i < listed_services(fields, denied, allowed).len() ==> admits(
                denied,
                allowed,
                #[trigger] listed_services(fields, denied, allowed)[i],
            ),
    decreases fields.len(),
{
    if fields.len() > 0 {
        let rest = listed_services(fields.drop_last(), denied, allowed);
        let all = listed_services(fields, denied, allowed);
        lemma_listing_discloses_only_admitted(fields.drop_last(), denied, allowed);
        assert forall|i: int| 0 <= i < all.len() implies admits(denied, allowed, #[trigger] all[i]) by {
            if i < rest.len() {
                assert(all[i] == rest[i]);
            }
        }
    }
}

/// The arguments of the `systemctl` call that serves a request.
pub open spec fn systemctl_args(service: Seq<char>, request: Request) -> Seq<Seq<char>> {
    match request {
        Request::CheckExists => seq!["show"@, "--property=LoadState"@, service],
        Request::Probe => seq!["is-active"@, service],
        Request::Describe => seq!["show"@, "--property=Description"@, service],
        Request::Run(a) => seq![action_text(a), service],
    }
}

/// The arguments of the `systemctl` call that lists service units.
pub open spec fn listing_args() -> Seq<Seq<char>> {
    seq!["list-unit-files"@, "--type=service"@, "--no-legend"@, "--no-pager"@]
}

/// The refusal of a service that the access control lists do not admit.
pub open spec fn denial(service: Seq<char>, e: ShikiError) -> bool {
    e matches ShikiError::ServiceDenied { service: s, reason: m } && s@ == service && m@
        == "Service is not allowed by ACL"@
}

/// The first field of each line of a listing.
pub fn scan_first_fields(s: &str) -> (r: Vec<String>)
    ensures
        views(r@) == first_fields(s@),
{
    let n = s.unicode_len();
    let mut mode = LineMode::Before;
    let mut field = String::new();
    let mut fields: Vec<String> = Vec::new();
    let mut i: usize = 0;
    while i < n
        invariant
            n == s@.len(),
            i <= n,
            ({
                let st = scan_run(s@.take(i as int));
                &&& st.mode == mode
                &&& st.field == field@
                &&& st.fields == views(fields@)
            }),
        decreases n - i,
    {
        let c = s.get_char(i);
        let one = s.substring_char(i, i + 1);
        proof {
            assert(s@.take(i + 1).drop_last() =~= s@.take(i as int));
            assert(s@.take(i + 1).last() == c);
            assert(one@ =~= seq![c]);
        }
        match mode {
            LineMode::Before => {
                if !is_space_char(c) {
                    field = String::from_str(one);
                    mode = LineMode::InField;
                }
            },
            LineMode::InField => {
                if is_space_char(c) {
                    let f = field;
                    field = String::new();
                    proof {
                        assert(views(fields@.push(f)) =~= views(fields@).push(f@));
                    }
                    fields.push(f);
                    mode = if c == '\n' {
                        LineMode::Before
                    } else {
                        LineMode::After
                    };
                } else {
                    field.append(one);
                }
            },
            LineMode::After => {
                if c == '\n' {
                    mode = LineMode::Before;
                }
            },
        }
        i = i + 1;
    }
    proof {
        assert(s@.take(n as int) =~= s@);
    }
    if mode == LineMode::InField {
        proof {
            assert(views(fields@.push(field)) =~= views(fields@).push(field@));
        }
        fields.push(field);
    }
    fields
}

fn owned(s: &str) -> (r: String)
    ensures
        r@ == s@,
{
    String::from_str(s)
}

impl SystemdBackend {
    /// A backend restricted by these access control lists.
    pub fn new(acl: AclConfig) -> (r: SystemdBackend)
        ensures
            r.acl == acl,
    {
        SystemdBackend { acl }
    }

    /// The backend's name.
    pub fn name(&self) -> (r: &'static str)
        ensures
            r@ == "systemd"@,
    {
        "systemd"
    }

    /// Whether the access control lists admit the service.
    pub fn supports_service(&self, service: &str) -> (r: bool)
        ensures
            r == admits(self.acl.denied@, self.acl.allowed@, service@),
    {
        self.acl.is_allowed(service)
    }

    /// Refuses a service that the access control lists do not admit.
    pub fn check_acl(&self, service: &str) -> (r: Result<(), ShikiError>)
        ensures
            r is Ok <==> admits(self.acl.denied@, self.acl.allowed@, service@),
            r matches Err(e) ==> denial(service@, e),
    {
        if !self.acl.is_allowed(service) {
            return Err(
                ShikiError::ServiceDenied {
                    service: owned(service),
                    reason: owned("Service is not allowed by ACL"),
                },
            );
        }
        Ok(())
    }

    /// Begins a start, stop or restart of an admitted service.
    pub fn begin(&self, service: &str, action: ServiceAction) -> (r: Result<(Operation, Step), ShikiError>)
        ensures
            r is Err <==> !admits(self.acl.denied@, self.acl.allowed@, service@),
            r matches Err(e) ==> denial(service@, e),
            r matches Ok(p) ==> (p.0.service@ == service@ && (p.0, p.1@) == spec_begin(
                p.0.service,
                action,
                BackendKind::Systemd,
                true,
            )),
    {
        if let Err(e) = self.check_acl(service) {
            return Err(e);
        }
        Ok(Operation::begin(service, action, BackendKind::Systemd, true))
    }

    /// Begins a status query of an admitted service.
    pub fn begin_status(&self, service: &str) -> (r: Result<(StatusQuery, QueryStep), ShikiError>)
        ensures
            r is Err <==> !admits(self.acl.denied@, self.acl.allowed@, service@),
            r matches Err(e) ==> denial(service@, e),
            r matches Ok(p) ==> (p.0.service@ == service@ && (p.0, p.1@) == spec_query_begin(
                p.0.service,
                BackendKind::Systemd,
            )),
    {
        if let Err(e) = self.check_acl(service) {
            return Err(e);
        }
        Ok(StatusQuery::begin(service, BackendKind::Systemd))
    }

    /// The `systemctl` invocation that serves a request: `show
    /// --property=LoadState` to check existence, `is-active` to probe,
    /// `show --property=Description` to describe, and the action's own
    /// verb to act.
    pub fn invocation(&self, service: &str, request: Request) -> (r: Invocation)
        ensures
            r.program@ == "systemctl"@,
            views(r.args@) == systemctl_args(service@, request),
            r.working_dir is None,
            r.env@.len() == 0,
            r.timeout_seconds is None,
    {
        let mut args: Vec<String> = Vec::new();
        match request {
            Request::CheckExists => {
                args.push(owned("show"));
                args.push(owned("--property=LoadState"));
            },
            Request::Probe => {
                args.push(owned("is-active"));
            },
            Request::Describe => {
                args.push(owned("show"));
                args.push(owned("--property=Description"));
            },
            Request::Run(a) => {
                args.push(a.to_string());
            },
        }
        args.push(owned(service));
        proof {
            match request {
                Request::CheckExists => {
                    assert(views(args@) =~= seq!["show"@, "--property=LoadState"@, service@]);
                },
                Request::Probe => {
                    assert(views(args@) =~= seq!["is-active"@, service@]);
                },
                Request::Describe => {
                    assert(views(args@) =~= seq!["show"@, "--property=Description"@, service@]);
                },
                Request::Run(a) => {
                    assert(views(args@) =~= seq![action_text(a), service@]);
                },
            }
        }
        Invocation {
            command: owned("systemctl"),
            program: owned("systemctl"),
            args,
            working_dir: None,
            env: Vec::new(),
            malformed_env: Vec::new(),
            timeout_seconds: None,
        }
    }

    /// The `systemctl` invocation that lists the installed service units.
    pub fn listing_invocation(&self) -> (r: Invocation)
        ensures
            r.program@ == "systemctl"@,
            views(r.args@) == listing_args(),
            r.working_dir is None,
            r.env@.len() == 0,
            r.timeout_seconds is None,
    {
        let mut args: Vec<String> = Vec::new();
        args.push(owned("list-unit-files"));
        args.push(owned("--type=service"));
        args.push(owned("--no-legend"));
        args.push(owned("--no-pager"));
        proof {
            assert(views(args@) =~= seq![
                "list-unit-files"@,
                "--type=service"@,
                "--no-legend"@,
                "--no-pager"@,
            ]);
        }
        Invocation {
            command: owned("systemctl"),
            program: owned("systemctl"),
            args,
            working_dir: None,
            env: Vec::new(),
            malformed_env: Vec::new(),
            timeout_seconds: None,
        }
    }

    /// The services of a unit listing that the access control lists admit:
    /// the first field of each line, without its `.service` suffix. A
    /// listing that failed is an error, never a partial list.
    pub fn services_from_listing(&self, success: bool, output: &str) -> (r: Result<Vec<String>, ShikiError>)
        ensures
            r is Err <==> !success,
            r matches Err(e) ==> e is Backend,
            r matches Ok(v) ==> views(v@) == listed_services(
                first_fields(output@),
                self.acl.denied@,
                self.acl.allowed@,
            ),
    {
        if !success {
            return Err(ShikiError::backend("Failed to list services"));
        }
        let fields = scan_first_fields(output);
        let ghost fs = views(fields@);
        let mut out: Vec<String> = Vec::new();
        let mut i: usize = 0;
        while i < fields.len()
            invariant
                i <= fields@.len(),
                fs == views(fields@),
                views(out@) == listed_services(fs.take(i as int), self.acl.denied@, self.acl.allowed@),
            decreases fields@.len() - i,
        {
            let f = fields[i].as_str();
            let name = match strip_suffix(f, ".service") {
                Some(n) => n,
                None => f,
            };
            proof {
                assert(fs.take(i + 1).drop_last() =~= fs.take(i as int));
                assert(fs.take(i + 1).last() == f@);
                assert(name@ == unit_name(f@));
            }
            if self.acl.is_allowed(name) {
                let ghost before = out@;
                out.push(owned(name));
                proof {
                    assert(views(out@) =~= views(before).push(name@));
                }
            }
            i = i + 1;
        }
        proof {
            assert(fs.take(i as int) =~= fs);
        }
        Ok(out)
    }
}

} // verus!
