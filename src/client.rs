//! The decisions of the remote client: request URLs, the reading of
//! response envelopes, and the wait-for-service polling rule.
use vstd::prelude::*;
use crate::error::{code_text, decimal, decimal_string, ShikiError};
use crate::server::{ErrorResponse, NotifyOptions, NotifyRequest};
use crate::service::{action_text, ServiceAction};
use crate::shell::views;

verus! {

/// Deadline of a client's HTTP requests, and of the operations it asks for, in seconds.
pub const DEFAULT_TIMEOUT_SECS: u64 = 30;

/// The URL of an API endpoint of the agent at `base`.
pub open spec fn endpoint_url(base: Seq<char>, path: Seq<char>) -> Seq<char> {
    base + "/api/v1"@ + path
}

/// The URL of an API endpoint of the agent at `base`.
pub fn endpoint(base: &str, path: &str) -> (r: String)
    ensures
        r@ == endpoint_url(base@, path@),
{
    String::from_str(base).concat("/api/v1").concat(path)
}

/// The URL of one service's detail.
pub fn service_url(base: &str, name: &str) -> (r: String)
    ensures
        r@ == endpoint_url(base@, "/services/"@ + name@),
{
    let path = String::from_str("/services/").concat(name);
    endpoint(base, path.as_str())
}

/// The query parameters of a service list request, in order.
pub open spec fn list_params(status: Option<Seq<char>>, limit: Option<usize>, offset: Option<usize>) -> Seq<
    Seq<char>,
> {
    let a = match status {
        Some(s) => seq!["status="@ + s],
        None => Seq::empty(),
    };
    let b = match limit {
        Some(l) => seq!["limit="@ + decimal(l as nat)],
        None => Seq::empty(),
    };
    let c = match offset {
        Some(o) => seq!["offset="@ + decimal(o as nat)],
        None => Seq::empty(),
    };
    a + b + c
}

/// Parameters joined by `&`.
pub open spec fn joined(ps: Seq<Seq<char>>) -> Seq<char>
    decreases ps.len(),
{
    if ps.len() == 0 {
        Seq::empty()
    } else if ps.len() == 1 {
        ps[0]
    } else {
        joined(ps.drop_last()) + "&"@ + ps.last()
    }
}

/// The URL of a service list request.
pub open spec fn services_url_of(
    base: Seq<char>,
    status: Option<Seq<char>>,
    limit: Option<usize>,
    offset: Option<usize>,
) -> Seq<char> {
    let ps = list_params(status, limit, offset);
    if ps.len() == 0 {
        endpoint_url(base, "/services"@)
    } else {
        endpoint_url(base, "/services"@) + "?"@ + joined(ps)
    }
}

/// Joins parameters with `&`.
pub fn join_params(ps: &Vec<String>) -> (r: String)
    ensures
        r@ == joined(views(ps@)),
{
    if ps.len() == 0 {
        return String::new();
    }
    let mut acc = ps[0].clone();
    let mut i: usize = 1;
    assert(views(ps@).take(1).drop_last() =~= Seq::<Seq<char>>::empty());
    while i < ps.len()
        invariant
            1 <= i <= ps@.len(),
            acc@ == joined(views(ps@).take(i as int)),
        decreases ps@.len() - i,
    {
        acc = acc.concat("&").concat(ps[i].as_str());
        proof {
            let t = views(ps@).take(i + 1);
            assert(t.drop_last() =~= views(ps@).take(i as int));
        }
        i = i + 1;
    }
    assert(views(ps@).take(i as int) =~= views(ps@));
    acc
}

/// The URL of a service list request, with the parameters that are given.
pub fn services_url(base: &str, status: Option<&str>, limit: Option<usize>, offset: Option<usize>) -> (r:
    String)
    ensures
        r@ == services_url_of(
            base@,
            match status {
                Some(s) => Some(s@),
                None => None,
            },
            limit,
            offset,
        ),
{
    let ghost st = match status {
        Some(s) => Some(s@),
        None => None,
    };
    let mut ps: Vec<String> = Vec::new();
    match status {
        Some(s) => ps.push(String::from_str("status=").concat(s)),
        None => {},
    }
    match limit {
        Some(l) => ps.push(String::from_str("limit=").concat(decimal_string(l as u64).as_str())),
        None => {},
    }
    match offset {
        Some(o) => ps.push(String::from_str("offset=").concat(decimal_string(o as u64).as_str())),
        None => {},
    }
    assert(views(ps@) =~= list_params(st, limit, offset));
    let url = endpoint(base, "/services");
    if ps.len() == 0 {
        url
    } else {
        url.concat("?").concat(join_params(&ps).as_str())
    }
}

/// The body of a notify request.
pub fn notify_request(service: &str, action: ServiceAction, wait: bool, timeout_seconds: u64) -> (r:
    NotifyRequest)
    ensures
        r.service@ == service@,
        r.action@ == action_text(action),
        r.options.wait == wait,
        r.options.timeout_seconds == timeout_seconds,
{
    NotifyRequest {
        action: action.to_string(),
        service: String::from_str(service),
        options: NotifyOptions { wait, timeout_seconds },
    }
}

/// The error that an error envelope stands for: a backend error
/// `[code] message`, or `Unknown error` when the envelope carries none.
pub open spec fn envelope_error_text(error: Option<ErrorResponse>) -> Seq<char> {
    match error {
        Some(e) => "["@ + code_text(e.code) + "] "@ + e.message@,
        None => "Unknown error"@,
    }
}

/// The error that an error envelope stands for.
pub fn extract_error(error: &Option<ErrorResponse>) -> (r: ShikiError)
    ensures
        r matches ShikiError::Backend { message } && message@ == envelope_error_text(*error),
{
    match error {
        Some(e) => ShikiError::Backend {
            message: String::from_str("[").concat(e.code.as_str()).concat("] ").concat(
                e.message.as_str(),
            ),
        },
        None => ShikiError::backend("Unknown error"),
    }
}

/// Reads a response envelope: the data of a success, or the error of a
/// failure. A success without data is a backend error.
pub fn open_envelope<T>(success: bool, data: Option<T>, error: &Option<ErrorResponse>) -> (r: Result<
    T,
    ShikiError,
>)
    ensures
        success && data is Some ==> r == Ok::<T, ShikiError>(data->Some_0),
        success && data is None ==> (r matches Err(e) && e is Backend),
        !success ==> (r matches Err(e) && e matches ShikiError::Backend { message } && message@
            == envelope_error_text(*error)),
{
    if success {
        match data {
            Some(d) => Ok(d),
            None => Err(ShikiError::backend("Response missing data")),
        }
    } else {
        Err(extract_error(error))
    }
}

/// What a wait does after a poll.
#[derive(Debug, Clone, Copy, PartialEq, Eq, Structural)]
pub enum WaitDecision {
    /// The service is in the target state.
    Reached,
    /// Sleep for the poll interval and poll again.
    Retry,
    /// The deadline has passed.
    TimedOut,
}

/// The wait rule: a poll that observed the target state ends the wait; else
/// the wait ends in a timeout once the elapsed time reaches the deadline,
/// and goes on otherwise. A poll that failed in transport observed nothing
/// and is retried like any other.
pub open spec fn wait_rule(observed: Option<Seq<char>>, target: Seq<char>, elapsed_ms: u64, timeout_ms: u64) -> WaitDecision {
    if observed == Some(target) {
        WaitDecision::Reached
    } else if elapsed_ms >= timeout_ms {
        WaitDecision::TimedOut
    } else {
        WaitDecision::Retry
    }
}

/// Decides what a wait does after a poll.
pub fn wait_decision(observed: Option<&str>, target: &str, elapsed_ms: u64, timeout_ms: u64) -> (r:
    WaitDecision)
    ensures
        r == wait_rule(
            match observed {
                Some(o) => Some(o@),
                None => None,
            },
            target@,
            elapsed_ms,
            timeout_ms,
        ),
{
    let reached = match observed {
        Some(o) => crate::text::str_eq(o, target),
        None => false,
    };
    if reached {
        WaitDecision::Reached
    } else if elapsed_ms >= timeout_ms {
        WaitDecision::TimedOut
    } else {
        WaitDecision::Retry
    }
}

/// The error of a wait that timed out: it names the service and the target
/// state, and carries the deadline in seconds.
pub fn wait_timeout_error(name: &str, target: &str, seconds: u64) -> (r: ShikiError)
    ensures
        r matches ShikiError::Timeout { operation, seconds: s } && s == seconds && operation@
            == "wait for "@ + name@ + " to be "@ + target@,
{
    ShikiError::Timeout {
        operation: String::from_str("wait for ").concat(name).concat(" to be ").concat(target),
        seconds,
    }
}

} // verus!
