//! Error taxonomy: stable error codes, their HTTP statuses and the
//! library's error type.
use vstd::prelude::*;

pub mod exit_code;

verus! {

/// The nine stable error identifiers of the wire protocol.
#[derive(Debug, Clone, Copy, PartialEq, Eq, Structural, Hash)]
pub enum ErrorCode {
    /// E001: configuration file is invalid.
    ConfigInvalid,
    /// E002: target service does not exist.
    ServiceNotFound,
    /// E003: service operation is not permitted.
    ServiceDenied,
    /// E004: backend operation failed.
    BackendError,
    /// E005: operation timed out.
    Timeout,
    /// E006: failed to connect to a remote agent.
    ConnectionError,
    /// E007: authentication failed.
    AuthFailed,
    /// E008: request is invalid.
    InvalidRequest,
    /// E009: agent is busy.
    AgentBusy,
}

/// Identifier of a code on the wire.
pub open spec fn code_text(c: ErrorCode) -> Seq<char> {
    match c {
        ErrorCode::ConfigInvalid => "E001"@,
        ErrorCode::ServiceNotFound => "E002"@,
        ErrorCode::ServiceDenied => "E003"@,
        ErrorCode::BackendError => "E004"@,
        ErrorCode::Timeout => "E005"@,
        ErrorCode::ConnectionError => "E006"@,
        ErrorCode::AuthFailed => "E007"@,
        ErrorCode::InvalidRequest => "E008"@,
        ErrorCode::AgentBusy => "E009"@,
    }
}

/// Default HTTP status of a code.
pub open spec fn code_http_status(c: ErrorCode) -> u16 {
    match c {
        ErrorCode::ConfigInvalid => 500,
        ErrorCode::ServiceNotFound => 404,
        ErrorCode::ServiceDenied => 403,
        ErrorCode::BackendError => 500,
        ErrorCode::Timeout => 504,
        ErrorCode::ConnectionError => 502,
        ErrorCode::AuthFailed => 401,
        ErrorCode::InvalidRequest => 400,
        ErrorCode::AgentBusy => 503,
    }
}

/// Default human-readable message of a code.
pub open spec fn code_default_message(c: ErrorCode) -> Seq<char> {
    match c {
        ErrorCode::ConfigInvalid => "Configuration file is invalid"@,
        ErrorCode::ServiceNotFound => "Service not found"@,
        ErrorCode::ServiceDenied => "Service operation is not permitted"@,
        ErrorCode::BackendError => "Backend operation failed"@,
        ErrorCode::Timeout => "Operation timed out"@,
        ErrorCode::ConnectionError => "Failed to connect to remote agent"@,
        ErrorCode::AuthFailed => "Authentication failed"@,
        ErrorCode::InvalidRequest => "Request is invalid"@,
        ErrorCode::AgentBusy => "Agent is busy"@,
    }
}

impl ErrorCode {
    /// The code as it appears on the wire (`"E001"` ...).
    pub fn as_str(&self) -> (r: &'static str)
        ensures
            r@ == code_text(*self),
    {
        match self {
            ErrorCode::ConfigInvalid => "E001",
            ErrorCode::ServiceNotFound => "E002",
            ErrorCode::ServiceDenied => "E003",
            ErrorCode::BackendError => "E004",
            ErrorCode::Timeout => "E005",
            ErrorCode::ConnectionError => "E006",
            ErrorCode::AuthFailed => "E007",
            ErrorCode::InvalidRequest => "E008",
            ErrorCode::AgentBusy => "E009",
        }
    }

    /// The message used when nothing more specific is known.
    pub fn default_message(&self) -> (r: &'static str)
        ensures
            r@ == code_default_message(*self),
    {
        match self {
            ErrorCode::ConfigInvalid => "Configuration file is invalid",
            ErrorCode::ServiceNotFound => "Service not found",
            ErrorCode::ServiceDenied => "Service operation is not permitted",
            ErrorCode::BackendError => "Backend operation failed",
            ErrorCode::Timeout => "Operation timed out",
            ErrorCode::ConnectionError => "Failed to connect to remote agent",
            ErrorCode::AuthFailed => "Authentication failed",
            ErrorCode::InvalidRequest => "Request is invalid",
            ErrorCode::AgentBusy => "Agent is busy",
        }
    }

    /// The HTTP status that an error of this code is answered with.
    pub fn http_status(&self) -> (r: u16)
        ensures
            r == code_http_status(*self),
    {
        match self {
            ErrorCode::ConfigInvalid => 500,
            ErrorCode::ServiceNotFound => 404,
            ErrorCode::ServiceDenied => 403,
            ErrorCode::BackendError => 500,
            ErrorCode::Timeout => 504,
            ErrorCode::ConnectionError => 502,
            ErrorCode::AuthFailed => 401,
            ErrorCode::InvalidRequest => 400,
            ErrorCode::AgentBusy => 503,
        }
    }

    /// The code whose wire identifier is `s`.
    pub fn from_code(s: &str) -> (r: Option<ErrorCode>)
        ensures
            r matches Some(c) ==> code_text(c) == s@,
            r is None ==> forall|c: ErrorCode| code_text(c) != s@,
    {
        let all = [
            ErrorCode::ConfigInvalid,
            ErrorCode::ServiceNotFound,
            ErrorCode::ServiceDenied,
            ErrorCode::BackendError,
            ErrorCode::Timeout,
            ErrorCode::ConnectionError,
            ErrorCode::AuthFailed,
            ErrorCode::InvalidRequest,
            ErrorCode::AgentBusy,
        ];
        let mut i: usize = 0;
        while i < 9
            invariant
                i <= 9,
                all@ == seq![
                    ErrorCode::ConfigInvalid,
                    ErrorCode::ServiceNotFound,
                    ErrorCode::ServiceDenied,
                    ErrorCode::BackendError,
                    ErrorCode::Timeout,
                    ErrorCode::ConnectionError,
                    ErrorCode::AuthFailed,
                    ErrorCode::InvalidRequest,
                    ErrorCode::AgentBusy,
                ],
                forall|j: int| 0 <= j < i ==> code_text(#[trigger] all@[j]) != s@,
            decreases 9 - i,
        {
            let c = all[i];
            if crate::text::str_eq(c.as_str(), s) {
                return Some(c);
            }
            i = i + 1;
        }
        proof {
            assert forall|c: ErrorCode| code_text(c) != s@ by {
                match c {
                    ErrorCode::ConfigInvalid => assert(all@[0] == c),
                    ErrorCode::ServiceNotFound => assert(all@[1] == c),
                    ErrorCode::ServiceDenied => assert(all@[2] == c),
                    ErrorCode::BackendError => assert(all@[3] == c),
                    ErrorCode::Timeout => assert(all@[4] == c),
                    ErrorCode::ConnectionError => assert(all@[5] == c),
                    ErrorCode::AuthFailed => assert(all@[6] == c),
                    ErrorCode::InvalidRequest => assert(all@[7] == c),
                    ErrorCode::AgentBusy => assert(all@[8] == c),
                }
            }
        }
        None
    }

    /// Same text as [`ErrorCode::as_str`], as an owned string.
    pub fn to_string(&self) -> (r: String)
        ensures
            r@ == code_text(*self),
    {
        String::from_str(self.as_str())
    }
}

/// The error type of the library.
#[derive(Debug, Clone)]
pub enum ShikiError {
    /// Configuration is invalid or cannot be loaded.
    Config { message: String },
    /// Target service does not exist.
    ServiceNotFound { service: String },
    /// Service operation is not permitted by the access control list.
    ServiceDenied { service: String, reason: String },
    /// Backend infrastructure failed (cannot spawn, cannot reach the manager).
    Backend { message: String },
    /// An operation exceeded its deadline.
    Timeout { operation: String, seconds: u64 },
    /// Failed to connect to a remote agent.
    Connection { target: String },
    /// Authentication failed.
    AuthFailed { reason: String },
    /// Request is invalid.
    InvalidRequest { message: String },
    /// Agent is busy.
    AgentBusy { reason: String },
}

/// The stable code of an error.
pub open spec fn error_code_of(e: ShikiError) -> ErrorCode {
    match e {
        ShikiError::Config { .. } => ErrorCode::ConfigInvalid,
        ShikiError::ServiceNotFound { .. } => ErrorCode::ServiceNotFound,
        ShikiError::ServiceDenied { .. } => ErrorCode::ServiceDenied,
        ShikiError::Backend { .. } => ErrorCode::BackendError,
        ShikiError::Timeout { .. } => ErrorCode::Timeout,
        ShikiError::Connection { .. } => ErrorCode::ConnectionError,
        ShikiError::AuthFailed { .. } => ErrorCode::AuthFailed,
        ShikiError::InvalidRequest { .. } => ErrorCode::InvalidRequest,
        ShikiError::AgentBusy { .. } => ErrorCode::AgentBusy,
    }
}

/// The process exit code of an error.
pub open spec fn error_exit_code(e: ShikiError) -> i32 {
    match e {
        ShikiError::Config { .. } => exit_code::CONFIG_ERROR,
        ShikiError::Connection { .. } => exit_code::CONNECTION_ERROR,
        ShikiError::Timeout { .. } => exit_code::TIMEOUT_ERROR,
        ShikiError::AuthFailed { .. } => exit_code::AUTH_ERROR,
        _ => exit_code::GENERAL_ERROR,
    }
}

/// Decimal digits of a number.
pub open spec fn decimal(n: nat) -> Seq<char>
    decreases n,
{
    if n < 10 {
        seq![digit_char(n)]
    } else {
        decimal(n / 10).push(digit_char(n % 10))
    }
}

/// The character of one decimal digit.
pub open spec fn digit_char(d: nat) -> char {
    if d == 0 { '0' }
    else if d == 1 { '1' }
    else if d == 2 { '2' }
    else if d == 3 { '3' }
    else if d == 4 { '4' }
    else if d == 5 { '5' }
    else if d == 6 { '6' }
    else if d == 7 { '7' }
    else if d == 8 { '8' }
    else { '9' }
}

/// The human-readable text of an error.
pub open spec fn error_text(e: ShikiError) -> Seq<char> {
    match e {
        ShikiError::Config { message } => "Configuration error: "@ + message@,
        ShikiError::ServiceNotFound { service } => "Service not found: "@ + service@,
        ShikiError::ServiceDenied { service, .. } => "Service operation denied: "@ + service@,
        ShikiError::Backend { message } => "Backend error: "@ + message@,
        ShikiError::Timeout { operation, seconds } => "Timeout: "@ + operation@ + " (waited "@
            + decimal(seconds as nat) + "s)"@,
        ShikiError::Connection { target } => "Connection error: "@ + target@,
        ShikiError::AuthFailed { reason } => "Authentication failed: "@ + reason@,
        ShikiError::InvalidRequest { message } => "Invalid request: "@ + message@,
        ShikiError::AgentBusy { reason } => "Agent is busy: "@ + reason@,
    }
}

/// Writes `n` in decimal.
pub fn decimal_string(n: u64) -> (r: String)
    ensures
        r@ == decimal(n as nat),
    decreases n,
{
    let d = digit_str(n % 10);
    if n < 10 {
        String::from_str(d)
    } else {
        let head = decimal_string(n / 10);
        let r = head.concat(d);
        proof {
            assert(decimal(n as nat) == decimal((n / 10) as nat).push(digit_char((n % 10) as nat)));
        }
        r
    }
}

fn digit_str(d: u64) -> (r: &'static str)
    requires
        d < 10,
    ensures
        r@ == seq![digit_char(d as nat)],
{
    proof {
        reveal_strlit("0");
        reveal_strlit("1");
        reveal_strlit("2");
        reveal_strlit("3");
        reveal_strlit("4");
        reveal_strlit("5");
        reveal_strlit("6");
        reveal_strlit("7");
        reveal_strlit("8");
        reveal_strlit("9");
    }
    if d == 0 { "0" }
    else if d == 1 { "1" }
    else if d == 2 { "2" }
    else if d == 3 { "3" }
    else if d == 4 { "4" }
    else if d == 5 { "5" }
    else if d == 6 { "6" }
    else if d == 7 { "7" }
    else if d == 8 { "8" }
    else { "9" }
}

impl ShikiError {
    /// The stable code of this error.
    pub fn code(&self) -> (r: ErrorCode)
        ensures
            r == error_code_of(*self),
    {
        match self {
            ShikiError::Config { .. } => ErrorCode::ConfigInvalid,
            ShikiError::ServiceNotFound { .. } => ErrorCode::ServiceNotFound,
            ShikiError::ServiceDenied { .. } => ErrorCode::ServiceDenied,
            ShikiError::Backend { .. } => ErrorCode::BackendError,
            ShikiError::Timeout { .. } => ErrorCode::Timeout,
            ShikiError::Connection { .. } => ErrorCode::ConnectionError,
            ShikiError::AuthFailed { .. } => ErrorCode::AuthFailed,
            ShikiError::InvalidRequest { .. } => ErrorCode::InvalidRequest,
            ShikiError::AgentBusy { .. } => ErrorCode::AgentBusy,
        }
    }

    /// The exit code with which the command-line layer reports this error.
    pub fn exit_code(&self) -> (r: i32)
        ensures
            r == error_exit_code(*self),
    {
        match self {
            ShikiError::Config { .. } => exit_code::CONFIG_ERROR,
            ShikiError::Connection { .. } => exit_code::CONNECTION_ERROR,
            ShikiError::Timeout { .. } => exit_code::TIMEOUT_ERROR,
            ShikiError::AuthFailed { .. } => exit_code::AUTH_ERROR,
            _ => exit_code::GENERAL_ERROR,
        }
    }

    /// A configuration error.
    pub fn config(message: &str) -> (r: ShikiError)
        ensures
            r matches ShikiError::Config { message: m } && m@ == message@,
    {
        ShikiError::Config { message: String::from_str(message) }
    }

    /// A backend error.
    pub fn backend(message: &str) -> (r: ShikiError)
        ensures
            r matches ShikiError::Backend { message: m } && m@ == message@,
    {
        ShikiError::Backend { message: String::from_str(message) }
    }

    /// A connection error.
    pub fn connection(target: &str) -> (r: ShikiError)
        ensures
            r matches ShikiError::Connection { target: t } && t@ == target@,
    {
        ShikiError::Connection { target: String::from_str(target) }
    }

    /// An invalid-request error.
    pub fn invalid_request(message: &str) -> (r: ShikiError)
        ensures
            r matches ShikiError::InvalidRequest { message: m } && m@ == message@,
    {
        ShikiError::InvalidRequest { message: String::from_str(message) }
    }

    /// The human-readable text of this error.
    pub fn to_string(&self) -> (r: String)
        ensures
            r@ == error_text(*self),
    {
        match self {
            ShikiError::Config { message } => String::from_str("Configuration error: ").concat(message.as_str()),
            ShikiError::ServiceNotFound { service } => String::from_str("Service not found: ").concat(service.as_str()),
            ShikiError::ServiceDenied { service, .. } => String::from_str("Service operation denied: ").concat(service.as_str()),
            ShikiError::Backend { message } => String::from_str("Backend error: ").concat(message.as_str()),
            ShikiError::Timeout { operation, seconds } => {
                let n = decimal_string(*seconds);
                String::from_str("Timeout: ").concat(operation.as_str()).concat(" (waited ").concat(
                    n.as_str(),
                ).concat("s)")
            },
            ShikiError::Connection { target } => String::from_str("Connection error: ").concat(target.as_str()),
            ShikiError::AuthFailed { reason } => String::from_str("Authentication failed: ").concat(reason.as_str()),
            ShikiError::InvalidRequest { message } => String::from_str("Invalid request: ").concat(message.as_str()),
            ShikiError::AgentBusy { reason } => String::from_str("Agent is busy: ").concat(reason.as_str()),
        }
    }
}

/// Result type of the library's fallible operations.
pub type Result<T> = core::result::Result<T, ShikiError>;

} // verus!
