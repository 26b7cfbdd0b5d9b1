//! Configuration of an agent, and its validation.
use vstd::prelude::*;
use crate::acl::AclConfig;
use crate::error::ShikiError;
use crate::services::{definition_problem, ServiceMap};
use crate::text::{lower_of, lowercase, str_eq};

verus! {

/// HTTP server configuration.
#[derive(Debug, Clone)]
pub struct ServerConfig {
    /// Listen address.
    pub bind: String,
    /// Listen port.
    pub port: u16,
    /// TLS configuration.
    pub tls: TlsConfig,
}

impl Default for ServerConfig {
    fn default() -> (r: ServerConfig)
        ensures
            r.bind@ == "0.0.0.0"@,
            r.port == 8080,
            !r.tls.enabled,
    {
        ServerConfig { bind: String::from_str("0.0.0.0"), port: 8080, tls: TlsConfig::default() }
    }
}

/// TLS configuration.
#[derive(Debug, Clone)]
pub struct TlsConfig {
    /// Whether TLS is enabled.
    pub enabled: bool,
    /// Certificate file path.
    pub cert_path: Option<String>,
    /// Private key file path.
    pub key_path: Option<String>,
}

impl Default for TlsConfig {
    fn default() -> (r: TlsConfig)
        ensures
            !r.enabled,
            r.cert_path is None,
            r.key_path is None,
    {
        TlsConfig { enabled: false, cert_path: None, key_path: None }
    }
}

/// Authentication configuration.
#[derive(Debug, Clone)]
pub struct AuthConfig {
    /// Whether authentication is enabled.
    pub enabled: bool,
    /// Authentication method.
    pub method: AuthMethod,
    /// Static token for token authentication.
    pub token: Option<String>,
    /// API keys for key authentication.
    pub api_keys: Vec<String>,
}

impl Default for AuthConfig {
    fn default() -> (r: AuthConfig)
        ensures
            !r.enabled,
            r.method == AuthMethod::NoAuth,
            r.token is None,
            r.api_keys@.len() == 0,
    {
        AuthConfig { enabled: false, method: AuthMethod::NoAuth, token: None, api_keys: Vec::new() }
    }
}

/// Authentication method.
#[derive(Debug, Clone, Copy, PartialEq, Eq, Structural)]
pub enum AuthMethod {
    /// No authentication.
    NoAuth,
    /// Token-based authentication.
    Token,
    /// API key authentication.
    ApiKey,
}

/// The method named by a lower-case token.
pub open spec fn auth_method_named(t: Seq<char>) -> Option<AuthMethod> {
    if t == "none"@ {
        Some(AuthMethod::NoAuth)
    } else if t == "token"@ {
        Some(AuthMethod::Token)
    } else if t == "apikey"@ || t == "api_key"@ {
        Some(AuthMethod::ApiKey)
    } else {
        None
    }
}

/// Builds the error of an unknown token: `what` followed by the token.
fn unknown(what: &str, s: &str) -> (r: ShikiError)
    ensures
        r matches ShikiError::Config { message } && message@ == what@ + s@,
{
    ShikiError::Config { message: String::from_str(what).concat(s) }
}

impl AuthMethod {
    /// Lower-case name.
    pub fn as_str(&self) -> (r: &'static str)
        ensures
            r@ == (match *self {
                AuthMethod::NoAuth => "none"@,
                AuthMethod::Token => "token"@,
                AuthMethod::ApiKey => "apikey"@,
            }),
    {
        match self {
            AuthMethod::NoAuth => "none",
            AuthMethod::Token => "token",
            AuthMethod::ApiKey => "apikey",
        }
    }

    /// Parses a method name, ignoring case (`apikey` and `api_key` both name API keys).
    pub fn parse(s: &str) -> (r: Result<AuthMethod, ShikiError>)
        ensures
            r matches Ok(m) ==> auth_method_named(lower_of(s@)) == Some(m),
            r is Err ==> auth_method_named(lower_of(s@)) is None,
            r matches Err(e) ==> e matches ShikiError::Config { message } && message@
                == "Unknown auth method: "@ + s@,
    {
        let l = lowercase(s);
        let t = l.as_str();
        if str_eq(t, "none") {
            Ok(AuthMethod::NoAuth)
        } else if str_eq(t, "token") {
            Ok(AuthMethod::Token)
        } else if str_eq(t, "apikey") || str_eq(t, "api_key") {
            Ok(AuthMethod::ApiKey)
        } else {
            Err(unknown("Unknown auth method: ", s))
        }
    }
}

impl core::str::FromStr for AuthMethod {
    type Err = ShikiError;

    fn from_str(s: &str) -> core::result::Result<AuthMethod, ShikiError> {
        AuthMethod::parse(s)
    }
}

/// Logging configuration.
#[derive(Debug, Clone)]
pub struct LoggingConfig {
    /// Log level.
    pub level: LogLevel,
    /// Log format.
    pub format: LogFormat,
    /// Log destination.
    pub output: LogOutput,
    /// Log file path, when the destination is a file.
    pub file_path: Option<String>,
}

impl Default for LoggingConfig {
    fn default() -> (r: LoggingConfig)
        ensures
            r.level == LogLevel::Info,
            r.format == LogFormat::Json,
            r.output == LogOutput::Stdout,
            r.file_path is None,
    {
        LoggingConfig {
            level: LogLevel::Info,
            format: LogFormat::Json,
            output: LogOutput::Stdout,
            file_path: None,
        }
    }
}

/// Log level.
#[derive(Debug, Clone, Copy, PartialEq, Eq, Structural)]
pub enum LogLevel {
    Trace,
    Debug,
    Info,
    Warn,
    Error,
}

/// The level named by a lower-case token.
pub open spec fn log_level_named(t: Seq<char>) -> Option<LogLevel> {
    if t == "trace"@ {
        Some(LogLevel::Trace)
    } else if t == "debug"@ {
        Some(LogLevel::Debug)
    } else if t == "info"@ {
        Some(LogLevel::Info)
    } else if t == "warn"@ || t == "warning"@ {
        Some(LogLevel::Warn)
    } else if t == "error"@ {
        Some(LogLevel::Error)
    } else {
        None
    }
}

/// Lower-case name of a level.
pub open spec fn log_level_text(l: LogLevel) -> Seq<char> {
    match l {
        LogLevel::Trace => "trace"@,
        LogLevel::Debug => "debug"@,
        LogLevel::Info => "info"@,
        LogLevel::Warn => "warn"@,
        LogLevel::Error => "error"@,
    }
}

impl LogLevel {
    /// Parses a level name, ignoring case (`warning` names the warn level).
    pub fn parse(s: &str) -> (r: Result<LogLevel, ShikiError>)
        ensures
            r matches Ok(l) ==> log_level_named(lower_of(s@)) == Some(l),
            r is Err ==> log_level_named(lower_of(s@)) is None,
            r matches Err(e) ==> e matches ShikiError::Config { message } && message@
                == "Unknown log level: "@ + s@,
    {
        let l = lowercase(s);
        let t = l.as_str();
        if str_eq(t, "trace") {
            Ok(LogLevel::Trace)
        } else if str_eq(t, "debug") {
            Ok(LogLevel::Debug)
        } else if str_eq(t, "info") {
            Ok(LogLevel::Info)
        } else if str_eq(t, "warn") || str_eq(t, "warning") {
            Ok(LogLevel::Warn)
        } else if str_eq(t, "error") {
            Ok(LogLevel::Error)
        } else {
            Err(unknown("Unknown log level: ", s))
        }
    }

    /// Lower-case name of the level.
    pub fn as_str(&self) -> (r: &'static str)
        ensures
            r@ == log_level_text(*self),
    {
        match self {
            LogLevel::Trace => "trace",
            LogLevel::Debug => "debug",
            LogLevel::Info => "info",
            LogLevel::Warn => "warn",
            LogLevel::Error => "error",
        }
    }
}

impl core::str::FromStr for LogLevel {
    type Err = ShikiError;

    fn from_str(s: &str) -> core::result::Result<LogLevel, ShikiError> {
        LogLevel::parse(s)
    }
}

/// Log format.
#[derive(Debug, Clone, Copy, PartialEq, Eq, Structural)]
pub enum LogFormat {
    Json,
    Text,
}

/// The format named by a lower-case token.
pub open spec fn log_format_named(t: Seq<char>) -> Option<LogFormat> {
    if t == "json"@ {
        Some(LogFormat::Json)
    } else if t == "text"@ {
        Some(LogFormat::Text)
    } else {
        None
    }
}

impl LogFormat {
    /// Lower-case name.
    pub fn as_str(&self) -> (r: &'static str)
        ensures
            r@ == (match *self {
                LogFormat::Json => "json"@,
                LogFormat::Text => "text"@,
            }),
    {
        match self {
            LogFormat::Json => "json",
            LogFormat::Text => "text",
        }
    }

    /// Parses a format name, ignoring case.
    pub fn parse(s: &str) -> (r: Result<LogFormat, ShikiError>)
        ensures
            r matches Ok(f) ==> log_format_named(lower_of(s@)) == Some(f),
            r is Err ==> log_format_named(lower_of(s@)) is None,
            r matches Err(e) ==> e matches ShikiError::Config { message } && message@
                == "Unknown log format: "@ + s@,
    {
        let l = lowercase(s);
        let t = l.as_str();
        if str_eq(t, "json") {
            Ok(LogFormat::Json)
        } else if str_eq(t, "text") {
            Ok(LogFormat::Text)
        } else {
            Err(unknown("Unknown log format: ", s))
        }
    }
}

impl core::str::FromStr for LogFormat {
    type Err = ShikiError;

    fn from_str(s: &str) -> core::result::Result<LogFormat, ShikiError> {
        LogFormat::parse(s)
    }
}

/// Log destination.
#[derive(Debug, Clone, Copy, PartialEq, Eq, Structural)]
pub enum LogOutput {
    Stdout,
    Stderr,
    File,
}

/// The destination named by a lower-case token.
pub open spec fn log_output_named(t: Seq<char>) -> Option<LogOutput> {
    if t == "stdout"@ {
        Some(LogOutput::Stdout)
    } else if t == "stderr"@ {
        Some(LogOutput::Stderr)
    } else if t == "file"@ {
        Some(LogOutput::File)
    } else {
        None
    }
}

impl LogOutput {
    /// Lower-case name.
    pub fn as_str(&self) -> (r: &'static str)
        ensures
            r@ == (match *self {
                LogOutput::Stdout => "stdout"@,
                LogOutput::Stderr => "stderr"@,
                LogOutput::File => "file"@,
            }),
    {
        match self {
            LogOutput::Stdout => "stdout",
            LogOutput::Stderr => "stderr",
            LogOutput::File => "file",
        }
    }

    /// Parses a destination name, ignoring case.
    pub fn parse(s: &str) -> (r: Result<LogOutput, ShikiError>)
        ensures
            r matches Ok(o) ==> log_output_named(lower_of(s@)) == Some(o),
            r is Err ==> log_output_named(lower_of(s@)) is None,
            r matches Err(e) ==> e matches ShikiError::Config { message } && message@
                == "Unknown log output: "@ + s@,
    {
        let l = lowercase(s);
        let t = l.as_str();
        if str_eq(t, "stdout") {
            Ok(LogOutput::Stdout)
        } else if str_eq(t, "stderr") {
            Ok(LogOutput::Stderr)
        } else if str_eq(t, "file") {
            Ok(LogOutput::File)
        } else {
            Err(unknown("Unknown log output: ", s))
        }
    }
}

impl core::str::FromStr for LogOutput {
    type Err = ShikiError;

    fn from_str(s: &str) -> core::result::Result<LogOutput, ShikiError> {
        LogOutput::parse(s)
    }
}

/// Agent configuration.
#[derive(Debug, Clone)]
pub struct AgentConfig {
    /// Agent name; the host name when absent.
    pub name: Option<String>,
    /// Operating mode.
    pub mode: AgentMode,
    /// Service control backend.
    pub backend: Backend,
    /// Agent tags.
    pub tags: Vec<String>,
    /// Free-form metadata, as key and value pairs.
    pub metadata: Vec<(String, String)>,
}

impl Default for AgentConfig {
    fn default() -> (r: AgentConfig)
        ensures
            r.name is None,
            r.mode == AgentMode::Standalone,
            r.backend == Backend::Systemd,
            r.tags@.len() == 0,
            r.metadata@.len() == 0,
    {
        AgentConfig {
            name: None,
            mode: AgentMode::Standalone,
            backend: Backend::Systemd,
            tags: Vec::new(),
            metadata: Vec::new(),
        }
    }
}

/// Agent operating mode.
#[derive(Debug, Clone, Copy, PartialEq, Eq, Structural)]
pub enum AgentMode {
    Standalone,
    Cluster,
}

/// The mode named by a lower-case token.
pub open spec fn agent_mode_named(t: Seq<char>) -> Option<AgentMode> {
    if t == "standalone"@ {
        Some(AgentMode::Standalone)
    } else if t == "cluster"@ {
        Some(AgentMode::Cluster)
    } else {
        None
    }
}

impl AgentMode {
    /// Parses a mode name, ignoring case.
    pub fn parse(s: &str) -> (r: Result<AgentMode, ShikiError>)
        ensures
            r matches Ok(m) ==> agent_mode_named(lower_of(s@)) == Some(m),
            r is Err ==> agent_mode_named(lower_of(s@)) is None,
            r matches Err(e) ==> e matches ShikiError::Config { message } && message@
                == "Unknown agent mode: "@ + s@,
    {
        let l = lowercase(s);
        let t = l.as_str();
        if str_eq(t, "standalone") {
            Ok(AgentMode::Standalone)
        } else if str_eq(t, "cluster") {
            Ok(AgentMode::Cluster)
        } else {
            Err(unknown("Unknown agent mode: ", s))
        }
    }

    /// Lower-case name of the mode.
    pub fn as_str(&self) -> (r: &'static str)
        ensures
            r@ == (match *self {
                AgentMode::Standalone => "standalone"@,
                AgentMode::Cluster => "cluster"@,
            }),
    {
        match self {
            AgentMode::Standalone => "standalone",
            AgentMode::Cluster => "cluster",
        }
    }
}

impl core::str::FromStr for AgentMode {
    type Err = ShikiError;

    fn from_str(s: &str) -> core::result::Result<AgentMode, ShikiError> {
        AgentMode::parse(s)
    }
}

/// Service control backend.
#[derive(Debug, Clone, Copy, PartialEq, Eq, Structural)]
pub enum Backend {
    /// The native service manager.
    Systemd,
    /// User-defined commands.
    Exec,
}

/// The backend named by a lower-case token.
pub open spec fn backend_named(t: Seq<char>) -> Option<Backend> {
    if t == "systemd"@ {
        Some(Backend::Systemd)
    } else if t == "exec"@ {
        Some(Backend::Exec)
    } else {
        None
    }
}

impl Backend {
    /// Lower-case name.
    pub fn as_str(&self) -> (r: &'static str)
        ensures
            r@ == (match *self {
                Backend::Systemd => "systemd"@,
                Backend::Exec => "exec"@,
            }),
    {
        match self {
            Backend::Systemd => "systemd",
            Backend::Exec => "exec",
        }
    }

    /// Parses a backend name, ignoring case.
    pub fn parse(s: &str) -> (r: Result<Backend, ShikiError>)
        ensures
            r matches Ok(b) ==> backend_named(lower_of(s@)) == Some(b),
            r is Err ==> backend_named(lower_of(s@)) is None,
            r matches Err(e) ==> e matches ShikiError::Config { message } && message@
                == "Unknown backend: "@ + s@,
    {
        let l = lowercase(s);
        let t = l.as_str();
        if str_eq(t, "systemd") {
            Ok(Backend::Systemd)
        } else if str_eq(t, "exec") {
            Ok(Backend::Exec)
        } else {
            Err(unknown("Unknown backend: ", s))
        }
    }
}

impl core::str::FromStr for Backend {
    type Err = ShikiError;

    fn from_str(s: &str) -> core::result::Result<Backend, ShikiError> {
        Backend::parse(s)
    }
}

/// Retry configuration.
#[derive(Debug, Clone)]
pub struct RetryConfig {
    /// Maximum number of attempts.
    pub max_attempts: u32,
    /// Initial interval between attempts, in milliseconds.
    pub initial_interval_ms: u64,
    /// Largest interval between attempts, in milliseconds.
    pub max_interval_ms: u64,
    /// Backoff multiplier, in hundredths (200 doubles the interval).
    pub multiplier_percent: u32,
}

impl Default for RetryConfig {
    fn default() -> (r: RetryConfig)
        ensures
            r.max_attempts == 3,
            r.initial_interval_ms == 1000,
            r.max_interval_ms == 30000,
            r.multiplier_percent == 200,
    {
        RetryConfig {
            max_attempts: 3,
            initial_interval_ms: 1000,
            max_interval_ms: 30000,
            multiplier_percent: 200,
        }
    }
}

/// Timeout configuration.
#[derive(Debug, Clone)]
pub struct TimeoutConfig {
    /// Deadline of a service command, in seconds.
    pub service_seconds: u64,
    /// Deadline of an HTTP request, in seconds.
    pub http_seconds: u64,
    /// Deadline of a health check, in seconds.
    pub health_seconds: u64,
}

impl Default for TimeoutConfig {
    fn default() -> (r: TimeoutConfig)
        ensures
            r.service_seconds == 60,
            r.http_seconds == 30,
            r.health_seconds == 5,
    {
        TimeoutConfig { service_seconds: 60, http_seconds: 30, health_seconds: 5 }
    }
}

/// Cluster configuration.
#[derive(Debug, Clone)]
pub struct ClusterConfig {
    /// Whether cluster mode is enabled.
    pub enabled: bool,
    /// Peer agents.
    pub peers: Vec<PeerConfig>,
}

impl Default for ClusterConfig {
    fn default() -> (r: ClusterConfig)
        ensures
            !r.enabled,
            r.peers@.len() == 0,
    {
        ClusterConfig { enabled: false, peers: Vec::new() }
    }
}

/// A peer agent.
#[derive(Debug, Clone)]
pub struct PeerConfig {
    /// Peer name.
    pub name: String,
    /// Peer address (host:port).
    pub address: String,
    /// Peer tags.
    pub tags: Vec<String>,
}

/// Configuration of an agent.
#[derive(Debug, Clone)]
pub struct Config {
    /// HTTP server.
    pub server: ServerConfig,
    /// Authentication.
    pub auth: AuthConfig,
    /// Logging.
    pub logging: LoggingConfig,
    /// Agent.
    pub agent: AgentConfig,
    /// Retries.
    pub retry: RetryConfig,
    /// Timeouts.
    pub timeout: TimeoutConfig,
    /// Access control.
    pub acl: AclConfig,
    /// Cluster.
    pub cluster: ClusterConfig,
    /// Service definitions of the exec backend.
    pub services: ServiceMap,
}

impl Default for Config {
    fn default() -> (r: Config)
        ensures
            r.server.bind@ == "0.0.0.0"@,
            r.server.port == 8080,
            !r.server.tls.enabled,
            !r.auth.enabled,
            r.logging.level == LogLevel::Info,
            r.logging.format == LogFormat::Json,
            r.agent.backend == Backend::Systemd,
            r.agent.name is None,
            r.retry.max_attempts == 3,
            r.timeout.service_seconds == 60,
            r.acl.allowed@.len() == 0,
            r.acl.denied@.len() == 0,
            r.services@.len() == 0,
    {
        Config {
            server: ServerConfig::default(),
            auth: AuthConfig::default(),
            logging: LoggingConfig::default(),
            agent: AgentConfig::default(),
            retry: RetryConfig::default(),
            timeout: TimeoutConfig::default(),
            acl: AclConfig::default(),
            cluster: ClusterConfig::default(),
            services: ServiceMap::new(),
        }
    }
}

/// The first problem among the service definitions of `es`, in order.
pub open spec fn services_problem(es: Seq<(String, crate::services::DefinitionModel)>) -> Option<
    Seq<char>,
>
    decreases es.len(),
{
    if es.len() == 0 {
        None
    } else {
        match definition_problem(es[0].0@, es[0].1) {
            Some(m) => Some(m),
            None => services_problem(es.drop_first()),
        }
    }
}

/// The first problem among the port, the TLS files, the log file and the
/// presence of the exec backend's services, in that order.
pub open spec fn head_problem(c: Config) -> Option<Seq<char>> {
    if c.server.port == 0 {
        Some("Server port must be between 1 and 65535"@)
    } else if c.server.tls.enabled && c.server.tls.cert_path is None {
        Some("TLS is enabled but cert_path is not specified"@)
    } else if c.server.tls.enabled && c.server.tls.key_path is None {
        Some("TLS is enabled but key_path is not specified"@)
    } else if c.logging.output == LogOutput::File && c.logging.file_path is None {
        Some("Log output is 'file' but file_path is not specified"@)
    } else if c.agent.backend == Backend::Exec && c.services@.len() == 0 {
        Some("Backend is 'exec' but no services are defined"@)
    } else {
        None
    }
}

/// The first problem of a configuration, checked in this order: the port,
/// the TLS files, the log file, the exec backend's services, each service
/// definition, retries.
pub open spec fn config_problem(c: Config) -> Option<Seq<char>> {
    if head_problem(c) is Some {
        head_problem(c)
    } else if services_problem(c.services@) is Some {
        services_problem(c.services@)
    } else if c.retry.max_attempts == 0 {
        Some("retry.max_attempts must be at least 1"@)
    } else {
        None
    }
}

/// What is missing from the authentication and cluster settings, if
/// anything: the token of token authentication, the keys of API key
/// authentication, the peers of cluster mode.
pub open spec fn access_problem(c: Config) -> Option<Seq<char>> {
    if c.auth.enabled && c.auth.method == AuthMethod::Token && c.auth.token is None {
        Some("auth.token is required when using token authentication"@)
    } else if c.auth.enabled && c.auth.method == AuthMethod::ApiKey && c.auth.api_keys@.len() == 0 {
        Some("auth.api_keys is required when using API key authentication"@)
    } else if c.cluster.enabled && c.cluster.peers@.len() == 0 {
        Some("cluster.peers is required when cluster is enabled"@)
    } else {
        None
    }
}

/// Relies on `hostname::get`: the host's name, when it can be read and is
/// valid Unicode. Nothing is promised of its value.
#[verifier::external_body]
fn host_name() -> (r: Option<String>) {
    match hostname::get() {
        Ok(h) => h.into_string().ok(),
        Err(_) => None,
    }
}

/// The agent's name: the configured one, else the host's, else `unknown`.
pub open spec fn agent_name_of(configured: Option<Seq<char>>, host: Option<Seq<char>>) -> Seq<char> {
    match configured {
        Some(n) => n,
        None => match host {
            Some(h) => h,
            None => "unknown"@,
        },
    }
}

/// Picks the agent's name from the configured name and the host's name.
pub fn pick_agent_name(configured: &Option<String>, host: Option<String>) -> (r: String)
    ensures
        r@ == agent_name_of(crate::service::opt_view(*configured), crate::service::opt_view(host)),
{
    match configured {
        Some(n) => n.clone(),
        None => match host {
            Some(h) => h,
            None => String::from_str("unknown"),
        },
    }
}

impl Config {
    /// Checks the configuration; the error names its first problem.
    pub fn validate(&self) -> (r: Result<(), ShikiError>)
        ensures
            r is Ok <==> config_problem(*self) is None,
            r matches Err(e) ==> e matches ShikiError::Config { message } && Some(message@)
                == config_problem(*self),
    {
        if self.server.port == 0 {
            return Err(ShikiError::config("Server port must be between 1 and 65535"));
        }
        if self.server.tls.enabled {
            if self.server.tls.cert_path.is_none() {
                return Err(ShikiError::config("TLS is enabled but cert_path is not specified"));
            }
            if self.server.tls.key_path.is_none() {
                return Err(ShikiError::config("TLS is enabled but key_path is not specified"));
            }
        }
        if self.logging.output == LogOutput::File && self.logging.file_path.is_none() {
            return Err(ShikiError::config("Log output is 'file' but file_path is not specified"));
        }
        if self.agent.backend == Backend::Exec && self.services.is_empty() {
            return Err(ShikiError::config("Backend is 'exec' but no services are defined"));
        }
        let n = self.services.len();
        let mut i: usize = 0;
        assert(self.services@.skip(0) =~= self.services@);
        while i < n
            invariant
                n == self.services@.len(),
                i <= n,
                head_problem(*self) is None,
                services_problem(self.services@) == services_problem(self.services@.skip(i as int)),
            decreases n - i,
        {
            let (name, def) = self.services.entry(i);
            proof {
                let es = self.services@.skip(i as int);
                assert(es[0] == self.services@[i as int]);
                assert(es.drop_first() =~= self.services@.skip(i + 1));
            }
            let checked = def.validate(name.as_str());
            if checked.is_err() {
                proof {
                    let es = self.services@.skip(i as int);
                    assert(services_problem(es) == definition_problem(name@, def@));
                }
                return checked;
            }
            i = i + 1;
        }
        proof {
            assert(self.services@.skip(n as int) =~= Seq::<(String, crate::services::DefinitionModel)>::empty());
        }
        if self.retry.max_attempts == 0 {
            return Err(ShikiError::config("retry.max_attempts must be at least 1"));
        }
        Ok(())
    }

    /// Checks the authentication and cluster settings: token authentication
    /// needs a token, API key authentication needs keys, and cluster mode
    /// needs peers.
    pub fn validate_access(&self) -> (r: Result<(), ShikiError>)
        ensures
            r is Ok <==> access_problem(*self) is None,
            r matches Err(e) ==> e matches ShikiError::Config { message } && Some(message@)
                == access_problem(*self),
    {
        if self.auth.enabled {
            if self.auth.method == AuthMethod::Token && self.auth.token.is_none() {
                return Err(
                    ShikiError::config("auth.token is required when using token authentication"),
                );
            }
            if self.auth.method == AuthMethod::ApiKey && self.auth.api_keys.len() == 0 {
                return Err(
                    ShikiError::config("auth.api_keys is required when using API key authentication"),
                );
            }
        }
        if self.cluster.enabled && self.cluster.peers.len() == 0 {
            return Err(ShikiError::config("cluster.peers is required when cluster is enabled"));
        }
        Ok(())
    }

    /// The agent's name: the configured one, else the host's name, else `unknown`.
    pub fn agent_name(&self) -> (r: String)
        ensures
            self.agent.name matches Some(n) ==> r@ == n@,
    {
        let host = if self.agent.name.is_none() {
            host_name()
        } else {
            None
        };
        pick_agent_name(&self.agent.name, host)
    }
}

} // verus!
