//! The command-line interface's values and the decisions taken on them.
use vstd::prelude::*;
pub use crate::service::ServiceAction;
use crate::service::action_named;
use crate::text::lower_of;

verus! {

/// Parsed command line.
#[derive(Debug, Clone)]
pub struct Cli {
    /// Path of the configuration file.
    pub config: Option<String>,
    /// Verbosity: how many times `-v` was given.
    pub verbose: u8,
    /// Whether only errors are reported.
    pub quiet: bool,
    /// The subcommand.
    pub command: Commands,
}

/// The subcommands.
#[derive(Debug, Clone)]
pub enum Commands {
    /// Run the agent's HTTP server.
    Serve(ServeArgs),
    /// Ask a remote agent to perform an action.
    Notify(NotifyArgs),
    /// Wait for a remote service to be running.
    Wait(WaitArgs),
    /// Report the status of an agent or a service.
    Status(StatusArgs),
    /// Configuration file operations.
    Config(ConfigCommands),
}

/// Arguments of `serve`.
#[derive(Debug, Clone)]
pub struct ServeArgs {
    /// Listen address.
    pub bind: String,
    /// Listen port.
    pub port: u16,
}

impl Default for ServeArgs {
    fn default() -> (r: ServeArgs)
        ensures
            r.bind@ == "0.0.0.0"@,
            r.port == 8080,
    {
        ServeArgs { bind: String::from_str("0.0.0.0"), port: 8080 }
    }
}

/// Arguments of `notify`.
#[derive(Debug, Clone)]
pub struct NotifyArgs {
    /// Target agent address (host:port).
    pub target: String,
    /// Action to perform.
    pub action: ServiceAction,
    /// Target service.
    pub service: String,
    /// Wait for completion.
    pub wait: bool,
    /// Deadline, in seconds.
    pub timeout: u64,
    /// Do not wait for completion.
    pub no_wait: bool,
}

impl NotifyArgs {
    /// Whether to wait for completion: asked for, and not refused.
    pub fn should_wait(&self) -> (r: bool)
        ensures
            r == (!self.no_wait && self.wait),
    {
        !self.no_wait && self.wait
    }
}

/// Arguments of `wait`.
#[derive(Debug, Clone)]
pub struct WaitArgs {
    /// Target agent address (host:port).
    pub target: String,
    /// Service to wait for.
    pub service: String,
    /// Deadline, in seconds.
    pub timeout: u64,
    /// Polling interval, in seconds.
    pub interval: u64,
}

/// Arguments of `status`.
#[derive(Debug, Clone)]
pub struct StatusArgs {
    /// Remote agent address, for a remote report.
    pub target: Option<String>,
    /// Service name, for a service report.
    pub service: Option<String>,
}

/// Configuration subcommands.
#[derive(Debug, Clone, Copy, PartialEq, Eq, Structural)]
pub enum ConfigCommands {
    /// Validate the configuration file.
    Validate,
    /// Show the configuration.
    Show,
}

/// The log level of a command line: `error` when quiet, else `info`,
/// `debug` or `trace` as verbosity grows.
pub open spec fn log_level_of(verbose: u8, quiet: bool) -> (Seq<char>, bool) {
    if quiet {
        ("error"@, true)
    } else if verbose == 0 {
        ("info"@, false)
    } else if verbose == 1 {
        ("debug"@, false)
    } else {
        ("trace"@, false)
    }
}

impl Cli {
    /// The log level, and whether only errors are reported.
    pub fn log_level(&self) -> (r: (&'static str, bool))
        ensures
            (r.0@, r.1) == log_level_of(self.verbose, self.quiet),
    {
        if self.quiet {
            return ("error", true);
        }
        let level = if self.verbose == 0 {
            "info"
        } else if self.verbose == 1 {
            "debug"
        } else {
            "trace"
        };
        (level, false)
    }
}

/// Parses an action argument, ignoring case.
pub fn parse_action(s: &str) -> (r: Result<ServiceAction, String>)
    ensures
        r matches Ok(a) ==> action_named(lower_of(s@)) == Some(a),
        r is Err <==> action_named(lower_of(s@)) is None,
        r matches Err(m) ==> m@ == "Invalid action '"@ + s@ + "'. Valid actions: start, stop, restart"@,
{
    match ServiceAction::parse(s) {
        Some(a) => Ok(a),
        None => Err(
            String::from_str("Invalid action '").concat(s).concat(
                "'. Valid actions: start, stop, restart",
            ),
        ),
    }
}

} // verus!
