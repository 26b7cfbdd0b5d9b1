//! shiki: coordination of service start/stop/restart ordering across hosts.
//!
//! The library holds the service-control engine: the service model, the
//! reconcile-then-act-then-verify state machine that drives a backend, the
//! command-line splitting and invocation planning of the exec backend, the
//! access control evaluator, configuration validation, and the decisions of
//! the HTTP API and of the remote client. Running processes, HTTP and
//! timers are left to the caller, who feeds outcomes back into the machines.
use vstd::prelude::*;

pub mod error;
pub mod text;
pub mod service;
pub mod reconcile;
pub mod shell;
pub mod exec;
pub mod systemd;
pub mod controller;
pub mod server;
pub mod client;
pub mod cli;
pub mod services;
pub mod acl;
pub mod config;

pub use cli::Cli;
pub use config::Config;
pub use controller::{ServiceBackend, ServiceController};
pub use error::{ErrorCode, Result, ShikiError};
pub use service::{ServiceOperationResult, ServiceState, ServiceStatus};
