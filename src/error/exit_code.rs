//! Process exit codes surfaced to the command-line layer.
use vstd::prelude::*;

verus! {

/// Success.
pub const SUCCESS: i32 = 0;

/// General error.
pub const GENERAL_ERROR: i32 = 1;

/// Configuration error.
pub const CONFIG_ERROR: i32 = 2;

/// Connection error.
pub const CONNECTION_ERROR: i32 = 3;

/// Timeout error.
pub const TIMEOUT_ERROR: i32 = 4;

/// Authentication error.
pub const AUTH_ERROR: i32 = 5;

/// Command line argument error.
pub const CLI_ERROR: i32 = 64;

} // verus!
