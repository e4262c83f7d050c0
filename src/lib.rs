//! Errors of the command-line sender, their user-facing messages, and the
//! decision of what to print and with which status to stop.

use vstd::prelude::*;

pub mod cli;
pub mod error;

pub use cli::{CliExit, Exit, EXIT_STATUS};
pub use error::Error;
