//! Argument resolution for a media-library synchronization tool.
//!
//! Raw process arguments are resolved in two phases, consulted in strict
//! order: a scanner that recognizes standalone command tokens (which
//! short-circuit everything else), and a structured parser that validates
//! the full flag schema into a typed configuration. Exactly one of three
//! outcomes is produced per invocation: command dispatch, a validated
//! configuration, or a usage error.

pub mod config;
pub mod laws;
pub mod parse;
pub mod registry;

pub use config::{CommandLineArgs, CoreArgs, RenameArgs, UsageError};
pub use parse::{parse_args, parse_structured, scan_standalone, Resolution};
pub use registry::{default_registry, CommandRegistry};
