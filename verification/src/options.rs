//! The command line surface: the options of the `source` subcommand and
//! the rule that reconciles them.
//!
//! `--no-flatten` combined with `--fmt csv` is not supported: the driver
//! logs a warning and silently promotes the format to JSON. `--extended`
//! selects the extended schema; it has no hierarchical analogue, so the
//! promoted JSON output ignores it.

use vstd::prelude::*;

verus! {

/// The output format of the tool.
#[derive(Clone, Copy, Debug, PartialEq, Eq, Structural)]
pub enum OutputFormat {
    Csv,
    Json,
}

/// The options of the `source` subcommand, after parsing: the input path
/// to scan, the output directory, and the three output switches.
pub struct SourceCommand {
    pub path: String,
    pub output_path: String,
    pub fmt: OutputFormat,
    pub no_flatten: bool,
    pub extended: bool,
}

/// The format actually written: CSV is promoted to JSON when flattening
/// is off, since rows cannot be tabulated without flattening.
pub open spec fn spec_effective_format(fmt: OutputFormat, no_flatten: bool) -> OutputFormat {
    if no_flatten && fmt == OutputFormat::Csv {
        OutputFormat::Json
    } else {
        fmt
    }
}

/// Reconcile the format with the flatten switch. Returns the format to
/// write and whether a promotion happened — the caller owes the user a
/// warning exactly when it did.
pub fn effective_format(fmt: OutputFormat, no_flatten: bool) -> (r: (OutputFormat, bool))
    ensures
        r.0 == spec_effective_format(fmt, no_flatten),
        r.1 == (no_flatten && fmt == OutputFormat::Csv),
{
    if no_flatten && fmt == OutputFormat::Csv {
        (OutputFormat::Json, true)
    } else {
        (fmt, false)
    }
}

/// The parsed command line: one subcommand.
pub struct Cli {
    pub command: Commands,
}

/// The tool's subcommands.
pub enum Commands {
    Source(SourceCommand),
}

impl Cli {
    /// The subcommand the invocation selected.
    pub fn into_command(self) -> (r: Commands)
        ensures
            r == self.command,
    {
        self.command
    }
}

} // verus!
