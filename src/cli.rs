//! Command-line model: the subcommands and their options, without the
//! parsing itself.

use vstd::prelude::*;
use std::path::PathBuf;

verus! {

/// Which decision makes a scan fail (`--fail-on`).
#[derive(Debug, Clone, Copy, PartialEq, Eq, Structural)]
pub enum FailOn {
    Deny,
    Warn,
    Error,
}

/// Log levels accepted on the command line.
#[derive(Debug, Clone, Copy, PartialEq, Eq, Structural)]
pub enum LogLevel {
    Trace,
    Debug,
    Info,
    Warn,
    Error,
}

/// Options of `scan`.
#[derive(Debug)]
pub struct ScanArgs {
    /// Files or directories to scan.
    pub paths: Vec<PathBuf>,
    /// Policy file.
    pub policy: Option<PathBuf>,
    /// Where to write the per-file JSON lines.
    pub json: Option<PathBuf>,
    /// Where to write the summary.
    pub summary: Option<PathBuf>,
    pub fail_on: FailOn,
    /// Per-file time budget in seconds (accepted, not enforced).
    pub timeout: Option<u64>,
    pub log_level: LogLevel,
}

/// Options of `bench`.
#[derive(Debug)]
pub struct BenchArgs {
    /// Labelled corpus.
    pub corpus: PathBuf,
    pub report: Option<PathBuf>,
}

/// The subcommands.
#[derive(Debug)]
pub enum Commands {
    Scan(ScanArgs),
    Bench(BenchArgs),
}

/// A parsed command line.
#[derive(Debug)]
pub struct Cli {
    pub command: Commands,
}

impl Cli {
    /// The log level of the run: the one given to `scan`, `Info` for `bench`.
    pub fn scan_log_level(&self) -> (r: LogLevel)
        ensures
            r == match self.command {
                Commands::Scan(args) => args.log_level,
                Commands::Bench(_) => LogLevel::Info,
            },
    {
        match &self.command {
            Commands::Scan(args) => args.log_level,
            Commands::Bench(_) => LogLevel::Info,
        }
    }
}

} // verus!
