//! The settings that every migration runs under.
use crate::cli::Cli;
use vstd::prelude::*;
use vstd::string::*;

verus! {

/// How a migration runs its statements.
#[derive(Debug, Clone)]
pub struct MigrationConfig {
    /// The value given to `SET lock_timeout` before each statement.
    pub lock_timeout: String,
    /// How many times a statement, or a whole migration round, is tried.
    pub max_attempts: u32,
    /// The first wait between two rounds of an index build, in milliseconds.
    pub base_backoff_ms: u64,
    /// Print the statements instead of running them.
    pub dry_run: bool,
}

impl Default for MigrationConfig {
    /// A lock timeout of `5s`, five attempts, a backoff of 500 ms, and
    /// statements that are run.
    fn default() -> (r: Self)
        ensures
            r.lock_timeout@ == "5s"@,
            r.max_attempts == 5,
            r.base_backoff_ms == 500,
            !r.dry_run,
    {
        MigrationConfig {
            lock_timeout: String::from_str("5s"),
            max_attempts: 5,
            base_backoff_ms: 500,
            dry_run: false,
        }
    }
}

impl MigrationConfig {
    /// The settings given on the command line, with a backoff of 500 ms.
    pub fn from_cli(cli: &Cli) -> (r: Self)
        ensures
            r.lock_timeout@ == cli.lock_timeout@,
            r.max_attempts == cli.max_attempts,
            r.base_backoff_ms == 500,
            r.dry_run == cli.dry_run,
    {
        MigrationConfig {
            lock_timeout: cli.lock_timeout.clone(),
            max_attempts: cli.max_attempts,
            base_backoff_ms: 500,
            dry_run: cli.dry_run,
        }
    }
}

} // verus!
