//! The command line of the migration tool, as plain values.
use vstd::prelude::*;

verus! {

/// The default connection string.
pub const DEFAULT_DATABASE_URL: &'static str =
    "host=localhost port=5433 user=pgmorph password=pgmorph dbname=pgmorph";

/// The options and the command given on the command line.
#[derive(Debug)]
pub struct Cli {
    /// The PostgreSQL connection string.
    pub database_url: String,
    /// Print the statements instead of running them.
    pub dry_run: bool,
    /// How long a statement may wait for a lock (`SET lock_timeout`).
    pub lock_timeout: String,
    /// How many times a statement that ran into the lock timeout is tried.
    pub max_attempts: u32,
    /// What to do; without a command the tool only connects.
    pub command: Option<Command>,
}

/// The commands of the migration tool.
#[derive(Debug)]
#[allow(inconsistent_fields)]
pub enum Command {
    /// Show the columns, primary key, indexes and foreign keys of a table.
    Introspect { table: String, schema: String },
    /// Add a column.
    AddColumn {
        table: String,
        schema: String,
        column: String,
        data_type: String,
        default: Option<String>,
        not_null: bool,
    },
    /// Add a CHECK constraint.
    AddCheck { table: String, schema: String, constraint_name: String, rule: String },
    /// Add a FOREIGN KEY constraint.
    AddForeignKey {
        table: String,
        schema: String,
        constraint_name: Option<String>,
        column: String,
        foreign_table_name: String,
        foreign_column_name: String,
        on_delete: String,
    },
    /// Make a column NOT NULL.
    SetNotNull { table: String, schema: String, column: String },
}

} // verus!
