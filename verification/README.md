# pgmorph

Zero-downtime schema migrations for PostgreSQL, written in Verus.

The library (`src/`) holds everything a migration decides:

- `db/identifier.rs`, `text.rs`: the identifier rule and the string builders;
- `db/direct/columns.rs`, `constraints.rs`, `index.rs`: the statements of
  each migration (ADD COLUMN, CHECK / FOREIGN KEY / NOT NULL constraints added
  `NOT VALID` then validated, `CREATE INDEX CONCURRENTLY`), with the checks on
  their arguments;
- `db/retry.rs`, `db/direct/constraint_steps.rs`, `db/direct/index_steps.rs`:
  the retry loop under `lock_timeout` and the rounds of the constraint and
  index migrations, as step functions from a state and the outcome of the last
  database round trip to the next state and the next thing to do;
- `db/introspect.rs`: the table description, the grouping of foreign key rows,
  and the table report.

Each function states its result in its contract, and the laws of the step
functions (bounded rounds, success only after the catalog shows a valid
constraint or index, dry runs that never touch the database) are proved over
whole runs.

`app/` is the command line tool: it parses arguments with clap, talks to the
database with tokio-postgres, and follows the actions that the step functions
hand out.
