//! Zero-downtime schema migrations for PostgreSQL: the SQL that each
//! migration runs, the checks on its arguments, and the decisions that drive
//! a migration from one database round trip to the next.
pub mod cli;
pub mod config;
pub mod db;
pub mod text;
