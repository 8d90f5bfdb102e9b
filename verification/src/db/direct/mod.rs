//! Schema changes made directly on a table.
pub mod columns;
pub mod constraint_steps;
pub mod constraints;
pub mod index;
pub mod index_steps;

pub use columns::{build_add_column_sql, AddColumnArgs, AddColumnError};
pub use constraint_steps::{constraint_start, constraint_step, ConstraintAction, ConstraintEvent, ConstraintStep};
pub use constraints::{
    plan_add_check, plan_add_foreign_key, plan_add_non_null, AddCheckArgs, AddConstraintError,
    AddForeignKeyArgs, AddNonNullArgs, ConstraintPlan, ConstraintState,
};
pub use index::{
    build_create_index_sql, build_drop_index_sql, resolve_index_name, AddIndexArgs, AddIndexError,
    IndexState,
};
pub use index_steps::{index_start, index_step, plan_add_index, IndexAction, IndexEvent, IndexPlan, IndexStep};
