//! Database migrations: the statements they run and the decisions between
//! their round trips.
pub mod direct;
pub mod identifier;
pub mod introspect;
pub mod retry;

pub use direct::{
    build_add_column_sql, build_create_index_sql, build_drop_index_sql, constraint_start, constraint_step,
    index_start, index_step, plan_add_check, plan_add_foreign_key, plan_add_index, plan_add_non_null,
    resolve_index_name, AddCheckArgs, AddColumnArgs, AddColumnError, AddConstraintError, AddForeignKeyArgs,
    AddIndexArgs, AddIndexError, AddNonNullArgs, ConstraintAction, ConstraintEvent, ConstraintPlan,
    ConstraintState, ConstraintStep, IndexAction, IndexEvent, IndexPlan, IndexState, IndexStep,
};
pub use introspect::{
    check_table_found, column_from_row, format_table_info, group_foreign_keys, Column, ForeignKey,
    ForeignKeyRow, Index, IntrospectError, TableInfo,
};
pub use retry::{backoff_millis, is_lock_timeout, retry_start, retry_step, DatabaseError, RetryAction, RetryError, RetryStep};
