use pgmorph::db::direct::constraints::{
    constraint_state_from_rows, resolve_add_check_constraint_name, resolve_add_check_phase_one_query,
    resolve_add_foreign_key_constraint_name, resolve_add_foreign_key_query, resolve_constraint_validate_query,
    resolve_drop_check_query, resolve_non_null_constraint_name, resolve_non_null_constraint_query,
};
use pgmorph::db::direct::index::{build_validity_check_sql, default_index_name, index_state_from_rows};
use pgmorph::db::{
    build_add_column_sql, build_create_index_sql, build_drop_index_sql, plan_add_check, plan_add_foreign_key,
    plan_add_non_null, resolve_index_name, AddCheckArgs, AddColumnArgs, AddColumnError, AddConstraintError,
    AddForeignKeyArgs, AddIndexArgs, AddIndexError, AddNonNullArgs, ConstraintState, IndexState,
};

fn column_args(table: &str, column: &str, data_type: &str) -> AddColumnArgs {
    AddColumnArgs {
        schema: "public".to_string(),
        table: table.to_string(),
        column: column.to_string(),
        data_type: data_type.to_string(),
        not_null: false,
        default: None,
    }
}

#[test]
fn add_column_sql_targets_schema_then_table() {
    let sql = build_add_column_sql(&column_args("users", "email", "text")).unwrap();
    assert_eq!(sql, "ALTER TABLE public.users ADD COLUMN IF NOT EXISTS \"email\" text");
}

#[test]
fn add_column_sql_with_default_and_not_null() {
    let mut args = column_args("users", "active", "boolean");
    args.default = Some("true".to_string());
    args.not_null = true;
    let sql = build_add_column_sql(&args).unwrap();
    assert_eq!(
        sql,
        "ALTER TABLE public.users ADD COLUMN IF NOT EXISTS \"active\" boolean DEFAULT true NOT NULL"
    );
}

#[test]
fn add_column_with_default_only() {
    let mut args = column_args("users", "score", "int");
    args.default = Some("0".to_string());
    let sql = build_add_column_sql(&args).unwrap();
    assert_eq!(sql, "ALTER TABLE public.users ADD COLUMN IF NOT EXISTS \"score\" int DEFAULT 0");
}

#[test]
fn add_column_rejects_not_null_without_default() {
    let mut args = column_args("users", "email", "text");
    args.not_null = true;
    match build_add_column_sql(&args) {
        Err(AddColumnError::Unsupported { message }) => assert_eq!(
            message,
            "NOT NULL columns require a constant DEFAULT (add nullable first, backfill, then set NOT NULL LATER)"
        ),
        other => panic!("unexpected {:?}", other),
    }
}

#[test]
fn add_column_rejects_empty_schema_first() {
    let mut args = column_args("bad-table", "", "text");
    args.schema = String::new();
    match build_add_column_sql(&args) {
        Err(AddColumnError::InvalidIdentifier { name, reason }) => {
            assert_eq!(name, "");
            assert_eq!(reason, "identifier cannot be empty");
        }
        other => panic!("unexpected {:?}", other),
    }
}

#[test]
fn add_column_rejects_bad_character_in_table() {
    match build_add_column_sql(&column_args("bad-table", "email", "text")) {
        Err(e @ AddColumnError::InvalidIdentifier { .. }) => {
            assert_eq!(
                e.to_string(),
                "invalid identifier 'bad-table' in 'identifier must start with an underscore'"
            );
        }
        other => panic!("unexpected {:?}", other),
    }
}

#[test]
fn add_column_rejects_blank_data_type() {
    match build_add_column_sql(&column_args("users", "email", " \t\u{3000}")) {
        Err(AddColumnError::InvalidIdentifier { name, reason }) => {
            assert_eq!(name, " \t\u{3000}");
            assert_eq!(reason, "data type cannot be empty");
        }
        other => panic!("unexpected {:?}", other),
    }
}

#[test]
fn add_column_accepts_data_type_with_spaces() {
    let sql = build_add_column_sql(&column_args("t1", "c_2", "double precision")).unwrap();
    assert_eq!(sql, "ALTER TABLE public.t1 ADD COLUMN IF NOT EXISTS \"c_2\" double precision");
}

#[test]
fn add_column_rejects_non_ascii_identifier() {
    assert!(matches!(
        build_add_column_sql(&column_args("usérs", "email", "text")),
        Err(AddColumnError::InvalidIdentifier { .. })
    ));
}

fn check_args() -> AddCheckArgs {
    AddCheckArgs {
        schema: "public".to_string(),
        table: "orders".to_string(),
        constraint_name: "amount_positive".to_string(),
        rule: "amount > 0".to_string(),
    }
}

#[test]
fn check_constraint_queries() {
    let args = check_args();
    assert_eq!(resolve_add_check_constraint_name(&args).unwrap(), "amount_positive");
    assert_eq!(
        resolve_add_check_phase_one_query("public", "orders", "amount_positive", "amount > 0").unwrap(),
        "ALTER TABLE \"public\".\"orders\" ADD CONSTRAINT amount_positive CHECK (amount > 0) NOT VALID;"
    );
    assert_eq!(
        resolve_constraint_validate_query("public", "orders", "amount_positive").unwrap(),
        "ALTER TABLE \"public\".\"orders\" VALIDATE CONSTRAINT amount_positive"
    );
    assert_eq!(
        resolve_drop_check_query("public", "orders", "amount_positive").unwrap(),
        "ALTER TABLE \"public\".\"orders\" DROP CONSTRAINT amount_positive"
    );
}

#[test]
fn check_plan_holds_every_statement() {
    let plan = plan_add_check(&check_args()).unwrap();
    assert_eq!(plan.constraint_name, "amount_positive");
    assert_eq!(
        plan.add_query,
        "ALTER TABLE \"public\".\"orders\" ADD CONSTRAINT amount_positive CHECK (amount > 0) NOT VALID;"
    );
    assert_eq!(plan.validate_query, "ALTER TABLE \"public\".\"orders\" VALIDATE CONSTRAINT amount_positive");
    assert_eq!(plan.drop_query, "ALTER TABLE \"public\".\"orders\" DROP CONSTRAINT amount_positive");
    assert_eq!(
        plan.state_query,
        "SELECT convalidated FROM pg_constraint WHERE conrelid = '\"public\".\"orders\"'::regclass AND conname = $1;"
    );
    assert!(plan.post_query.is_none());
}

#[test]
fn check_plan_rejects_bad_constraint_name_before_table() {
    let mut args = check_args();
    args.constraint_name = "bad name".to_string();
    args.table = String::new();
    match plan_add_check(&args) {
        Err(e @ AddConstraintError::InvalidIdentifier { .. }) => {
            assert_eq!(e.to_string(), "invalid identifier 'bad name': invalid character in identifier")
        }
        other => panic!("unexpected {:?}", other),
    }
}

#[test]
fn check_plan_rejects_empty_schema() {
    let mut args = check_args();
    args.schema = String::new();
    match plan_add_check(&args) {
        Err(AddConstraintError::InvalidIdentifier { name, reason }) => {
            assert_eq!(name, "");
            assert_eq!(reason, "identifier cannot be empty");
        }
        other => panic!("unexpected {:?}", other),
    }
}

fn fk_args() -> AddForeignKeyArgs {
    AddForeignKeyArgs {
        schema: "public".to_string(),
        table: "c_orders".to_string(),
        constraint_name: None,
        column: "parent_id".to_string(),
        foreign_table_name: "p_orders".to_string(),
        foreign_column_name: "id".to_string(),
    }
}

#[test]
fn foreign_key_default_name_and_query() {
    let args = fk_args();
    assert_eq!(resolve_add_foreign_key_constraint_name(&args).unwrap(), "c_orders_p_orders_id_fkey");
    assert_eq!(
        resolve_add_foreign_key_query(&args, "c_orders_p_orders_id_fkey").unwrap(),
        "ALTER TABLE \"public\".\"c_orders\" ADD CONSTRAINT c_orders_p_orders_id_fkey FOREIGN KEY (parent_id) REFERENCES p_orders(id) NOT VALID;"
    );
    let plan = plan_add_foreign_key(&args).unwrap();
    assert_eq!(plan.constraint_name, "c_orders_p_orders_id_fkey");
    assert_eq!(plan.validate_query, "ALTER TABLE \"public\".\"c_orders\" VALIDATE CONSTRAINT c_orders_p_orders_id_fkey");
}

#[test]
fn foreign_key_named_constraint_is_checked() {
    let mut args = fk_args();
    args.constraint_name = Some("fk-1".to_string());
    match plan_add_foreign_key(&args) {
        Err(AddConstraintError::InvalidIdentifier { name, .. }) => assert_eq!(name, "fk-1"),
        other => panic!("unexpected {:?}", other),
    }
    args.constraint_name = Some("fk_1".to_string());
    assert_eq!(plan_add_foreign_key(&args).unwrap().constraint_name, "fk_1");
}

#[test]
fn foreign_key_rejects_bad_referenced_column() {
    let mut args = fk_args();
    args.foreign_column_name = "id;drop".to_string();
    match resolve_add_foreign_key_query(&args, "x") {
        Err(AddConstraintError::InvalidIdentifier { name, .. }) => assert_eq!(name, "id;drop"),
        other => panic!("unexpected {:?}", other),
    }
}

#[test]
fn non_null_plan_adds_check_then_sets_not_null() {
    let args = AddNonNullArgs {
        schema: "public".to_string(),
        table: "orders".to_string(),
        column: "status".to_string(),
    };
    assert_eq!(resolve_non_null_constraint_name(&args).unwrap(), "orders_status_nonNull");
    assert_eq!(
        resolve_non_null_constraint_query("public", "orders", "status"),
        "ALTER TABLE \"public\".\"orders\" ALTER COLUMN status SET NOT NULL"
    );
    let plan = plan_add_non_null(&args).unwrap();
    assert_eq!(
        plan.add_query,
        "ALTER TABLE \"public\".\"orders\" ADD CONSTRAINT orders_status_nonNull CHECK (status is not null) NOT VALID;"
    );
    assert_eq!(
        plan.post_query.as_deref(),
        Some("ALTER TABLE \"public\".\"orders\" ALTER COLUMN status SET NOT NULL")
    );
}

#[test]
fn constraint_state_from_catalog_rows() {
    assert_eq!(constraint_state_from_rows(&vec![]).unwrap(), ConstraintState::Missing);
    assert_eq!(constraint_state_from_rows(&vec![true]).unwrap(), ConstraintState::Valid);
    assert_eq!(constraint_state_from_rows(&vec![false]).unwrap(), ConstraintState::Invalid);
    match constraint_state_from_rows(&vec![true, false]) {
        Err(e @ AddConstraintError::InvalidState(_)) => {
            assert_eq!(e.to_string(), "invalid state: multiple constraint found")
        }
        other => panic!("unexpected {:?}", other),
    }
}

fn index_args(columns: &[&str], name: Option<&str>) -> AddIndexArgs {
    AddIndexArgs {
        schema: "public".to_string(),
        table: "workload".to_string(),
        index_name: name.map(|n| n.to_string()),
        columns: columns.iter().map(|c| c.to_string()).collect(),
        unique: false,
    }
}

#[test]
fn index_name_defaults_to_table_and_columns() {
    assert_eq!(resolve_index_name(&index_args(&["a", "b"], None)).unwrap(), "workload_a_b_idx");
    assert_eq!(default_index_name("t", &vec!["x".to_string()]), "t_x_idx");
    assert_eq!(
        resolve_index_name(&index_args(&["payload"], Some("workload_payload_idx"))).unwrap(),
        "workload_payload_idx"
    );
}

#[test]
fn index_name_errors() {
    match resolve_index_name(&index_args(&[], None)) {
        Err(AddIndexError::InvalidColumns { message }) => assert_eq!(message, "index must not be empty"),
        other => panic!("unexpected {:?}", other),
    }
    match resolve_index_name(&index_args(&["a"], Some("bad name"))) {
        Err(e @ AddIndexError::InvalidIdentifier { .. }) => assert_eq!(
            e.to_string(),
            "invalid identifier 'bad name': identifier must start with an underscore"
        ),
        other => panic!("unexpected {:?}", other),
    }
}

#[test]
fn create_index_sql_quotes_every_name() {
    let sql = build_create_index_sql(&index_args(&["payload"], None), "workload_payload_idx").unwrap();
    assert_eq!(
        sql,
        "CREATE INDEX CONCURRENTLY IF NOT EXISTS \"workload_payload_idx\" ON \"public\".\"workload\" (\"payload\")"
    );
    let mut args = index_args(&["a", "b", "c"], None);
    args.unique = true;
    assert_eq!(
        build_create_index_sql(&args, "abc").unwrap(),
        "CREATE UNIQUE INDEX CONCURRENTLY IF NOT EXISTS \"abc\" ON \"public\".\"workload\" (\"a\", \"b\", \"c\")"
    );
}

#[test]
fn create_index_sql_errors_in_order() {
    match build_create_index_sql(&index_args(&[], None), "i") {
        Err(AddIndexError::InvalidColumns { message }) => assert_eq!(message, "At least one column is required"),
        other => panic!("unexpected {:?}", other),
    }
    match build_create_index_sql(&index_args(&["ok", "no good", "bad!"], None), "i") {
        Err(AddIndexError::InvalidIdentifier { name, .. }) => assert_eq!(name, "no good"),
        other => panic!("unexpected {:?}", other),
    }
    match build_create_index_sql(&index_args(&["no good"], None), "") {
        Err(AddIndexError::InvalidIdentifier { name, reason }) => {
            assert_eq!(name, "");
            assert_eq!(reason, "identifier cannot be empty");
        }
        other => panic!("unexpected {:?}", other),
    }
}

#[test]
fn drop_and_validity_queries() {
    assert_eq!(
        build_drop_index_sql("public", "workload_payload_idx").unwrap(),
        "DROP INDEX CONCURRENTLY IF EXISTS \"public\".\"workload_payload_idx\""
    );
    assert!(matches!(build_drop_index_sql("public", "x y"), Err(AddIndexError::InvalidIdentifier { .. })));
    assert_eq!(
        build_validity_check_sql("public", "i"),
        "SELECT indisvalid FROM pg_index WHERE indexrelid = '\"public\".\"i\"'::regclass"
    );
}

#[test]
fn index_state_from_catalog_rows() {
    assert_eq!(index_state_from_rows("public", "i", &vec![]).unwrap(), IndexState::Missing);
    assert_eq!(index_state_from_rows("public", "i", &vec![true]).unwrap(), IndexState::Valid);
    assert_eq!(index_state_from_rows("public", "i", &vec![false]).unwrap(), IndexState::Invalid);
    match index_state_from_rows("public", "i", &vec![false, true]) {
        Err(AddIndexError::InvalidColumns { message }) => {
            assert_eq!(message, "multiple indexes name 'i' in schema 'public'")
        }
        other => panic!("unexpected {:?}", other),
    }
}

#[test]
fn non_null_plan_checks_the_column_after_schema_and_table() {
    let args = AddNonNullArgs {
        schema: "public".to_string(),
        table: "t".to_string(),
        column: "x; DROP TABLE t".to_string(),
    };
    match plan_add_non_null(&args) {
        Err(e @ AddConstraintError::InvalidIdentifier { .. }) => {
            assert_eq!(e.to_string(), "invalid identifier 'x; DROP TABLE t': invalid character in identifier")
        }
        other => panic!("unexpected {:?}", other),
    }
    let args = AddNonNullArgs { schema: "public".to_string(), table: "".to_string(), column: "".to_string() };
    match plan_add_non_null(&args) {
        Err(AddConstraintError::InvalidIdentifier { name, reason }) => {
            assert_eq!(name, "");
            assert_eq!(reason, "identifier cannot be empty");
        }
        other => panic!("unexpected {:?}", other),
    }
}
