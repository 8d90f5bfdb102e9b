use pgmorph::db::{
    check_table_found, column_from_row, format_table_info, group_foreign_keys, Column, ForeignKey,
    ForeignKeyRow, Index, IntrospectError, TableInfo,
};
use pgmorph::text::{decimal_text, join_texts};

fn users() -> TableInfo {
    TableInfo {
        schema: "public".to_string(),
        name: "users".to_string(),
        columns: vec![
            Column {
                name: "id".to_string(),
                data_type: "integer".to_string(),
                nullable: false,
                default_value: Some("nextval('users_id_seq'::regclass)".to_string()),
            },
            Column {
                name: "email".to_string(),
                data_type: "text".to_string(),
                nullable: true,
                default_value: None,
            },
        ],
        primary_key: vec!["id".to_string()],
        foreign_keys: vec![],
        indexes: vec![Index {
            name: "users_pkey".to_string(),
            columns: vec!["id".to_string()],
            is_unique: true,
            is_primary: true,
        }],
    }
}

#[test]
fn report_on_a_table() {
    let expected = "Table: public users\n\
\n\
Columns:\n\
\x20   id               integer              NOT NULL   default: nextval('users_id_seq'::regclass)\n\
\x20   email            text                 NULL       default: (no default)\n\
\n\
Primary Key:\n\
\x20 id\n\
\n\
Indexes:\n\
\x20 users_pkey (PRIMARY, UNIQUE) on (id)\n\
\n\
Foreign keys:\n\
\x20(none)\n";
    assert_eq!(format_table_info(&users()), expected);
}

#[test]
fn report_pads_like_std_formatting() {
    let info = users();
    let report = format_table_info(&info);
    for column in &info.columns {
        let nullable = if column.nullable { "NULL" } else { "NOT NULL" };
        let default = column.default_value.as_deref().unwrap_or("(no default)");
        let line = format!("    {:<16} {:<20} {:<10} default: {default}\n", column.name, column.data_type, nullable);
        assert!(report.contains(&line));
    }
}

#[test]
fn report_on_an_empty_table_with_foreign_keys() {
    let info = TableInfo {
        schema: "s".to_string(),
        name: "c".to_string(),
        columns: vec![Column {
            name: "a_very_long_column_name".to_string(),
            data_type: "character varying(255) with more".to_string(),
            nullable: false,
            default_value: None,
        }],
        primary_key: vec![],
        foreign_keys: vec![ForeignKey {
            name: "c_p_fkey".to_string(),
            columns: vec!["a".to_string(), "b".to_string()],
            reference_schema: "public".to_string(),
            reference_table: "p".to_string(),
            references_columns: vec!["x".to_string(), "y".to_string()],
        }],
        indexes: vec![
            Index { name: "i1".to_string(), columns: vec!["a".to_string()], is_unique: false, is_primary: false },
            Index { name: "i2".to_string(), columns: vec!["a".to_string(), "b".to_string()], is_unique: true, is_primary: false },
        ],
    };
    let expected = "Table: s c\n\nColumns:\n    a_very_long_column_name character varying(255) with more NOT NULL   default: (no default)\n\nPrimary Key:\n  (none)\n\nIndexes:\n  i1 (NON-UNIQUE) on (a)\n  i2 (UNIQUE) on (a, b)\n\nForeign keys:\n    c_p_fkey: (a, b) -> public.p(x, y)\n";
    assert_eq!(format_table_info(&info), expected);
}

#[test]
fn report_with_no_columns_and_no_indexes() {
    let info = TableInfo {
        schema: "s".to_string(),
        name: "t".to_string(),
        columns: vec![],
        primary_key: vec!["a".to_string(), "b".to_string()],
        foreign_keys: vec![],
        indexes: vec![Index { name: "p".to_string(), columns: vec![], is_unique: false, is_primary: true }],
    };
    assert_eq!(
        format_table_info(&info),
        "Table: s t\n\nColumns:\n (none)\n\nPrimary Key:\n  a, b\n\nIndexes:\n  p (PRIMARY) on ()\n\nForeign keys:\n (none)\n"
    );
}

fn row(name: &str, column: &str, table: &str, reference_column: &str) -> ForeignKeyRow {
    ForeignKeyRow {
        name: name.to_string(),
        column: column.to_string(),
        reference_schema: "public".to_string(),
        reference_table: table.to_string(),
        reference_column: reference_column.to_string(),
    }
}

#[test]
fn foreign_key_rows_are_grouped_by_name() {
    let fks = group_foreign_keys(vec![
        row("fk_a", "a1", "pa", "x1"),
        row("fk_b", "b1", "pb", "y1"),
        row("fk_a", "a2", "pa", "x2"),
    ]);
    assert_eq!(fks.len(), 2);
    assert_eq!(fks[0].name, "fk_a");
    assert_eq!(fks[0].columns, vec!["a1", "a2"]);
    assert_eq!(fks[0].references_columns, vec!["x1", "x2"]);
    assert_eq!(fks[0].reference_table, "pa");
    assert_eq!(fks[1].name, "fk_b");
    assert_eq!(fks[1].columns, vec!["b1"]);
    assert!(group_foreign_keys(vec![]).is_empty());
}

#[test]
fn columns_from_rows() {
    let nullable = column_from_row("status".to_string(), "text".to_string(), "YES", None);
    assert!(nullable.nullable);
    let not_null = column_from_row("amount".to_string(), "numeric".to_string(), "NO", Some("0".to_string()));
    assert!(!not_null.nullable);
    assert_eq!(not_null.default_value.as_deref(), Some("0"));
    assert!(!column_from_row("x".to_string(), "t".to_string(), "yes", None).nullable);
}

#[test]
fn missing_table_is_reported() {
    assert!(check_table_found("public", "users", true).is_ok());
    match check_table_found("public", "ghosts", false) {
        Err(e @ IntrospectError::TableNotFound { .. }) => assert_eq!(e.to_string(), "Table public not found"),
        other => panic!("unexpected {:?}", other),
    }
    let db = IntrospectError::from(pgmorph::db::DatabaseError { code: None, message: "gone".to_string() });
    assert_eq!(db.to_string(), "Database error: gone");
}

#[test]
fn text_helpers() {
    assert_eq!(decimal_text(0), "0");
    assert_eq!(decimal_text(7), "7");
    assert_eq!(decimal_text(1234567890), "1234567890");
    assert_eq!(decimal_text(u64::MAX), u64::MAX.to_string());
    assert_eq!(join_texts(&vec![], ", "), "");
    assert_eq!(join_texts(&vec!["a".to_string()], ", "), "a");
    assert_eq!(join_texts(&vec!["a".to_string(), "b".to_string()], "_"), "a_b");
}
