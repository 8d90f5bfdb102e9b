//! Adding CHECK, FOREIGN KEY and NOT NULL constraints without holding a long
//! exclusive lock: the constraint is added `NOT VALID`, then validated.
use crate::db::identifier::{
    first_invalid_identifier, identifier_fault, identifier_fault_of, is_valid_identifier,
    lemma_first_invalid_append, lemma_first_invalid_identifier, lemma_first_invalid_short,
    IdentifierFault,
};
use crate::config::MigrationConfig;
use crate::db::retry::{retry_error_text, DatabaseError, RetryError};
use vstd::prelude::*;
use vstd::std_specs::convert::FromSpecImpl;
use vstd::string::*;

verus! {

/// What the catalog says of a constraint.
#[derive(Debug, Clone, Copy, PartialEq, Eq)]
pub enum ConstraintState {
    /// There is no constraint of that name on the table.
    Missing,
    /// The constraint exists and has been validated.
    Valid,
    /// The constraint exists but is still `NOT VALID`.
    Invalid,
}

/// Why a constraint could not be added.
#[derive(Debug)]
pub enum AddConstraintError {
    /// A name is not acceptable.
    InvalidIdentifier { name: String, reason: String },
    /// Running a statement failed.
    Retry(RetryError),
    /// Reading the catalog failed.
    Database(DatabaseError),
    /// The constraint ended up in a state that the migration cannot go on from.
    InvalidState(String),
}

/// A CHECK constraint to add.
#[derive(Debug, Clone)]
pub struct AddCheckArgs {
    pub schema: String,
    pub table: String,
    pub constraint_name: String,
    pub rule: String,
}

/// A single-column FOREIGN KEY constraint to add.
#[derive(Debug, Clone)]
pub struct AddForeignKeyArgs {
    pub schema: String,
    pub table: String,
    pub constraint_name: Option<String>,
    pub column: String,
    pub foreign_table_name: String,
    pub foreign_column_name: String,
}

/// A column to make NOT NULL.
#[derive(Debug, Clone)]
pub struct AddNonNullArgs {
    pub schema: String,
    pub table: String,
    pub column: String,
}

/// The reason given when `name` is not a valid identifier.
pub open spec fn identifier_reason(name: Seq<char>) -> Option<Seq<char>> {
    match identifier_fault_of(name) {
        Some(IdentifierFault::Empty) => Some("identifier cannot be empty"@),
        Some(IdentifierFault::InvalidCharacter) => Some("invalid character in identifier"@),
        None => None,
    }
}

/// `r` is the error for the first name of `names` that is not a valid
/// identifier.
pub open spec fn rejects_first(names: Seq<Seq<char>>, r: AddConstraintError) -> bool {
    first_invalid_identifier(names) matches Some(bad) && (r matches AddConstraintError::InvalidIdentifier {
        name,
        reason,
    } && name@ == bad && Some(reason@) == identifier_reason(bad))
}

fn validate_identifier(name: &str) -> (r: Result<(), AddConstraintError>)
    ensures
        match r {
            Ok(()) => identifier_reason(name@) is None,
            Err(AddConstraintError::InvalidIdentifier { name: n, reason }) => identifier_reason(
                name@,
            ) == Some(reason@) && n@ == name@,
            Err(_) => false,
        },
{
    match identifier_fault(name) {
        Some(IdentifierFault::Empty) => Err(
            AddConstraintError::InvalidIdentifier {
                name: String::from_str(name),
                reason: String::from_str("identifier cannot be empty"),
            },
        ),
        Some(IdentifierFault::InvalidCharacter) => Err(
            AddConstraintError::InvalidIdentifier {
                name: String::from_str(name),
                reason: String::from_str("invalid character in identifier"),
            },
        ),
        None => Ok(()),
    }
}

/// `"schema"."table"`.
pub open spec fn quoted_table(schema: Seq<char>, table: Seq<char>) -> Seq<char> {
    "\""@ + schema + "\".\""@ + table + "\""@
}

fn append_quoted_table(sql: &mut String, schema: &str, table: &str)
    ensures
        final(sql)@ == old(sql)@ + quoted_table(schema@, table@),
{
    sql.append("\"");
    sql.append(schema);
    sql.append("\".\"");
    sql.append(table);
    sql.append("\"");
}

/// The name of the CHECK constraint: the one asked for, once it is checked.
pub fn resolve_add_check_constraint_name(args: &AddCheckArgs) -> (r: Result<String, AddConstraintError>)
    ensures
        match r {
            Ok(name) => identifier_reason(args.constraint_name@) is None && name@
                == args.constraint_name@,
            Err(e) => rejects_first(seq![args.constraint_name@], e),
        },
{
    if let Err(e) = validate_identifier(args.constraint_name.as_str()) {
        return Err(e);
    }
    Ok(args.constraint_name.clone())
}

/// The default name of a foreign key: `table_foreigntable_foreigncolumn_fkey`.
pub open spec fn default_foreign_key_name(args: AddForeignKeyArgs) -> Seq<char> {
    args.table@ + "_"@ + args.foreign_table_name@ + "_"@ + args.foreign_column_name@ + "_fkey"@
}

/// The name of the foreign key: the one asked for, once it is checked, or
/// else the default name.
pub fn resolve_add_foreign_key_constraint_name(args: &AddForeignKeyArgs) -> (r: Result<
    String,
    AddConstraintError,
>)
    ensures
        match args.constraint_name {
            Some(asked) => match r {
                Ok(name) => identifier_reason(asked@) is None && name@ == asked@,
                Err(e) => rejects_first(seq![asked@], e),
            },
            None => r matches Ok(name) && name@ == default_foreign_key_name(*args),
        },
{
    if let Some(constraint_name) = &args.constraint_name {
        if let Err(e) = validate_identifier(constraint_name.as_str()) {
            return Err(e);
        }
        return Ok(constraint_name.clone());
    }
    let mut name = args.table.clone();
    name.append("_");
    name.append(args.foreign_table_name.as_str());
    name.append("_");
    name.append(args.foreign_column_name.as_str());
    name.append("_fkey");
    Ok(name)
}

/// The name of the check that stands for NOT NULL: `table_column_nonNull`.
pub open spec fn non_null_constraint_name(args: AddNonNullArgs) -> Seq<char> {
    args.table@ + "_"@ + args.column@ + "_nonNull"@
}

/// The name of the check that stands for NOT NULL while the column is
/// changed.
pub fn resolve_non_null_constraint_name(args: &AddNonNullArgs) -> (r: Result<String, AddConstraintError>)
    ensures
        r matches Ok(name) && name@ == non_null_constraint_name(*args),
{
    let mut name = args.table.clone();
    name.append("_");
    name.append(args.column.as_str());
    name.append("_nonNull");
    Ok(name)
}

/// `ALTER TABLE "schema"."table" ADD CONSTRAINT name CHECK (rule) NOT VALID;`
pub open spec fn add_check_query(
    schema: Seq<char>,
    table: Seq<char>,
    constraint_name: Seq<char>,
    rule: Seq<char>,
) -> Seq<char> {
    "ALTER TABLE "@ + quoted_table(schema, table) + " ADD CONSTRAINT "@ + constraint_name
        + " CHECK ("@ + rule + ") NOT VALID;"@
}

/// Builds the statement that adds a CHECK constraint without validating the
/// rows already there, after checking the schema and table names. The rule
/// is an SQL expression and is written as given.
pub fn resolve_add_check_phase_one_query(
    schema: &str,
    table: &str,
    constraint_name: &str,
    rule: &str,
) -> (r: Result<String, AddConstraintError>)
    ensures
        match r {
            Ok(sql) => first_invalid_identifier(seq![schema@, table@]) is None && sql@ == add_check_query(
                schema@,
                table@,
                constraint_name@,
                rule@,
            ),
            Err(e) => rejects_first(seq![schema@, table@], e),
        },
{
    proof {
        lemma_first_invalid_short(seq![schema@, table@]);
    }
    if let Err(e) = validate_identifier(schema) {
        return Err(e);
    }
    if let Err(e) = validate_identifier(table) {
        return Err(e);
    }
    let mut sql = String::from_str("ALTER TABLE ");
    append_quoted_table(&mut sql, schema, table);
    sql.append(" ADD CONSTRAINT ");
    sql.append(constraint_name);
    sql.append(" CHECK (");
    sql.append(rule);
    sql.append(") NOT VALID;");
    assert(sql@ =~= add_check_query(schema@, table@, constraint_name@, rule@));
    Ok(sql)
}

/// The names of a foreign key request, in the order they are checked.
pub open spec fn foreign_key_names(args: AddForeignKeyArgs) -> Seq<Seq<char>> {
    seq![
        args.schema@,
        args.table@,
        args.foreign_table_name@,
        args.foreign_column_name@,
        args.column@,
    ]
}

/// `ALTER TABLE "schema"."table" ADD CONSTRAINT name FOREIGN KEY (column)
/// REFERENCES foreign_table(foreign_column) NOT VALID;`
pub open spec fn add_foreign_key_query(args: AddForeignKeyArgs, constraint_name: Seq<char>) -> Seq<
    char,
> {
    "ALTER TABLE "@ + quoted_table(args.schema@, args.table@) + " ADD CONSTRAINT "@
        + constraint_name + " FOREIGN KEY ("@ + args.column@ + ") REFERENCES "@
        + args.foreign_table_name@ + "("@ + args.foreign_column_name@ + ") NOT VALID;"@
}

/// Every name that the foreign key statement holds, the referencing column
/// and the referenced table and column among them, is an identifier.
pub open spec fn foreign_key_statement_names_valid(args: AddForeignKeyArgs) -> bool {
    &&& is_valid_identifier(args.schema@)
    &&& is_valid_identifier(args.table@)
    &&& is_valid_identifier(args.column@)
    &&& is_valid_identifier(args.foreign_table_name@)
    &&& is_valid_identifier(args.foreign_column_name@)
}

/// `r` is what building the foreign key statement of `args` under
/// `constraint_name` gives: the statement once every name of the request is
/// an identifier, else the error for the first name that is not.
pub open spec fn foreign_key_query_outcome(
    args: AddForeignKeyArgs,
    constraint_name: Seq<char>,
    r: Result<String, AddConstraintError>,
) -> bool {
    match r {
        Ok(sql) => first_invalid_identifier(foreign_key_names(args)) is None && sql@
            == add_foreign_key_query(args, constraint_name),
        Err(e) => rejects_first(foreign_key_names(args), e),
    }
}

/// Builds the statement that adds the foreign key without validating the
/// rows already there, after checking every name of the request.
pub fn resolve_add_foreign_key_query(args: &AddForeignKeyArgs, constraint_name: &str) -> (r: Result<
    String,
    AddConstraintError,
>)
    ensures
        foreign_key_query_outcome(*args, constraint_name@, r),
        r is Ok <==> foreign_key_statement_names_valid(*args),
{
    let ghost names = foreign_key_names(*args);
    proof {
        lemma_first_invalid_short(names);
    }
    if let Err(e) = validate_identifier(args.schema.as_str()) {
        return Err(e);
    }
    if let Err(e) = validate_identifier(args.table.as_str()) {
        return Err(e);
    }
    if let Err(e) = validate_identifier(args.foreign_table_name.as_str()) {
        return Err(e);
    }
    if let Err(e) = validate_identifier(args.foreign_column_name.as_str()) {
        return Err(e);
    }
    if let Err(e) = validate_identifier(args.column.as_str()) {
        return Err(e);
    }

    let mut sql = String::from_str("ALTER TABLE ");
    append_quoted_table(&mut sql, args.schema.as_str(), args.table.as_str());
    sql.append(" ADD CONSTRAINT ");
    sql.append(constraint_name);
    sql.append(" FOREIGN KEY (");
    sql.append(args.column.as_str());
    sql.append(") REFERENCES ");
    sql.append(args.foreign_table_name.as_str());
    sql.append("(");
    sql.append(args.foreign_column_name.as_str());
    sql.append(") NOT VALID;");
    assert(sql@ =~= add_foreign_key_query(*args, constraint_name@));
    proof {
        lemma_foreign_key_names_valid(*args);
    }
    Ok(sql)
}

/// `ALTER TABLE "schema"."table" DROP CONSTRAINT name`
pub open spec fn drop_constraint_query(
    schema: Seq<char>,
    table: Seq<char>,
    constraint_name: Seq<char>,
) -> Seq<char> {
    "ALTER TABLE "@ + quoted_table(schema, table) + " DROP CONSTRAINT "@ + constraint_name
}

/// Builds the statement that drops the constraint.
pub fn resolve_drop_check_query(schema: &str, table: &str, constraint_name: &str) -> (r: Result<
    String,
    AddConstraintError,
>)
    ensures
        r matches Ok(sql) && sql@ == drop_constraint_query(schema@, table@, constraint_name@),
{
    let mut sql = String::from_str("ALTER TABLE ");
    append_quoted_table(&mut sql, schema, table);
    sql.append(" DROP CONSTRAINT ");
    sql.append(constraint_name);
    assert(sql@ =~= drop_constraint_query(schema@, table@, constraint_name@));
    Ok(sql)
}

/// `ALTER TABLE "schema"."table" VALIDATE CONSTRAINT name`
pub open spec fn validate_constraint_query(
    schema: Seq<char>,
    table: Seq<char>,
    constraint_name: Seq<char>,
) -> Seq<char> {
    "ALTER TABLE "@ + quoted_table(schema, table) + " VALIDATE CONSTRAINT "@ + constraint_name
}

/// Builds the statement that validates the rows already in the table
/// against the constraint.
pub fn resolve_constraint_validate_query(schema: &str, table: &str, constraint_name: &str) -> (r:
    Result<String, AddConstraintError>)
    ensures
        r matches Ok(sql) && sql@ == validate_constraint_query(schema@, table@, constraint_name@),
{
    let mut sql = String::from_str("ALTER TABLE ");
    append_quoted_table(&mut sql, schema, table);
    sql.append(" VALIDATE CONSTRAINT ");
    sql.append(constraint_name);
    assert(sql@ =~= validate_constraint_query(schema@, table@, constraint_name@));
    Ok(sql)
}

/// `ALTER TABLE "schema"."table" ALTER COLUMN column SET NOT NULL`
pub open spec fn set_not_null_query(schema: Seq<char>, table: Seq<char>, column: Seq<char>) -> Seq<
    char,
> {
    "ALTER TABLE "@ + quoted_table(schema, table) + " ALTER COLUMN "@ + column + " SET NOT NULL"@
}

/// Builds the statement that marks the column NOT NULL (cheap once a valid
/// check proves that no row holds NULL).
pub fn resolve_non_null_constraint_query(schema: &str, table: &str, column: &str) -> (r: String)
    ensures
        r@ == set_not_null_query(schema@, table@, column@),
{
    let mut sql = String::from_str("ALTER TABLE ");
    append_quoted_table(&mut sql, schema, table);
    sql.append(" ALTER COLUMN ");
    sql.append(column);
    sql.append(" SET NOT NULL");
    assert(sql@ =~= set_not_null_query(schema@, table@, column@));
    sql
}

/// The catalog query that reads whether the constraint named by its `$1`
/// parameter on `"schema"."table"` is validated.
pub open spec fn constraint_state_query_text(schema: Seq<char>, table: Seq<char>) -> Seq<char> {
    "SELECT convalidated FROM pg_constraint WHERE conrelid = '"@ + quoted_table(schema, table)
        + "'::regclass AND conname = $1;"@
}

/// Builds the catalog query that reads the state of a constraint; its one
/// parameter is the constraint's name.
pub fn constraint_state_query(schema: &str, table: &str) -> (r: String)
    ensures
        r@ == constraint_state_query_text(schema@, table@),
{
    let mut sql = String::from_str("SELECT convalidated FROM pg_constraint WHERE conrelid = '");
    append_quoted_table(&mut sql, schema, table);
    sql.append("'::regclass AND conname = $1;");
    assert(sql@ =~= constraint_state_query_text(schema@, table@));
    sql
}

/// Reads the state of a constraint from the `convalidated` values that the
/// catalog query returned: no row means it is missing, one row tells whether
/// it is validated, more rows are an error.
pub fn constraint_state_from_rows(rows: &Vec<bool>) -> (r: Result<ConstraintState, AddConstraintError>)
    ensures
        rows@.len() == 0 ==> r == Ok::<ConstraintState, AddConstraintError>(ConstraintState::Missing),
        rows@.len() == 1 ==> r == Ok::<ConstraintState, AddConstraintError>(
            if rows@[0] {
                ConstraintState::Valid
            } else {
                ConstraintState::Invalid
            },
        ),
        rows@.len() > 1 ==> (r matches Err(AddConstraintError::InvalidState(message)) && message@
            == "multiple constraint found"@),
{
    if rows.len() == 0 {
        Ok(ConstraintState::Missing)
    } else if rows.len() == 1 {
        if rows[0] {
            Ok(ConstraintState::Valid)
        } else {
            Ok(ConstraintState::Invalid)
        }
    } else {
        Err(AddConstraintError::InvalidState(String::from_str("multiple constraint found")))
    }
}

/// Everything that a constraint migration runs, worked out before its first
/// round trip.
#[derive(Debug)]
pub struct ConstraintPlan {
    pub schema: String,
    pub table: String,
    pub constraint_name: String,
    /// Adds the constraint `NOT VALID`.
    pub add_query: String,
    /// Validates the rows already in the table.
    pub validate_query: String,
    /// Drops the constraint.
    pub drop_query: String,
    /// Reads the state of the constraint; its one parameter is the
    /// constraint's name.
    pub state_query: String,
    /// Runs once the constraint is valid, if given.
    pub post_query: Option<String>,
}

/// `plan` holds the statements of a migration that adds the constraint
/// `name` to `schema.table` with `add_query`, then runs `post_query` once it
/// is valid.
pub open spec fn plan_holds(
    plan: ConstraintPlan,
    schema: Seq<char>,
    table: Seq<char>,
    name: Seq<char>,
    add_query: Seq<char>,
    post_query: Option<Seq<char>>,
) -> bool {
    &&& plan.schema@ == schema
    &&& plan.table@ == table
    &&& plan.constraint_name@ == name
    &&& plan.add_query@ == add_query
    &&& plan.validate_query@ == validate_constraint_query(schema, table, name)
    &&& plan.drop_query@ == drop_constraint_query(schema, table, name)
    &&& plan.state_query@ == constraint_state_query_text(schema, table)
    &&& match post_query {
        Some(q) => plan.post_query matches Some(p) && p@ == q,
        None => plan.post_query is None,
    }
}

fn make_plan(
    schema: &str,
    table: &str,
    constraint_name: String,
    add_query: String,
    post_query: Option<String>,
) -> (r: ConstraintPlan)
    ensures
        plan_holds(
            r,
            schema@,
            table@,
            constraint_name@,
            add_query@,
            match post_query {
                Some(q) => Some(q@),
                None => None,
            },
        ),
{
    let validate_query = match resolve_constraint_validate_query(schema, table, constraint_name.as_str()) {
        Ok(q) => q,
        Err(_) => String::new(),
    };
    let drop_query = match resolve_drop_check_query(schema, table, constraint_name.as_str()) {
        Ok(q) => q,
        Err(_) => String::new(),
    };
    ConstraintPlan {
        schema: String::from_str(schema),
        table: String::from_str(table),
        constraint_name,
        add_query,
        validate_query,
        drop_query,
        state_query: constraint_state_query(schema, table),
        post_query,
    }
}

/// Works out the statements that add the CHECK constraint of `args`: the
/// constraint name, then the schema and the table, must be identifiers.
pub fn plan_add_check(args: &AddCheckArgs) -> (r: Result<ConstraintPlan, AddConstraintError>)
    ensures
        match r {
            Ok(plan) => first_invalid_identifier(seq![args.constraint_name@, args.schema@, args.table@])
                is None && plan_holds(
                plan,
                args.schema@,
                args.table@,
                args.constraint_name@,
                add_check_query(args.schema@, args.table@, args.constraint_name@, args.rule@),
                None,
            ),
            Err(e) => rejects_first(seq![args.constraint_name@, args.schema@, args.table@], e),
        },
        r is Ok <==> is_valid_identifier(args.constraint_name@) && is_valid_identifier(args.schema@)
            && is_valid_identifier(args.table@),
{
    proof {
        lemma_first_invalid_short(seq![args.constraint_name@, args.schema@, args.table@]);
        lemma_first_invalid_short(seq![args.schema@, args.table@]);
        lemma_first_invalid_short(seq![args.constraint_name@]);
    }
    let constraint_name = match resolve_add_check_constraint_name(args) {
        Ok(name) => name,
        Err(e) => return Err(e),
    };
    let add_query = match resolve_add_check_phase_one_query(
        args.schema.as_str(),
        args.table.as_str(),
        constraint_name.as_str(),
        args.rule.as_str(),
    ) {
        Ok(q) => q,
        Err(e) => return Err(e),
    };
    Ok(make_plan(args.schema.as_str(), args.table.as_str(), constraint_name, add_query, None))
}

/// The names of a foreign key request in the order they are checked: the
/// constraint name asked for, if any, then those of the statement.
pub open spec fn foreign_key_checked_names(args: AddForeignKeyArgs) -> Seq<Seq<char>> {
    match args.constraint_name {
        Some(name) => seq![name@] + foreign_key_names(args),
        None => foreign_key_names(args),
    }
}

/// The name that a foreign key request resolves to.
pub open spec fn foreign_key_name(args: AddForeignKeyArgs) -> Seq<char> {
    match args.constraint_name {
        Some(name) => name@,
        None => default_foreign_key_name(args),
    }
}

/// `r` is what planning the foreign key of `args` gives: the plan of its
/// statements once every name of the request is an identifier, else the
/// error for the first name that is not.
pub open spec fn foreign_key_plan_outcome(
    args: AddForeignKeyArgs,
    r: Result<ConstraintPlan, AddConstraintError>,
) -> bool {
    match r {
        Ok(plan) => first_invalid_identifier(foreign_key_checked_names(args)) is None && plan_holds(
            plan,
            args.schema@,
            args.table@,
            foreign_key_name(args),
            add_foreign_key_query(args, foreign_key_name(args)),
            None,
        ),
        Err(e) => rejects_first(foreign_key_checked_names(args), e),
    }
}

/// Every name of a foreign key request is an identifier: those of its
/// statement, and the constraint name asked for, if any.
pub open spec fn foreign_key_request_names_valid(args: AddForeignKeyArgs) -> bool {
    &&& foreign_key_statement_names_valid(args)
    &&& args.constraint_name matches Some(name) ==> is_valid_identifier(name@)
}

/// Works out the statements that add the foreign key of `args`.
pub fn plan_add_foreign_key(args: &AddForeignKeyArgs) -> (r: Result<
    ConstraintPlan,
    AddConstraintError,
>)
    ensures
        foreign_key_plan_outcome(*args, r),
        r is Ok <==> foreign_key_request_names_valid(*args),
{
    proof {
        lemma_foreign_key_names_valid(*args);
    }
    proof {
        if let Some(name) = &args.constraint_name {
            lemma_first_invalid_append(seq![name@], foreign_key_names(*args));
            lemma_first_invalid_short(seq![name@]);
        }
    }
    let constraint_name = match resolve_add_foreign_key_constraint_name(args) {
        Ok(name) => name,
        Err(e) => return Err(e),
    };
    let add_query = match resolve_add_foreign_key_query(args, constraint_name.as_str()) {
        Ok(q) => q,
        Err(e) => return Err(e),
    };
    Ok(make_plan(args.schema.as_str(), args.table.as_str(), constraint_name, add_query, None))
}

/// `name` is one of the names that a foreign key request checks.
pub open spec fn is_foreign_key_request_name(args: AddForeignKeyArgs, name: Seq<char>) -> bool {
    ||| name == args.schema@
    ||| name == args.table@
    ||| name == args.column@
    ||| name == args.foreign_table_name@
    ||| name == args.foreign_column_name@
    ||| args.constraint_name matches Some(asked) && name == asked@
}

proof fn lemma_foreign_key_names_valid(args: AddForeignKeyArgs)
    ensures
        first_invalid_identifier(foreign_key_names(args)) is None
            <==> foreign_key_statement_names_valid(args),
        first_invalid_identifier(foreign_key_checked_names(args)) is None
            <==> foreign_key_request_names_valid(args),
        first_invalid_identifier(foreign_key_checked_names(args)) matches Some(bad)
            ==> !is_valid_identifier(bad) && is_foreign_key_request_name(args, bad),
{
    let names = foreign_key_names(args);
    let checked = foreign_key_checked_names(args);
    lemma_first_invalid_identifier(names);
    lemma_first_invalid_identifier(checked);
    assert(names[0] == args.schema@ && names[1] == args.table@ && names[2] == args.foreign_table_name@
        && names[3] == args.foreign_column_name@ && names[4] == args.column@);
    if let Some(bad) = first_invalid_identifier(checked) {
        let k = choose|k: int| 0 <= k < checked.len() && checked[k] == bad;
        if let Some(asked) = args.constraint_name {
            if k > 0 {
                assert(checked[k] == names[k - 1]);
            }
        }
    }
    if let Some(asked) = args.constraint_name {
        assert(checked[0] == asked@);
        assert forall|k: int| 0 <= k < names.len() implies checked[k + 1] == names[k] by {}
    }
}

/// Law: building the foreign key statement succeeds exactly when every name
/// that goes into it is an identifier (the referencing column included); on
/// failure the error names one of those names, which is not an identifier.
pub proof fn law_foreign_key_query_checks_every_name(
    args: AddForeignKeyArgs,
    constraint_name: Seq<char>,
    r: Result<String, AddConstraintError>,
)
    requires
        foreign_key_query_outcome(args, constraint_name, r),
    ensures
        r is Ok <==> foreign_key_statement_names_valid(args),
        r matches Err(e) ==> (e matches AddConstraintError::InvalidIdentifier { name, .. }
            && !is_valid_identifier(name@) && is_foreign_key_request_name(
            AddForeignKeyArgs { constraint_name: None, ..args },
            name@,
        )),
{
    lemma_foreign_key_names_valid(args);
    lemma_foreign_key_names_valid(AddForeignKeyArgs { constraint_name: None, ..args });
}

/// Law: planning a foreign key succeeds exactly when every name of the
/// request is an identifier: the schema, the table, the referencing column,
/// the referenced table and column, and the constraint name asked for; on
/// failure the error names one of them, which is not an identifier.
pub proof fn law_foreign_key_plan_checks_every_name(
    args: AddForeignKeyArgs,
    r: Result<ConstraintPlan, AddConstraintError>,
)
    requires
        foreign_key_plan_outcome(args, r),
    ensures
        r is Ok <==> foreign_key_request_names_valid(args),
        r matches Err(e) ==> (e matches AddConstraintError::InvalidIdentifier { name, .. }
            && !is_valid_identifier(name@) && is_foreign_key_request_name(args, name@)),
{
    lemma_foreign_key_names_valid(args);
}

/// The rule of the check that stands for NOT NULL: `column is not null`.
pub open spec fn non_null_rule(column: Seq<char>) -> Seq<char> {
    column + " is not null"@
}

/// Works out the statements that make the column of `args` NOT NULL: the
/// schema, the table and the column must be identifiers (checked in that
/// order); a check `column is not null` is added `NOT VALID` and validated,
/// then the column is marked NOT NULL.
pub fn plan_add_non_null(args: &AddNonNullArgs) -> (r: Result<ConstraintPlan, AddConstraintError>)
    ensures
        match r {
            Ok(plan) => first_invalid_identifier(seq![args.schema@, args.table@, args.column@]) is None
                && plan_holds(
                plan,
                args.schema@,
                args.table@,
                non_null_constraint_name(*args),
                add_check_query(
                    args.schema@,
                    args.table@,
                    non_null_constraint_name(*args),
                    non_null_rule(args.column@),
                ),
                Some(set_not_null_query(args.schema@, args.table@, args.column@)),
            ),
            Err(e) => rejects_first(seq![args.schema@, args.table@, args.column@], e),
        },
        r is Ok <==> is_valid_identifier(args.schema@) && is_valid_identifier(args.table@)
            && is_valid_identifier(args.column@),
{
    proof {
        lemma_first_invalid_short(seq![args.schema@, args.table@, args.column@]);
        lemma_first_invalid_short(seq![args.schema@, args.table@]);
    }
    let constraint_name = match resolve_non_null_constraint_name(args) {
        Ok(name) => name,
        Err(e) => return Err(e),
    };
    let mut rule = args.column.clone();
    rule.append(" is not null");
    let add_query = match resolve_add_check_phase_one_query(
        args.schema.as_str(),
        args.table.as_str(),
        constraint_name.as_str(),
        rule.as_str(),
    ) {
        Ok(q) => q,
        Err(e) => return Err(e),
    };
    if let Err(e) = validate_identifier(args.column.as_str()) {
        return Err(e);
    }
    let post = resolve_non_null_constraint_query(
        args.schema.as_str(),
        args.table.as_str(),
        args.column.as_str(),
    );
    Ok(make_plan(args.schema.as_str(), args.table.as_str(), constraint_name, add_query, Some(post)))
}

/// The text of an error of adding a constraint.
pub open spec fn add_constraint_error_text(e: AddConstraintError) -> Seq<char> {
    match e {
        AddConstraintError::InvalidIdentifier { name, reason } => "invalid identifier '"@ + name@
            + "': "@ + reason@,
        AddConstraintError::Retry(error) => "retry error: "@ + retry_error_text(error),
        AddConstraintError::Database(error) => "database error: "@ + error.message@,
        AddConstraintError::InvalidState(state) => "invalid state: "@ + state@,
    }
}

impl AddConstraintError {
    /// Describes the error for a person.
    pub fn to_string(&self) -> (r: String)
        ensures
            r@ == add_constraint_error_text(*self),
    {
        match self {
            AddConstraintError::InvalidIdentifier { name, reason } => {
                let mut text = String::from_str("invalid identifier '");
                text.append(name.as_str());
                text.append("': ");
                text.append(reason.as_str());
                text
            },
            AddConstraintError::Retry(error) => {
                let mut text = String::from_str("retry error: ");
                text.append(error.to_string().as_str());
                text
            },
            AddConstraintError::Database(error) => {
                let mut text = String::from_str("database error: ");
                text.append(error.message.as_str());
                text
            },
            AddConstraintError::InvalidState(state) => {
                let mut text = String::from_str("invalid state: ");
                text.append(state.as_str());
                text
            },
        }
    }
}

impl From<RetryError> for AddConstraintError {
    /// A failed statement.
    fn from(error: RetryError) -> (r: Self) {
        AddConstraintError::Retry(error)
    }
}

impl FromSpecImpl<RetryError> for AddConstraintError {
    open spec fn obeys_from_spec() -> bool {
        true
    }

    open spec fn from_spec(error: RetryError) -> Self {
        AddConstraintError::Retry(error)
    }
}

impl From<DatabaseError> for AddConstraintError {
    /// A failed catalog read.
    fn from(error: DatabaseError) -> (r: Self) {
        AddConstraintError::Database(error)
    }
}

impl FromSpecImpl<DatabaseError> for AddConstraintError {
    open spec fn obeys_from_spec() -> bool {
        true
    }

    open spec fn from_spec(error: DatabaseError) -> Self {
        AddConstraintError::Database(error)
    }
}

} // verus!
