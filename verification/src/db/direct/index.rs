//! Building an index with `CREATE INDEX CONCURRENTLY`, which does not block
//! writes but can leave an invalid index behind when it fails.
use crate::db::identifier::{
    first_invalid_identifier, identifier_fault, identifier_fault_of, is_valid_identifier,
    lemma_first_invalid_append, lemma_first_invalid_identifier, lemma_first_invalid_short,
    IdentifierFault,
};
use crate::db::retry::{retry_error_text, DatabaseError, RetryError};
use crate::text::{decimal, decimal_text, join, join_texts, lemma_join_push, string_views};
use vstd::prelude::*;
use vstd::std_specs::convert::FromSpecImpl;
use vstd::string::*;

verus! {

/// What the catalog says of an index.
#[derive(Debug, Clone, Copy, PartialEq, Eq)]
pub enum IndexState {
    /// There is no index of that name in the schema.
    Missing,
    /// The index exists and can be used.
    Valid,
    /// The index exists but its build did not finish.
    Invalid,
}

/// Why an index could not be added.
#[derive(Debug)]
pub enum AddIndexError {
    /// A name is not acceptable.
    InvalidIdentifier { name: String, reason: String },
    /// The columns, or the index that was built from them, are not right.
    InvalidColumns { message: String },
    /// Running a statement failed.
    Retry(RetryError),
    /// Every round left an invalid index.
    InvalidIndexPersisted { index_name: String, attempts: u32 },
    /// Reading the catalog failed.
    Database(DatabaseError),
}

/// An index to add.
#[derive(Debug, Clone)]
pub struct AddIndexArgs {
    pub schema: String,
    pub table: String,
    pub index_name: Option<String>,
    pub columns: Vec<String>,
    pub unique: bool,
}

/// The reason given when `name` is not a valid identifier.
pub open spec fn identifier_reason(name: Seq<char>) -> Option<Seq<char>> {
    match identifier_fault_of(name) {
        Some(IdentifierFault::Empty) => Some("identifier cannot be empty"@),
        Some(IdentifierFault::InvalidCharacter) => Some("identifier must start with an underscore"@),
        None => None,
    }
}

/// `e` is the error for the first name of `names` that is not a valid
/// identifier.
pub open spec fn rejects_first(names: Seq<Seq<char>>, e: AddIndexError) -> bool {
    first_invalid_identifier(names) matches Some(bad) && (e matches AddIndexError::InvalidIdentifier {
        name,
        reason,
    } && name@ == bad && Some(reason@) == identifier_reason(bad))
}

/// `e` is `InvalidColumns` with the message `text`.
pub open spec fn invalid_columns(e: AddIndexError, text: Seq<char>) -> bool {
    e matches AddIndexError::InvalidColumns { message } && message@ == text
}

fn validate_identifier(name: &str) -> (r: Result<(), AddIndexError>)
    ensures
        match r {
            Ok(()) => identifier_reason(name@) is None,
            Err(AddIndexError::InvalidIdentifier { name: n, reason }) => identifier_reason(name@)
                == Some(reason@) && n@ == name@,
            Err(_) => false,
        },
{
    match identifier_fault(name) {
        Some(IdentifierFault::Empty) => Err(
            AddIndexError::InvalidIdentifier {
                name: String::from_str(name),
                reason: String::from_str("identifier cannot be empty"),
            },
        ),
        Some(IdentifierFault::InvalidCharacter) => Err(
            AddIndexError::InvalidIdentifier {
                name: String::from_str(name),
                reason: String::from_str("identifier must start with an underscore"),
            },
        ),
        None => Ok(()),
    }
}

/// The default name of an index: `table_col1_col2_..._idx`.
pub open spec fn default_index_name_text(table: Seq<char>, columns: Seq<Seq<char>>) -> Seq<char> {
    table + "_"@ + join(columns, "_"@) + "_idx"@
}

/// The default name of an index on `columns` of `table`.
pub fn default_index_name(table: &str, columns: &Vec<String>) -> (r: String)
    ensures
        r@ == default_index_name_text(table@, string_views(columns@)),
{
    let mut name = String::from_str(table);
    name.append("_");
    name.append(join_texts(columns, "_").as_str());
    name.append("_idx");
    name
}

/// `r` is what resolving the index name of `args` gives: the name asked
/// for, which must be an identifier; without one, the default name, unless
/// there are no columns.
pub open spec fn index_name_outcome(args: AddIndexArgs, r: Result<String, AddIndexError>) -> bool {
    match args.index_name {
            Some(asked) => match r {
                Ok(name) => identifier_reason(asked@) is None && name@ == asked@,
                Err(e) => rejects_first(seq![asked@], e),
            },
            None => if args.columns@.len() == 0 {
                r matches Err(e) && invalid_columns(e, "index must not be empty"@)
            } else {
                r matches Ok(name) && name@ == default_index_name_text(
                    args.table@,
                    string_views(args.columns@),
                )
            },
        }
}

/// The name that an index request resolves to, or the error: the name asked
/// for must be an identifier; without one, the columns must not be empty and
/// the default name is used.
pub fn resolve_index_name(args: &AddIndexArgs) -> (r: Result<String, AddIndexError>)
    ensures
        index_name_outcome(*args, r),
        r is Ok <==> match args.index_name {
            Some(asked) => is_valid_identifier(asked@),
            None => args.columns@.len() > 0,
        },
{
    if let Some(index_name) = &args.index_name {
        if let Err(e) = validate_identifier(index_name.as_str()) {
            return Err(e);
        }
        return Ok(index_name.clone());
    }
    if args.columns.len() == 0 {
        return Err(AddIndexError::InvalidColumns { message: String::from_str("index must not be empty") });
    }
    Ok(default_index_name(args.table.as_str(), &args.columns))
}

/// `"column"` for each column.
pub open spec fn quoted_columns(columns: Seq<Seq<char>>) -> Seq<Seq<char>> {
    columns.map_values(|c: Seq<char>| "\""@ + c + "\""@)
}

/// `CREATE [UNIQUE ]INDEX CONCURRENTLY IF NOT EXISTS "name" ON
/// "schema"."table" ("col1", "col2", ...)`
pub open spec fn create_index_sql(args: AddIndexArgs, index_name: Seq<char>) -> Seq<char> {
    "CREATE "@ + (if args.unique {
        "UNIQUE "@
    } else {
        Seq::<char>::empty()
    }) + "INDEX CONCURRENTLY IF NOT EXISTS \""@ + index_name + "\" ON \""@ + args.schema@
        + "\".\""@ + args.table@ + "\" ("@ + join(quoted_columns(string_views(args.columns@)), ", "@)
        + ")"@
}

/// `r` is what building the index statement of `args` under `index_name`
/// gives: the index name, the table and the schema must be identifiers,
/// there must be a column, and every column must be an identifier.
pub open spec fn create_index_outcome(
    args: AddIndexArgs,
    index_name: Seq<char>,
    r: Result<String, AddIndexError>,
) -> bool {
    match r {
            Ok(sql) => first_invalid_identifier(seq![index_name, args.table@, args.schema@]) is None
                && args.columns@.len() > 0 && first_invalid_identifier(string_views(args.columns@))
                is None && sql@ == create_index_sql(args, index_name),
            Err(e) => if first_invalid_identifier(seq![index_name, args.table@, args.schema@]) is Some {
                rejects_first(seq![index_name, args.table@, args.schema@], e)
            } else if args.columns@.len() == 0 {
                invalid_columns(e, "At least one column is required"@)
            } else {
                rejects_first(string_views(args.columns@), e)
            },
        }
}

/// Every name that the index statement holds is an identifier: the index
/// name, the schema, the table, and each of the columns, of which there is
/// at least one.
pub open spec fn index_statement_names_valid(args: AddIndexArgs, index_name: Seq<char>) -> bool {
    &&& is_valid_identifier(index_name)
    &&& is_valid_identifier(args.schema@)
    &&& is_valid_identifier(args.table@)
    &&& args.columns@.len() > 0
    &&& forall|i: int| 0 <= i < args.columns@.len() ==> is_valid_identifier(#[trigger] args.columns@[i]@)
}

proof fn lemma_index_statement_names(args: AddIndexArgs, index_name: Seq<char>)
    ensures
        (first_invalid_identifier(seq![index_name, args.table@, args.schema@]) is None
            && args.columns@.len() > 0 && first_invalid_identifier(string_views(args.columns@))
            is None) <==> index_statement_names_valid(args, index_name),
        first_invalid_identifier(seq![index_name, args.table@, args.schema@]) matches Some(bad)
            ==> !is_valid_identifier(bad) && (bad == index_name || bad == args.table@ || bad
            == args.schema@),
        first_invalid_identifier(string_views(args.columns@)) matches Some(bad)
            ==> !is_valid_identifier(bad) && exists|i: int|
            0 <= i < args.columns@.len() && #[trigger] args.columns@[i]@ == bad,
{
    let names = string_views(args.columns@);
    lemma_first_invalid_short(seq![index_name, args.table@, args.schema@]);
    lemma_first_invalid_identifier(names);
    assert forall|i: int| 0 <= i < names.len() implies #[trigger] names[i] == args.columns@[i]@ by {}
    if forall|i: int| 0 <= i < args.columns@.len() ==> is_valid_identifier(#[trigger] args.columns@[i]@) {
        assert forall|i: int| 0 <= i < names.len() implies is_valid_identifier(#[trigger] names[i]) by {
            assert(names[i] == args.columns@[i]@);
        }
    }
    if first_invalid_identifier(names) is None {
        assert forall|i: int| 0 <= i < args.columns@.len() implies is_valid_identifier(
            #[trigger] args.columns@[i]@,
        ) by {
            assert(names[i] == args.columns@[i]@);
        }
    }
    if let Some(bad) = first_invalid_identifier(names) {
        let k = choose|k: int| 0 <= k < names.len() && names[k] == bad;
        assert(args.columns@[k]@ == bad);
    }
}

/// Law: building the index statement succeeds exactly when every name that
/// goes into it is an identifier and there is a column; a name that is
/// rejected is one of those names and is not an identifier.
pub proof fn law_create_index_checks_every_name(
    args: AddIndexArgs,
    index_name: Seq<char>,
    r: Result<String, AddIndexError>,
)
    requires
        create_index_outcome(args, index_name, r),
    ensures
        r is Ok <==> index_statement_names_valid(args, index_name),
        r matches Err(AddIndexError::InvalidIdentifier { name, .. }) ==> !is_valid_identifier(
            name@,
        ) && (name@ == index_name || name@ == args.table@ || name@ == args.schema@ || exists|i: int|
            0 <= i < args.columns@.len() && #[trigger] args.columns@[i]@ == name@),
{
    lemma_index_statement_names(args, index_name);
}

/// Builds the statement that builds the index without blocking writes.
pub fn build_create_index_sql(args: &AddIndexArgs, index_name: &str) -> (r: Result<
    String,
    AddIndexError,
>)
    ensures
        create_index_outcome(*args, index_name@, r),
        r is Ok <==> index_statement_names_valid(*args, index_name@),
{
    proof {
        lemma_index_statement_names(*args, index_name@);
    }
    proof {
        lemma_first_invalid_short(seq![index_name@, args.table@, args.schema@]);
    }
    if let Err(e) = validate_identifier(index_name) {
        return Err(e);
    }
    if let Err(e) = validate_identifier(args.table.as_str()) {
        return Err(e);
    }
    if let Err(e) = validate_identifier(args.schema.as_str()) {
        return Err(e);
    }
    if args.columns.len() == 0 {
        return Err(
            AddIndexError::InvalidColumns {
                message: String::from_str("At least one column is required"),
            },
        );
    }
    let ghost names = string_views(args.columns@);
    let mut column_list = String::new();
    let mut i: usize = 0;
    while i < args.columns.len()
        invariant
            i <= args.columns@.len(),
            names == string_views(args.columns@),
            first_invalid_identifier(seq![index_name@, args.table@, args.schema@]) is None,
            args.columns@.len() > 0,
            first_invalid_identifier(names.take(i as int)) is None,
            column_list@ == join(quoted_columns(names.take(i as int)), ", "@),
        decreases args.columns@.len() - i,
    {
        let column = &args.columns[i];
        proof {
            assert(names.take(i as int + 1) =~= names.take(i as int) + seq![column@]);
            lemma_first_invalid_append(names.take(i as int), seq![column@]);
            lemma_first_invalid_short(seq![column@]);
        }
        if let Err(e) = validate_identifier(column.as_str()) {
            proof {
                let rest = names.skip(i as int + 1);
                assert(names =~= names.take(i as int) + (seq![column@] + rest));
                lemma_first_invalid_append(names.take(i as int), seq![column@] + rest);
                lemma_first_invalid_append(seq![column@], rest);
            }
            return Err(e);
        }
        proof {
            lemma_join_push(quoted_columns(names.take(i as int)), ", "@, "\""@ + column@ + "\""@);
            assert(quoted_columns(names.take(i as int + 1)) =~= quoted_columns(
                names.take(i as int),
            ).push("\""@ + column@ + "\""@));
        }
        if i > 0 {
            column_list.append(", ");
        }
        column_list.append("\"");
        column_list.append(column.as_str());
        column_list.append("\"");
        i = i + 1;
    }
    assert(names.take(args.columns@.len() as int) =~= names);

    let mut sql = String::from_str("CREATE ");
    if args.unique {
        sql.append("UNIQUE ");
    }
    sql.append("INDEX CONCURRENTLY IF NOT EXISTS \"");
    sql.append(index_name);
    sql.append("\" ON \"");
    sql.append(args.schema.as_str());
    sql.append("\".\"");
    sql.append(args.table.as_str());
    sql.append("\" (");
    sql.append(column_list.as_str());
    sql.append(")");
    assert(sql@ =~= create_index_sql(*args, index_name@));
    Ok(sql)
}

/// `DROP INDEX CONCURRENTLY IF EXISTS "schema"."index_name"`
pub open spec fn drop_index_sql(schema: Seq<char>, index_name: Seq<char>) -> Seq<char> {
    "DROP INDEX CONCURRENTLY IF EXISTS \""@ + schema + "\".\""@ + index_name + "\""@
}

/// Builds the statement that drops the index without blocking writes, after
/// checking the schema and the index name.
pub fn build_drop_index_sql(schema: &str, index_name: &str) -> (r: Result<String, AddIndexError>)
    ensures
        match r {
            Ok(sql) => first_invalid_identifier(seq![schema@, index_name@]) is None && sql@
                == drop_index_sql(schema@, index_name@),
            Err(e) => rejects_first(seq![schema@, index_name@], e),
        },
        r is Ok <==> is_valid_identifier(schema@) && is_valid_identifier(index_name@),
{
    proof {
        lemma_first_invalid_short(seq![schema@, index_name@]);
    }
    if let Err(e) = validate_identifier(schema) {
        return Err(e);
    }
    if let Err(e) = validate_identifier(index_name) {
        return Err(e);
    }
    let mut sql = String::from_str("DROP INDEX CONCURRENTLY IF EXISTS \"");
    sql.append(schema);
    sql.append("\".\"");
    sql.append(index_name);
    sql.append("\"");
    assert(sql@ =~= drop_index_sql(schema@, index_name@));
    Ok(sql)
}

/// `SELECT indisvalid FROM pg_index WHERE indexrelid =
/// '"schema"."index_name"'::regclass`
pub open spec fn validity_check_sql(schema: Seq<char>, index_name: Seq<char>) -> Seq<char> {
    "SELECT indisvalid FROM pg_index WHERE indexrelid = '\""@ + schema + "\".\""@ + index_name
        + "\"'::regclass"@
}

/// Builds the query that reads whether the index is valid.
pub fn build_validity_check_sql(schema: &str, index_name: &str) -> (r: String)
    ensures
        r@ == validity_check_sql(schema@, index_name@),
{
    let mut sql = String::from_str("SELECT indisvalid FROM pg_index WHERE indexrelid = '\"");
    sql.append(schema);
    sql.append("\".\"");
    sql.append(index_name);
    sql.append("\"'::regclass");
    assert(sql@ =~= validity_check_sql(schema@, index_name@));
    sql
}

/// The catalog query that reads whether the index named by its `$2`
/// parameter, in the schema named by its `$1` parameter, is valid.
pub const INDEX_STATE_QUERY: &'static str = "SELECT i.indisvalid FROM pg_class c
        JOIN pg_namespace n ON n.oid = c.relnamespace
        JOIN pg_index i ON i.indexrelid = c.oid
        WHERE n.nspname = $1
        AND c.relname = $2
        AND c.relkind = 'i'";

/// The message given when the catalog holds several indexes of one name.
pub open spec fn multiple_indexes_message(schema: Seq<char>, index_name: Seq<char>) -> Seq<char> {
    "multiple indexes name '"@ + index_name + "' in schema '"@ + schema + "'"@
}

/// Reads the state of an index from the `indisvalid` values that the
/// catalog query returned: no row means it is missing, one row tells whether
/// it is valid, more rows are an error.
pub fn index_state_from_rows(schema: &str, index_name: &str, rows: &Vec<bool>) -> (r: Result<
    IndexState,
    AddIndexError,
>)
    ensures
        rows@.len() == 0 ==> r == Ok::<IndexState, AddIndexError>(IndexState::Missing),
        rows@.len() == 1 ==> r == Ok::<IndexState, AddIndexError>(
            if rows@[0] {
                IndexState::Valid
            } else {
                IndexState::Invalid
            },
        ),
        rows@.len() > 1 ==> (r matches Err(e) && invalid_columns(
            e,
            multiple_indexes_message(schema@, index_name@),
        )),
{
    if rows.len() == 0 {
        Ok(IndexState::Missing)
    } else if rows.len() == 1 {
        if rows[0] {
            Ok(IndexState::Valid)
        } else {
            Ok(IndexState::Invalid)
        }
    } else {
        let mut message = String::from_str("multiple indexes name '");
        message.append(index_name);
        message.append("' in schema '");
        message.append(schema);
        message.append("'");
        Err(AddIndexError::InvalidColumns { message })
    }
}

/// The text of an error of adding an index.
pub open spec fn add_index_error_text(e: AddIndexError) -> Seq<char> {
    match e {
        AddIndexError::InvalidIdentifier { name, reason } => "invalid identifier '"@ + name@ + "': "@
            + reason@,
        AddIndexError::InvalidColumns { message } => message@,
        AddIndexError::Retry(error) => retry_error_text(error),
        AddIndexError::InvalidIndexPersisted { index_name, attempts } => "index "@ + index_name@
            + " already exists at attempt "@ + decimal(attempts as nat),
        AddIndexError::Database(error) => error.message@,
    }
}

impl AddIndexError {
    /// Describes the error for a person.
    pub fn to_string(&self) -> (r: String)
        ensures
            r@ == add_index_error_text(*self),
    {
        match self {
            AddIndexError::InvalidIdentifier { name, reason } => {
                let mut text = String::from_str("invalid identifier '");
                text.append(name.as_str());
                text.append("': ");
                text.append(reason.as_str());
                text
            },
            AddIndexError::InvalidColumns { message } => message.clone(),
            AddIndexError::Retry(error) => error.to_string(),
            AddIndexError::InvalidIndexPersisted { index_name, attempts } => {
                let mut text = String::from_str("index ");
                text.append(index_name.as_str());
                text.append(" already exists at attempt ");
                text.append(decimal_text(*attempts as u64).as_str());
                text
            },
            AddIndexError::Database(error) => error.message.clone(),
        }
    }
}

impl From<RetryError> for AddIndexError {
    /// A failed statement.
    fn from(error: RetryError) -> (r: Self) {
        AddIndexError::Retry(error)
    }
}

impl FromSpecImpl<RetryError> for AddIndexError {
    open spec fn obeys_from_spec() -> bool {
        true
    }

    open spec fn from_spec(error: RetryError) -> Self {
        AddIndexError::Retry(error)
    }
}

impl From<DatabaseError> for AddIndexError {
    /// A failed catalog read.
    fn from(error: DatabaseError) -> (r: Self) {
        AddIndexError::Database(error)
    }
}

impl FromSpecImpl<DatabaseError> for AddIndexError {
    open spec fn obeys_from_spec() -> bool {
        true
    }

    open spec fn from_spec(error: DatabaseError) -> Self {
        AddIndexError::Database(error)
    }
}

} // verus!
