//! Adding a column to a table.
use crate::db::identifier::{identifier_fault, identifier_fault_of, is_valid_identifier, IdentifierFault};
use crate::db::retry::{retry_error_text, RetryError};
use crate::text::{is_blank, is_blank_text};
use vstd::prelude::*;
use vstd::std_specs::convert::FromSpecImpl;
use vstd::string::*;

verus! {

/// Why a column could not be added.
#[derive(Debug)]
pub enum AddColumnError {
    /// A name, or the data type, is not acceptable.
    InvalidIdentifier { name: String, reason: String },
    /// The request asks for something that cannot be done without downtime.
    Unsupported { message: String },
    /// Running the statement failed.
    Retry(RetryError),
}

/// What a column to add looks like.
#[derive(Debug, Clone)]
pub struct AddColumnArgs {
    pub schema: String,
    pub table: String,
    pub column: String,
    pub data_type: String,
    pub not_null: bool,
    pub default: Option<String>,
}

/// The reason given when `name` is not a valid identifier.
pub open spec fn identifier_reason(name: Seq<char>) -> Option<Seq<char>> {
    match identifier_fault_of(name) {
        Some(IdentifierFault::Empty) => Some("identifier cannot be empty"@),
        Some(IdentifierFault::InvalidCharacter) => Some("identifier must start with an underscore"@),
        None => None,
    }
}

/// The reason given when the data type is blank.
pub open spec fn blank_data_type_reason() -> Seq<char> {
    "data type cannot be empty"@
}

/// The message given when a NOT NULL column comes without a default.
pub open spec fn not_null_without_default_message() -> Seq<char> {
    "NOT NULL columns require a constant DEFAULT (add nullable first, backfill, then set NOT NULL LATER)"@
}

/// The first name of the request that is rejected, with the reason: the
/// schema, the table and the column are checked as identifiers in that order,
/// then the data type must not be blank.
pub open spec fn add_column_rejection(args: AddColumnArgs) -> Option<(Seq<char>, Seq<char>)> {
    if identifier_reason(args.schema@) is Some {
        Some((args.schema@, identifier_reason(args.schema@)->0))
    } else if identifier_reason(args.table@) is Some {
        Some((args.table@, identifier_reason(args.table@)->0))
    } else if identifier_reason(args.column@) is Some {
        Some((args.column@, identifier_reason(args.column@)->0))
    } else if is_blank(args.data_type@) {
        Some((args.data_type@, blank_data_type_reason()))
    } else {
        None
    }
}

/// The statement that adds the column: `ALTER TABLE schema.table ADD COLUMN IF
/// NOT EXISTS "column" type`, then ` DEFAULT value` when there is a default,
/// then ` NOT NULL` when asked for.
pub open spec fn add_column_sql(args: AddColumnArgs) -> Seq<char> {
    "ALTER TABLE "@ + args.schema@ + "."@ + args.table@ + " ADD COLUMN IF NOT EXISTS \""@
        + args.column@ + "\" "@ + args.data_type@ + match args.default {
        Some(value) => " DEFAULT "@ + value@,
        None => Seq::empty(),
    } + if args.not_null {
        " NOT NULL"@
    } else {
        Seq::<char>::empty()
    }
}

fn validate_identifier(name: &str) -> (r: Result<(), AddColumnError>)
    ensures
        match r {
            Ok(()) => identifier_reason(name@) is None,
            Err(AddColumnError::InvalidIdentifier { name: n, reason }) => identifier_reason(name@)
                == Some(reason@) && n@ == name@,
            Err(_) => false,
        },
{
    match identifier_fault(name) {
        Some(IdentifierFault::Empty) => Err(
            AddColumnError::InvalidIdentifier {
                name: String::from_str(name),
                reason: String::from_str("identifier cannot be empty"),
            },
        ),
        Some(IdentifierFault::InvalidCharacter) => Err(
            AddColumnError::InvalidIdentifier {
                name: String::from_str(name),
                reason: String::from_str("identifier must start with an underscore"),
            },
        ),
        None => Ok(()),
    }
}

fn validate_data_type(data_type: &str) -> (r: Result<(), AddColumnError>)
    ensures
        match r {
            Ok(()) => !is_blank(data_type@),
            Err(AddColumnError::InvalidIdentifier { name, reason }) => is_blank(data_type@)
                && name@ == data_type@ && reason@ == blank_data_type_reason(),
            Err(_) => false,
        },
{
    if is_blank_text(data_type) {
        Err(
            AddColumnError::InvalidIdentifier {
                name: String::from_str(data_type),
                reason: String::from_str("data type cannot be empty"),
            },
        )
    } else {
        Ok(())
    }
}

/// `r` is what building the statement of `args` gives: the statement when
/// nothing of the request is rejected and a NOT NULL column has a default;
/// else the first rejection, or the refusal of a NOT NULL column without a
/// default.
pub open spec fn add_column_outcome(args: AddColumnArgs, r: Result<String, AddColumnError>) -> bool {
    match r {
        Ok(sql) => add_column_rejection(args) is None && !(args.not_null && args.default is None)
            && sql@ == add_column_sql(args),
        Err(AddColumnError::InvalidIdentifier { name, reason }) => add_column_rejection(args)
            == Some((name@, reason@)),
        Err(AddColumnError::Unsupported { message }) => add_column_rejection(args) is None
            && args.not_null && args.default is None && message@ == not_null_without_default_message(),
        Err(AddColumnError::Retry(_)) => false,
    }
}

/// Everything of the request that is checked is acceptable: the schema, the
/// table and the column are identifiers, and the data type is not blank.
pub open spec fn add_column_request_valid(args: AddColumnArgs) -> bool {
    &&& is_valid_identifier(args.schema@)
    &&& is_valid_identifier(args.table@)
    &&& is_valid_identifier(args.column@)
    &&& !is_blank(args.data_type@)
}

/// Builds the statement that adds the column, after checking the names and
/// the data type, and refusing a NOT NULL column without a default (it would
/// have to rewrite the table).
pub fn build_add_column_sql(args: &AddColumnArgs) -> (r: Result<String, AddColumnError>)
    ensures
        add_column_outcome(*args, r),
        r is Ok <==> add_column_request_valid(*args) && !(args.not_null && args.default is None),
{
    validate_identifier(args.schema.as_str())?;
    validate_identifier(args.table.as_str())?;
    validate_identifier(args.column.as_str())?;
    validate_data_type(args.data_type.as_str())?;

    if args.not_null && args.default.is_none() {
        return Err(
            AddColumnError::Unsupported {
                message: String::from_str(
                    "NOT NULL columns require a constant DEFAULT (add nullable first, backfill, then set NOT NULL LATER)",
                ),
            },
        );
    }

    let mut sql = String::from_str("ALTER TABLE ");
    sql.append(args.schema.as_str());
    sql.append(".");
    sql.append(args.table.as_str());
    sql.append(" ADD COLUMN IF NOT EXISTS \"");
    sql.append(args.column.as_str());
    sql.append("\" ");
    sql.append(args.data_type.as_str());

    match &args.default {
        Some(value) => {
            sql.append(" DEFAULT ");
            sql.append(value.as_str());
        },
        None => {},
    }

    if args.not_null {
        sql.append(" NOT NULL");
    }
    assert(sql@ =~= add_column_sql(*args));
    Ok(sql)
}

/// The text of an error of adding a column.
pub open spec fn add_column_error_text(e: AddColumnError) -> Seq<char> {
    match e {
        AddColumnError::InvalidIdentifier { name, reason } => "invalid identifier '"@ + name@
            + "' in '"@ + reason@ + "'"@,
        AddColumnError::Unsupported { message } => message@,
        AddColumnError::Retry(error) => retry_error_text(error),
    }
}

impl AddColumnError {
    /// Describes the error for a person.
    pub fn to_string(&self) -> (r: String)
        ensures
            r@ == add_column_error_text(*self),
    {
        match self {
            AddColumnError::InvalidIdentifier { name, reason } => {
                let mut text = String::from_str("invalid identifier '");
                text.append(name.as_str());
                text.append("' in '");
                text.append(reason.as_str());
                text.append("'");
                text
            },
            AddColumnError::Unsupported { message } => message.clone(),
            AddColumnError::Retry(error) => error.to_string(),
        }
    }
}

impl From<RetryError> for AddColumnError {
    /// A failed statement.
    fn from(error: RetryError) -> (r: Self) {
        AddColumnError::Retry(error)
    }
}

impl FromSpecImpl<RetryError> for AddColumnError {
    open spec fn obeys_from_spec() -> bool {
        true
    }

    open spec fn from_spec(error: RetryError) -> Self {
        AddColumnError::Retry(error)
    }
}

/// Law: adding a column succeeds exactly when the schema, the table and the
/// column are identifiers, the data type is not blank, and a NOT NULL column
/// comes with a default. Each name is checked in turn: once the schema and
/// the table pass, a column that is not an identifier is the one rejected;
/// and a name that is rejected is never an identifier.
pub proof fn law_add_column_checks_every_name(args: AddColumnArgs, r: Result<String, AddColumnError>)
    requires
        add_column_outcome(args, r),
    ensures
        r is Ok <==> add_column_request_valid(args) && !(args.not_null && args.default is None),
        is_valid_identifier(args.schema@) && is_valid_identifier(args.table@)
            && !is_valid_identifier(args.column@) ==> (r matches Err(
            AddColumnError::InvalidIdentifier { name, .. },
        ) && name@ == args.column@),
        r matches Err(AddColumnError::InvalidIdentifier { name, .. }) ==> (name@ == args.schema@
            && !is_valid_identifier(args.schema@)) || (name@ == args.table@ && !is_valid_identifier(
            args.table@,
        )) || (name@ == args.column@ && !is_valid_identifier(args.column@)) || (name@
            == args.data_type@ && is_blank(args.data_type@)),
{
}

} // verus!
