//! What a table looks like: its columns, primary key, indexes and foreign
//! keys, and the report that shows them.
use crate::db::retry::DatabaseError;
use crate::text::{
    append_padded, join, join_texts, pad_right, same_text, string_views,
};
use vstd::prelude::*;
use vstd::std_specs::convert::FromSpecImpl;
use vstd::string::*;

verus! {

/// A column of a table.
#[derive(Debug, Clone)]
pub struct Column {
    pub name: String,
    pub data_type: String,
    pub nullable: bool,
    pub default_value: Option<String>,
}

/// An index of a table.
#[derive(Debug, Clone)]
pub struct Index {
    pub name: String,
    pub columns: Vec<String>,
    pub is_unique: bool,
    pub is_primary: bool,
}

/// A foreign key of a table.
#[derive(Debug, Clone)]
pub struct ForeignKey {
    pub name: String,
    pub columns: Vec<String>,
    pub reference_schema: String,
    pub reference_table: String,
    pub references_columns: Vec<String>,
}

/// Everything the introspection found out about a table.
#[derive(Debug, Clone)]
pub struct TableInfo {
    pub schema: String,
    pub name: String,
    pub columns: Vec<Column>,
    pub primary_key: Vec<String>,
    pub foreign_keys: Vec<ForeignKey>,
    pub indexes: Vec<Index>,
}

/// Why a table could not be introspected.
#[derive(Debug)]
pub enum IntrospectError {
    /// There is no such table.
    TableNotFound { schema: String, table: String },
    /// Reading the catalog failed.
    Database(DatabaseError),
}

/// Reports a missing table: `Ok` when the table exists, else the error
/// that names it.
pub fn check_table_found(schema: &str, table: &str, exists: bool) -> (r: Result<(), IntrospectError>)
    ensures
        exists <==> r is Ok,
        !exists ==> (r matches Err(IntrospectError::TableNotFound { schema: s, table: t }) && s@
            == schema@ && t@ == table@),
{
    if !exists {
        return Err(
            IntrospectError::TableNotFound {
                schema: String::from_str(schema),
                table: String::from_str(table),
            },
        );
    }
    Ok(())
}

/// Makes a column from a row of `information_schema.columns`: the column is
/// nullable when `is_nullable` is `YES`.
pub fn column_from_row(
    name: String,
    data_type: String,
    is_nullable: &str,
    default_value: Option<String>,
) -> (r: Column)
    ensures
        r.name == name,
        r.data_type == data_type,
        r.nullable == (is_nullable@ == "YES"@),
        r.default_value == default_value,
{
    Column { name, data_type, nullable: same_text(is_nullable, "YES"), default_value }
}

/// The lines written one after the other.
pub open spec fn concat(lines: Seq<Seq<char>>) -> Seq<char>
    decreases lines.len(),
{
    if lines.len() == 0 {
        Seq::empty()
    } else {
        concat(lines.drop_last()) + lines.last()
    }
}

/// `s` ended by a line break.
pub open spec fn line(s: Seq<char>) -> Seq<char> {
    s + "\n"@
}

/// `NULL` or `NOT NULL`.
pub open spec fn nullable_text(c: Column) -> Seq<char> {
    if c.nullable {
        "NULL"@
    } else {
        "NOT NULL"@
    }
}

/// The default of a column, or `(no default)`.
pub open spec fn default_text(c: Column) -> Seq<char> {
    match c.default_value {
        Some(v) => v@,
        None => "(no default)"@,
    }
}

/// The report line of a column: its name, type and nullability padded to
/// 16, 20 and 10 characters, then its default.
pub open spec fn column_line(c: Column) -> Seq<char> {
    line(
        "    "@ + pad_right(c.name@, 16) + " "@ + pad_right(c.data_type@, 20) + " "@ + pad_right(
            nullable_text(c),
            10,
        ) + " default: "@ + default_text(c),
    )
}

/// `PRIMARY`, `UNIQUE`, both (`PRIMARY, UNIQUE`) or `NON-UNIQUE`.
pub open spec fn flag_text(i: Index) -> Seq<char> {
    if i.is_primary && i.is_unique {
        "PRIMARY, UNIQUE"@
    } else if i.is_primary {
        "PRIMARY"@
    } else if i.is_unique {
        "UNIQUE"@
    } else {
        "NON-UNIQUE"@
    }
}

/// The report line of an index: `  name (flags) on (columns)`.
pub open spec fn index_line(i: Index) -> Seq<char> {
    line(
        "  "@ + i.name@ + " ("@ + flag_text(i) + ") on ("@ + join(string_views(i.columns@), ", "@)
            + ")"@,
    )
}

/// The report line of a foreign key:
/// `    name: (columns) -> schema.table(columns)`.
pub open spec fn foreign_key_line(fk: ForeignKey) -> Seq<char> {
    line(
        "    "@ + fk.name@ + ": ("@ + join(string_views(fk.columns@), ", "@) + ") -> "@
            + fk.reference_schema@ + "."@ + fk.reference_table@ + "("@ + join(
            string_views(fk.references_columns@),
            ", "@,
        ) + ")"@,
    )
}

/// The columns part of the report.
pub open spec fn columns_part(columns: Seq<Column>) -> Seq<char> {
    if columns.len() == 0 {
        line(" (none)"@)
    } else {
        concat(columns.map_values(|c: Column| column_line(c)))
    }
}

/// The primary key part of the report.
pub open spec fn primary_key_part(primary_key: Seq<String>) -> Seq<char> {
    if primary_key.len() == 0 {
        line("  (none)"@)
    } else {
        line("  "@ + join(string_views(primary_key), ", "@))
    }
}

/// The indexes part of the report.
pub open spec fn indexes_part(indexes: Seq<Index>) -> Seq<char> {
    if indexes.len() == 0 {
        line(" (none)"@)
    } else {
        concat(indexes.map_values(|i: Index| index_line(i)))
    }
}

/// The foreign keys part of the report.
pub open spec fn foreign_keys_part(foreign_keys: Seq<ForeignKey>) -> Seq<char> {
    if foreign_keys.len() == 0 {
        line(" (none)"@)
    } else {
        concat(foreign_keys.map_values(|fk: ForeignKey| foreign_key_line(fk)))
    }
}

/// The report on a table: a title, then the columns, the primary key, the
/// indexes and the foreign keys, each under a heading and after a blank
/// line.
pub open spec fn table_report(info: TableInfo) -> Seq<char> {
    line("Table: "@ + info.schema@ + " "@ + info.name@) + line(Seq::empty()) + line("Columns:"@)
        + columns_part(info.columns@) + line(Seq::empty()) + line("Primary Key:"@)
        + primary_key_part(info.primary_key@) + line(Seq::empty()) + line("Indexes:"@)
        + indexes_part(info.indexes@) + line(Seq::empty()) + line("Foreign keys:"@)
        + foreign_keys_part(info.foreign_keys@)
}

/// Lemma: writing one more line.
pub proof fn lemma_concat_push(lines: Seq<Seq<char>>, last: Seq<char>)
    ensures
        concat(lines.push(last)) == concat(lines) + last,
{
    assert(lines.push(last).drop_last() =~= lines);
}

fn append_column_line(out: &mut String, c: &Column)
    ensures
        final(out)@ == old(out)@ + column_line(*c),
{
    let ghost start = out@;
    out.append("    ");
    append_padded(out, c.name.as_str(), 16);
    out.append(" ");
    append_padded(out, c.data_type.as_str(), 20);
    out.append(" ");
    let nullable = if c.nullable {
        "NULL"
    } else {
        "NOT NULL"
    };
    append_padded(out, nullable, 10);
    out.append(" default: ");
    match &c.default_value {
        Some(v) => out.append(v.as_str()),
        None => out.append("(no default)"),
    }
    out.append("\n");
    assert(out@ =~= start + column_line(*c));
}

fn append_index_line(out: &mut String, i: &Index)
    ensures
        final(out)@ == old(out)@ + index_line(*i),
{
    let ghost start = out@;
    out.append("  ");
    out.append(i.name.as_str());
    out.append(" (");
    if i.is_primary && i.is_unique {
        out.append("PRIMARY, UNIQUE");
    } else if i.is_primary {
        out.append("PRIMARY");
    } else if i.is_unique {
        out.append("UNIQUE");
    } else {
        out.append("NON-UNIQUE");
    }
    out.append(") on (");
    out.append(join_texts(&i.columns, ", ").as_str());
    out.append(")");
    out.append("\n");
    assert(out@ =~= start + index_line(*i));
}

fn append_foreign_key_line(out: &mut String, fk: &ForeignKey)
    ensures
        final(out)@ == old(out)@ + foreign_key_line(*fk),
{
    let ghost start = out@;
    out.append("    ");
    out.append(fk.name.as_str());
    out.append(": (");
    out.append(join_texts(&fk.columns, ", ").as_str());
    out.append(") -> ");
    out.append(fk.reference_schema.as_str());
    out.append(".");
    out.append(fk.reference_table.as_str());
    out.append("(");
    out.append(join_texts(&fk.references_columns, ", ").as_str());
    out.append(")");
    out.append("\n");
    assert(out@ =~= start + foreign_key_line(*fk));
}

fn append_columns_part(out: &mut String, columns: &Vec<Column>)
    ensures
        final(out)@ == old(out)@ + columns_part(columns@),
{
    if columns.len() == 0 {
        out.append(" (none)\n");
        proof {
            reveal_strlit(" (none)\n");
            reveal_strlit(" (none)");
            reveal_strlit("\n");
            assert(" (none)\n"@ =~= line(" (none)"@));
        }
        return;
    }
    let ghost start = out@;
    let ghost lines = columns@.map_values(|c: Column| column_line(c));
    let mut i: usize = 0;
    while i < columns.len()
        invariant
            i <= columns@.len(),
            lines == columns@.map_values(|c: Column| column_line(c)),
            out@ == start + concat(lines.take(i as int)),
        decreases columns@.len() - i,
    {
        append_column_line(out, &columns[i]);
        proof {
            lemma_concat_push(lines.take(i as int), lines[i as int]);
            assert(lines.take(i as int + 1) =~= lines.take(i as int).push(lines[i as int]));
        }
        i = i + 1;
    }
    assert(lines.take(columns@.len() as int) =~= lines);
}

fn append_indexes_part(out: &mut String, indexes: &Vec<Index>)
    ensures
        final(out)@ == old(out)@ + indexes_part(indexes@),
{
    if indexes.len() == 0 {
        out.append(" (none)\n");
        proof {
            reveal_strlit(" (none)\n");
            reveal_strlit(" (none)");
            reveal_strlit("\n");
            assert(" (none)\n"@ =~= line(" (none)"@));
        }
        return;
    }
    let ghost start = out@;
    let ghost lines = indexes@.map_values(|i: Index| index_line(i));
    let mut k: usize = 0;
    while k < indexes.len()
        invariant
            k <= indexes@.len(),
            lines == indexes@.map_values(|i: Index| index_line(i)),
            out@ == start + concat(lines.take(k as int)),
        decreases indexes@.len() - k,
    {
        append_index_line(out, &indexes[k]);
        proof {
            lemma_concat_push(lines.take(k as int), lines[k as int]);
            assert(lines.take(k as int + 1) =~= lines.take(k as int).push(lines[k as int]));
        }
        k = k + 1;
    }
    assert(lines.take(indexes@.len() as int) =~= lines);
}

fn append_foreign_keys_part(out: &mut String, foreign_keys: &Vec<ForeignKey>)
    ensures
        final(out)@ == old(out)@ + foreign_keys_part(foreign_keys@),
{
    if foreign_keys.len() == 0 {
        out.append(" (none)\n");
        proof {
            reveal_strlit(" (none)\n");
            reveal_strlit(" (none)");
            reveal_strlit("\n");
            assert(" (none)\n"@ =~= line(" (none)"@));
        }
        return;
    }
    let ghost start = out@;
    let ghost lines = foreign_keys@.map_values(|fk: ForeignKey| foreign_key_line(fk));
    let mut k: usize = 0;
    while k < foreign_keys.len()
        invariant
            k <= foreign_keys@.len(),
            lines == foreign_keys@.map_values(|fk: ForeignKey| foreign_key_line(fk)),
            out@ == start + concat(lines.take(k as int)),
        decreases foreign_keys@.len() - k,
    {
        append_foreign_key_line(out, &foreign_keys[k]);
        proof {
            lemma_concat_push(lines.take(k as int), lines[k as int]);
            assert(lines.take(k as int + 1) =~= lines.take(k as int).push(lines[k as int]));
        }
        k = k + 1;
    }
    assert(lines.take(foreign_keys@.len() as int) =~= lines);
}

/// Writes the report on a table.
pub fn format_table_info(info: &TableInfo) -> (r: String)
    ensures
        r@ == table_report(*info),
{
    let mut output = String::from_str("Table: ");
    output.append(info.schema.as_str());
    output.append(" ");
    output.append(info.name.as_str());
    output.append("\n");
    output.append("\n");
    output.append("Columns:\n");
    let ghost head = output@;
    append_columns_part(&mut output, &info.columns);

    output.append("\n");
    output.append("Primary Key:\n");
    if info.primary_key.len() == 0 {
        output.append("  (none)\n");
    } else {
        output.append("  ");
        output.append(join_texts(&info.primary_key, ", ").as_str());
        output.append("\n");
    }

    output.append("\n");
    output.append("Indexes:\n");
    append_indexes_part(&mut output, &info.indexes);

    output.append("\n");
    output.append("Foreign keys:\n");
    append_foreign_keys_part(&mut output, &info.foreign_keys);
    proof {
        reveal_strlit("\n");
        reveal_strlit("Columns:\n");
        reveal_strlit("Columns:");
        reveal_strlit("Primary Key:\n");
        reveal_strlit("Primary Key:");
        reveal_strlit("Indexes:\n");
        reveal_strlit("Indexes:");
        reveal_strlit("Foreign keys:\n");
        reveal_strlit("Foreign keys:");
        reveal_strlit("  (none)\n");
        reveal_strlit("  (none)");
        assert(head =~= line("Table: "@ + info.schema@ + " "@ + info.name@) + line(Seq::empty())
            + line("Columns:"@));
    }
    assert(output@ =~= table_report(*info));
    output
}

/// One row of the foreign key query: one column of one foreign key.
#[derive(Debug, Clone)]
pub struct ForeignKeyRow {
    pub name: String,
    pub column: String,
    pub reference_schema: String,
    pub reference_table: String,
    pub reference_column: String,
}

/// A foreign key as text.
pub struct ForeignKeyView {
    pub name: Seq<char>,
    pub columns: Seq<Seq<char>>,
    pub reference_schema: Seq<char>,
    pub reference_table: Seq<char>,
    pub references_columns: Seq<Seq<char>>,
}

impl View for ForeignKey {
    type V = ForeignKeyView;

    open spec fn view(&self) -> ForeignKeyView {
        ForeignKeyView {
            name: self.name@,
            columns: string_views(self.columns@),
            reference_schema: self.reference_schema@,
            reference_table: self.reference_table@,
            references_columns: string_views(self.references_columns@),
        }
    }
}

/// The text of a list of foreign keys.
pub open spec fn foreign_key_views(fks: Seq<ForeignKey>) -> Seq<ForeignKeyView> {
    fks.map_values(|fk: ForeignKey| fk@)
}

/// `i` is the first position in `groups` of a foreign key named `name`.
pub open spec fn first_named(groups: Seq<ForeignKeyView>, name: Seq<char>, i: int) -> bool {
    &&& 0 <= i < groups.len()
    &&& groups[i].name == name
    &&& forall|k: int| 0 <= k < i ==> groups[k].name != name
}

/// `groups` after taking in `row`: its column joins the first foreign key of
/// the same name, or else a new foreign key of that one column is added at
/// the end.
#[verifier::opaque]
pub open spec fn take_in_row(groups: Seq<ForeignKeyView>, row: ForeignKeyRow) -> Seq<ForeignKeyView> {
    if exists|i: int| first_named(groups, row.name@, i) {
        let i = choose|i: int| first_named(groups, row.name@, i);
        groups.update(
            i,
            ForeignKeyView {
                columns: groups[i].columns.push(row.column@),
                references_columns: groups[i].references_columns.push(row.reference_column@),
                ..groups[i]
            },
        )
    } else {
        groups.push(
            ForeignKeyView {
                name: row.name@,
                columns: seq![row.column@],
                reference_schema: row.reference_schema@,
                reference_table: row.reference_table@,
                references_columns: seq![row.reference_column@],
            },
        )
    }
}

/// The foreign keys that `rows` describe, taken in order.
pub open spec fn grouped_rows(rows: Seq<ForeignKeyRow>) -> Seq<ForeignKeyView>
    decreases rows.len(),
{
    if rows.len() == 0 {
        Seq::empty()
    } else {
        take_in_row(grouped_rows(rows.drop_last()), rows.last())
    }
}

fn find_foreign_key(foreign_keys: &Vec<ForeignKey>, name: &str) -> (r: Option<usize>)
    ensures
        match r {
            Some(j) => first_named(foreign_key_views(foreign_keys@), name@, j as int),
            None => forall|k: int|
                0 <= k < foreign_keys@.len() ==> foreign_key_views(foreign_keys@)[k].name != name@,
        },
{
    let ghost groups = foreign_key_views(foreign_keys@);
    let mut j: usize = 0;
    while j < foreign_keys.len()
        invariant
            j <= foreign_keys@.len(),
            groups == foreign_key_views(foreign_keys@),
            forall|k: int| 0 <= k < j ==> groups[k].name != name@,
        decreases foreign_keys@.len() - j,
    {
        if same_text(foreign_keys[j].name.as_str(), name) {
            return Some(j);
        }
        j = j + 1;
    }
    None
}

/// Gathers the rows of the foreign key query into foreign keys: the rows of
/// one constraint name make one foreign key, whose columns and referenced
/// columns come in the order of the rows.
pub fn group_foreign_keys(rows: Vec<ForeignKeyRow>) -> (r: Vec<ForeignKey>)
    ensures
        foreign_key_views(r@) == grouped_rows(rows@),
        forall|g: int| 0 <= g < r@.len() ==> follows_rows(rows@, #[trigger] r@[g]@),
        forall|g: int, h: int|
            0 <= g < h < r@.len() ==> named_after(rows@, #[trigger] r@[g].name@, #[trigger] r@[h].name@),
{
    let mut foreign_keys: Vec<ForeignKey> = Vec::new();
    let mut n: usize = 0;
    while n < rows.len()
        invariant
            n <= rows@.len(),
            foreign_key_views(foreign_keys@) == grouped_rows(rows@.take(n as int)),
        decreases rows@.len() - n,
    {
        let row = &rows[n];
        let ghost groups = foreign_key_views(foreign_keys@);
        proof {
            assert(rows@.take(n as int + 1).drop_last() =~= rows@.take(n as int));
            assert(rows@.take(n as int + 1).last() == rows@[n as int]);
        }
        let found = find_foreign_key(&foreign_keys, row.name.as_str());
        proof {
            reveal(take_in_row);
        }
        if let Some(j) = found {
            proof {
                assert(first_named(groups, row.name@, j as int));
                assert forall|i: int| first_named(groups, row.name@, i) implies i == j by {
                    if i < j {
                    } else if i > j {
                        assert(groups[j as int].name == row.name@);
                    }
                }
            }
            let mut fk = foreign_keys.remove(j);
            fk.columns.push(row.column.clone());
            fk.references_columns.push(row.reference_column.clone());
            foreign_keys.insert(j, fk);
            proof {
                assert(string_views(fk.columns@) =~= groups[j as int].columns.push(row.column@));
                assert(string_views(fk.references_columns@) =~= groups[j as int].references_columns.push(
                    row.reference_column@,
                ));
                assert(foreign_key_views(foreign_keys@) =~= take_in_row(groups, *row));
            }
        } else {
            let mut columns: Vec<String> = Vec::new();
            columns.push(row.column.clone());
            let mut references_columns: Vec<String> = Vec::new();
            references_columns.push(row.reference_column.clone());
            assert(string_views(columns@) =~= seq![row.column@]);
            assert(string_views(references_columns@) =~= seq![row.reference_column@]);
            foreign_keys.push(
                ForeignKey {
                    name: row.name.clone(),
                    columns,
                    reference_schema: row.reference_schema.clone(),
                    reference_table: row.reference_table.clone(),
                    references_columns,
                },
            );
            proof {
                assert(!exists|i: int| first_named(groups, row.name@, i)) by {
                    if exists|i: int| first_named(groups, row.name@, i) {
                        let i = choose|i: int| first_named(groups, row.name@, i);
                        assert(groups[i].name == row.name@);
                    }
                }
                let last = foreign_keys@[foreign_keys@.len() - 1];
                assert(last@.columns == seq![row.column@]);
                assert(foreign_key_views(foreign_keys@) =~= take_in_row(groups, *row));
            }
        }
        n = n + 1;
    }
    assert(rows@.take(rows@.len() as int) =~= rows@);
    proof {
        law_grouped_foreign_keys_follow_rows(rows@);
        law_grouped_foreign_keys_keep_row_order(rows@);
        assert forall|g: int, h: int| 0 <= g < h < foreign_keys@.len() implies named_after(
            rows@,
            #[trigger] foreign_keys@[g].name@,
            #[trigger] foreign_keys@[h].name@,
        ) by {
            assert(foreign_key_views(foreign_keys@)[g] == foreign_keys@[g]@);
            assert(foreign_key_views(foreign_keys@)[h] == foreign_keys@[h]@);
        }
        assert forall|g: int| 0 <= g < foreign_keys@.len() implies follows_rows(
            rows@,
            #[trigger] foreign_keys@[g]@,
        ) by {
            assert(foreign_key_views(foreign_keys@)[g] == foreign_keys@[g]@);
        }
    }
    foreign_keys
}

/// The text of an introspection error.
pub open spec fn introspect_error_text(e: IntrospectError) -> Seq<char> {
    match e {
        IntrospectError::TableNotFound { schema, table } => "Table "@ + schema@ + " not found"@,
        IntrospectError::Database(error) => "Database error: "@ + error.message@,
    }
}

impl IntrospectError {
    /// Describes the error for a person.
    pub fn to_string(&self) -> (r: String)
        ensures
            r@ == introspect_error_text(*self),
    {
        match self {
            IntrospectError::TableNotFound { schema, table } => {
                let mut text = String::from_str("Table ");
                text.append(schema.as_str());
                text.append(" not found");
                text
            },
            IntrospectError::Database(error) => {
                let mut text = String::from_str("Database error: ");
                text.append(error.message.as_str());
                text
            },
        }
    }
}

impl From<DatabaseError> for IntrospectError {
    /// A failed catalog read.
    fn from(error: DatabaseError) -> (r: Self) {
        IntrospectError::Database(error)
    }
}

impl FromSpecImpl<DatabaseError> for IntrospectError {
    open spec fn obeys_from_spec() -> bool {
        true
    }

    open spec fn from_spec(error: DatabaseError) -> Self {
        IntrospectError::Database(error)
    }
}

/// No two foreign keys of the list share a name, each has as many referenced
/// columns as columns, and at least one.
pub open spec fn well_grouped(groups: Seq<ForeignKeyView>) -> bool {
    &&& forall|i: int, j: int|
        0 <= i < j < groups.len() ==> #[trigger] groups[i].name != #[trigger] groups[j].name
    &&& forall|i: int|
        0 <= i < groups.len() ==> #[trigger] groups[i].columns.len()
            == groups[i].references_columns.len() && groups[i].columns.len() >= 1
}

/// Every row's constraint name is the name of a foreign key of the list,
/// and every foreign key is named after a row.
pub open spec fn names_match(rows: Seq<ForeignKeyRow>, groups: Seq<ForeignKeyView>) -> bool {
    &&& forall|k: int|
        0 <= k < rows.len() ==> exists|i: int|
            0 <= i < groups.len() && #[trigger] groups[i].name == (#[trigger] rows[k]).name@
    &&& forall|i: int|
        0 <= i < groups.len() ==> exists|k: int|
            0 <= k < rows.len() && (#[trigger] rows[k]).name@ == #[trigger] groups[i].name
}

proof fn lemma_first_named_exists(groups: Seq<ForeignKeyView>, name: Seq<char>, j: int)
    requires
        0 <= j < groups.len(),
        groups[j].name == name,
    ensures
        exists|i: int| first_named(groups, name, i),
    decreases j,
{
    if forall|m: int| 0 <= m < j ==> groups[m].name != name {
        assert(first_named(groups, name, j));
    } else {
        let m = choose|m: int| 0 <= m < j && groups[m].name == name;
        lemma_first_named_exists(groups, name, m);
    }
}

proof fn lemma_take_in_row_names(groups: Seq<ForeignKeyView>, row: ForeignKeyRow)
    ensures
        ({
            let after = take_in_row(groups, row);
            &&& after.len() == groups.len() || after.len() == groups.len() + 1
            &&& forall|j: int| 0 <= j < groups.len() ==> #[trigger] after[j].name == groups[j].name
            &&& after.len() == groups.len() + 1 ==> after[groups.len() as int].name == row.name@
            &&& exists|g: int| 0 <= g < after.len() && after[g].name == row.name@
            &&& after.len() == groups.len() + 1 ==> forall|j: int|
                0 <= j < groups.len() ==> groups[j].name != row.name@
        }),
{
    reveal(take_in_row);
    let after = take_in_row(groups, row);
    if exists|i: int| first_named(groups, row.name@, i) {
        let i = choose|i: int| first_named(groups, row.name@, i);
        assert(after[i].name == row.name@);
    } else {
        assert(after[groups.len() as int].name == row.name@);
        assert forall|j: int| 0 <= j < groups.len() implies groups[j].name != row.name@ by {
            if groups[j].name == row.name@ {
                lemma_first_named_exists(groups, row.name@, j);
            }
        }
    }
}

proof fn lemma_take_in_row_well_grouped(groups: Seq<ForeignKeyView>, row: ForeignKeyRow)
    requires
        well_grouped(groups),
    ensures
        well_grouped(take_in_row(groups, row)),
{
    lemma_take_in_row_names(groups, row);
    reveal(take_in_row);
    let after = take_in_row(groups, row);
    if exists|i: int| first_named(groups, row.name@, i) {
        let i = choose|i: int| first_named(groups, row.name@, i);
        assert forall|j: int| 0 <= j < after.len() && j != i implies after[j] == groups[j] by {}
    }
}

/// Law: the foreign keys gathered from any rows have distinct names, and
/// each has as many referenced columns as columns, at least one.
pub proof fn law_grouped_foreign_keys_are_well_formed(rows: Seq<ForeignKeyRow>)
    ensures
        well_grouped(grouped_rows(rows)),
    decreases rows.len(),
{
    if rows.len() > 0 {
        law_grouped_foreign_keys_are_well_formed(rows.drop_last());
        lemma_take_in_row_well_grouped(grouped_rows(rows.drop_last()), rows.last());
    }
}

/// Law: the foreign keys gathered from any rows are named exactly after the
/// constraint names of the rows.
pub proof fn law_grouped_foreign_keys_match_row_names(rows: Seq<ForeignKeyRow>)
    ensures
        names_match(rows, grouped_rows(rows)),
    decreases rows.len(),
{
    if rows.len() > 0 {
        let before = rows.drop_last();
        let row = rows.last();
        law_grouped_foreign_keys_match_row_names(before);
        let groups = grouped_rows(before);
        let after = grouped_rows(rows);
        lemma_take_in_row_names(groups, row);
        assert forall|k: int| 0 <= k < rows.len() implies exists|g: int|
            0 <= g < after.len() && #[trigger] after[g].name == (#[trigger] rows[k]).name@ by {
            if k < before.len() {
                assert(rows[k] == before[k]);
                let g = choose|g: int| 0 <= g < groups.len() && #[trigger] groups[g].name == (#[trigger] before[k]).name@;
                assert(after[g].name == groups[g].name);
            } else {
                assert(rows[k] == row);
            }
        }
        assert forall|g: int| 0 <= g < after.len() implies exists|k: int|
            0 <= k < rows.len() && (#[trigger] rows[k]).name@ == #[trigger] after[g].name by {
            if g < groups.len() {
                let k = choose|k: int| 0 <= k < before.len() && (#[trigger] before[k]).name@ == #[trigger] groups[g].name;
                assert(rows[k] == before[k]);
                assert(after[g].name == groups[g].name);
            } else {
                assert(rows[rows.len() - 1] == row);
            }
        }
    }
}

/// The rows of the constraint `name`, in their order.
pub open spec fn rows_named(rows: Seq<ForeignKeyRow>, name: Seq<char>) -> Seq<ForeignKeyRow>
    decreases rows.len(),
{
    if rows.len() == 0 {
        Seq::empty()
    } else if rows.last().name@ == name {
        rows_named(rows.drop_last(), name).push(rows.last())
    } else {
        rows_named(rows.drop_last(), name)
    }
}

/// `fk` is what the rows of its constraint name say: there is at least one
/// such row; its columns and referenced columns are those of these rows, in
/// their order; its referenced schema and table are those of the first.
pub open spec fn follows_rows(rows: Seq<ForeignKeyRow>, fk: ForeignKeyView) -> bool {
    let named = rows_named(rows, fk.name);
    &&& named.len() >= 1
    &&& fk.reference_schema == named[0].reference_schema@
    &&& fk.reference_table == named[0].reference_table@
    &&& fk.columns == named.map_values(|row: ForeignKeyRow| row.column@)
    &&& fk.references_columns == named.map_values(|row: ForeignKeyRow| row.reference_column@)
}

proof fn lemma_rows_named_absent(rows: Seq<ForeignKeyRow>, name: Seq<char>)
    requires
        forall|k: int| 0 <= k < rows.len() ==> (#[trigger] rows[k]).name@ != name,
    ensures
        rows_named(rows, name).len() == 0,
    decreases rows.len(),
{
    if rows.len() > 0 {
        lemma_rows_named_absent(rows.drop_last(), name);
        assert(rows[rows.len() - 1].name@ != name);
    }
}

proof fn lemma_follows_rows_other(rows: Seq<ForeignKeyRow>, fk: ForeignKeyView)
    requires
        rows.len() > 0,
        fk.name != rows.last().name@,
        follows_rows(rows.drop_last(), fk),
    ensures
        follows_rows(rows, fk),
{
    assert(rows_named(rows, fk.name) == rows_named(rows.drop_last(), fk.name));
}

proof fn lemma_follows_rows_joined(rows: Seq<ForeignKeyRow>, fk: ForeignKeyView)
    requires
        rows.len() > 0,
        fk.name == rows.last().name@,
        follows_rows(rows.drop_last(), fk),
    ensures
        follows_rows(
            rows,
            ForeignKeyView {
                columns: fk.columns.push(rows.last().column@),
                references_columns: fk.references_columns.push(rows.last().reference_column@),
                ..fk
            },
        ),
{
    let row = rows.last();
    let named = rows_named(rows.drop_last(), fk.name);
    assert(rows_named(rows, fk.name) == named.push(row));
    assert(named.push(row)[0] == named[0]);
    assert(named.push(row).map_values(|r: ForeignKeyRow| r.column@) =~= named.map_values(
        |r: ForeignKeyRow| r.column@,
    ).push(row.column@));
    assert(named.push(row).map_values(|r: ForeignKeyRow| r.reference_column@) =~= named.map_values(
        |r: ForeignKeyRow| r.reference_column@,
    ).push(row.reference_column@));
}

proof fn lemma_follows_rows_new(rows: Seq<ForeignKeyRow>)
    requires
        rows.len() > 0,
        forall|k: int|
            0 <= k < rows.len() - 1 ==> (#[trigger] rows[k]).name@ != rows.last().name@,
    ensures
        follows_rows(
            rows,
            ForeignKeyView {
                name: rows.last().name@,
                columns: seq![rows.last().column@],
                reference_schema: rows.last().reference_schema@,
                reference_table: rows.last().reference_table@,
                references_columns: seq![rows.last().reference_column@],
            },
        ),
{
    let before = rows.drop_last();
    let row = rows.last();
    assert forall|k: int| 0 <= k < before.len() implies (#[trigger] before[k]).name@ != row.name@ by {
        assert(before[k] == rows[k]);
    }
    lemma_rows_named_absent(before, row.name@);
    let named = rows_named(before, row.name@);
    assert(named =~= Seq::<ForeignKeyRow>::empty());
    assert(rows_named(rows, row.name@) =~= seq![row]);
    assert(seq![row].map_values(|r: ForeignKeyRow| r.column@) =~= seq![row.column@]);
    assert(seq![row].map_values(|r: ForeignKeyRow| r.reference_column@) =~= seq![row.reference_column@]);
}

/// Law: each foreign key gathered from any rows is what the rows of its
/// constraint name say: its columns and referenced columns are those of these
/// rows in their order, and its referenced schema and table are those of the
/// first row carrying its name.
#[verifier::rlimit(30)]
pub proof fn law_grouped_foreign_keys_follow_rows(rows: Seq<ForeignKeyRow>)
    ensures
        forall|g: int|
            0 <= g < grouped_rows(rows).len() ==> follows_rows(rows, #[trigger] grouped_rows(rows)[g]),
    decreases rows.len(),
{
    if rows.len() > 0 {
        let before = rows.drop_last();
        let row = rows.last();
        law_grouped_foreign_keys_follow_rows(before);
        law_grouped_foreign_keys_are_well_formed(before);
        law_grouped_foreign_keys_match_row_names(before);
        let groups = grouped_rows(before);
        let after = grouped_rows(rows);
        assert(after == take_in_row(groups, row));
        lemma_take_in_row_names(groups, row);
        if exists|i: int| first_named(groups, row.name@, i) {
            let i = choose|i: int| first_named(groups, row.name@, i);
            assert(after == groups.update(
                i,
                ForeignKeyView {
                    columns: groups[i].columns.push(row.column@),
                    references_columns: groups[i].references_columns.push(row.reference_column@),
                    ..groups[i]
                },
            )) by {
                reveal(take_in_row);
            }
            lemma_follows_rows_joined(rows, groups[i]);
            assert forall|g: int| 0 <= g < after.len() implies follows_rows(
                rows,
                #[trigger] after[g],
            ) by {
                if g != i {
                    assert(groups[g].name != groups[i].name);
                    assert(follows_rows(before, groups[g]));
                    lemma_follows_rows_other(rows, groups[g]);
                }
            }
        } else {
            assert(after == groups.push(
                ForeignKeyView {
                    name: row.name@,
                    columns: seq![row.column@],
                    reference_schema: row.reference_schema@,
                    reference_table: row.reference_table@,
                    references_columns: seq![row.reference_column@],
                },
            )) by {
                reveal(take_in_row);
            }
            assert forall|k: int| 0 <= k < rows.len() - 1 implies (#[trigger] rows[k]).name@
                != row.name@ by {
                assert(rows[k] == before[k]);
                let m = choose|m: int|
                    0 <= m < groups.len() && #[trigger] groups[m].name == (#[trigger] before[k]).name@;
                assert(groups[m].name != row.name@);
            }
            lemma_follows_rows_new(rows);
            assert forall|g: int| 0 <= g < after.len() implies follows_rows(
                rows,
                #[trigger] after[g],
            ) by {
                if g < groups.len() {
                    assert(follows_rows(before, groups[g]));
                    lemma_follows_rows_other(rows, groups[g]);
                }
            }
        }
    }
}

/// Every row named `later` comes after some row named `earlier`.
pub open spec fn named_after(rows: Seq<ForeignKeyRow>, earlier: Seq<char>, later: Seq<char>) -> bool {
    forall|k: int|
        0 <= k < rows.len() && (#[trigger] rows[k]).name@ == later ==> exists|m: int|
            0 <= m < k && (#[trigger] rows[m]).name@ == earlier
}

proof fn lemma_named_after_push(rows: Seq<ForeignKeyRow>, earlier: Seq<char>, later: Seq<char>, mg: int)
    requires
        rows.len() > 0,
        0 <= mg < rows.len() - 1,
        rows[mg].name@ == earlier,
        named_after(rows.drop_last(), earlier, later),
    ensures
        named_after(rows, earlier, later),
{
    let before = rows.drop_last();
    assert forall|k: int| 0 <= k < rows.len() && (#[trigger] rows[k]).name@ == later implies exists|
        m: int,
    | 0 <= m < k && (#[trigger] rows[m]).name@ == earlier by {
        if k < rows.len() - 1 {
            assert(rows[k] == before[k]);
            let m = choose|m: int| 0 <= m < k && (#[trigger] before[m]).name@ == earlier;
            assert(rows[m] == before[m]);
        } else {
            assert(rows[mg].name@ == earlier);
        }
    }
}

proof fn lemma_named_after_new(rows: Seq<ForeignKeyRow>, earlier: Seq<char>, mg: int)
    requires
        rows.len() > 0,
        0 <= mg < rows.len() - 1,
        rows[mg].name@ == earlier,
        forall|k: int| 0 <= k < rows.len() - 1 ==> (#[trigger] rows[k]).name@ != rows.last().name@,
    ensures
        named_after(rows, earlier, rows.last().name@),
{
    assert forall|k: int| 0 <= k < rows.len() && (#[trigger] rows[k]).name@ == rows.last().name@ implies exists|
        m: int,
    | 0 <= m < k && (#[trigger] rows[m]).name@ == earlier by {
        assert(k == rows.len() - 1);
        assert(rows[mg].name@ == earlier);
    }
}

/// Law: the foreign keys gathered from any rows come in the order in which
/// their constraint names first appear among the rows.
#[verifier::rlimit(30)]
pub proof fn law_grouped_foreign_keys_keep_row_order(rows: Seq<ForeignKeyRow>)
    ensures
        forall|g: int, h: int|
            0 <= g < h < grouped_rows(rows).len() ==> named_after(
                rows,
                #[trigger] grouped_rows(rows)[g].name,
                #[trigger] grouped_rows(rows)[h].name,
            ),
    decreases rows.len(),
{
    if rows.len() > 0 {
        let before = rows.drop_last();
        let row = rows.last();
        law_grouped_foreign_keys_keep_row_order(before);
        law_grouped_foreign_keys_match_row_names(before);
        let groups = grouped_rows(before);
        let after = grouped_rows(rows);
        assert(after == take_in_row(groups, row));
        lemma_take_in_row_names(groups, row);
        assert forall|g: int, h: int| 0 <= g < h < after.len() implies named_after(
            rows,
            #[trigger] after[g].name,
            #[trigger] after[h].name,
        ) by {
            assert(after[g].name == groups[g].name);
            let mg = choose|mg: int|
                0 <= mg < before.len() && (#[trigger] before[mg]).name@ == #[trigger] groups[g].name;
            assert(rows[mg] == before[mg]);
            if h < groups.len() {
                assert(after[h].name == groups[h].name);
                assert(named_after(before, groups[g].name, groups[h].name));
                lemma_named_after_push(rows, after[g].name, after[h].name, mg);
            } else {
                assert forall|k: int| 0 <= k < rows.len() - 1 implies (#[trigger] rows[k]).name@
                    != rows.last().name@ by {
                    assert(rows[k] == before[k]);
                    let j = choose|j: int|
                        0 <= j < groups.len() && #[trigger] groups[j].name == (#[trigger] before[k]).name@;
                    assert(groups[j].name != row.name@);
                }
                lemma_named_after_new(rows, after[g].name, mg);
            }
        }
    }
}

} // verus!
