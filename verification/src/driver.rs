//! The SQLite driver as the verified code sees it. Nothing in this file is
//! proved: each function here makes one call into `sqlx`, and its contract
//! records what that call is taken to do.

use sqlx::{Column, Row, TypeInfo};
use vstd::prelude::*;

verus! {

/// A row as `sqlx` fetched it. Opaque: it is read through the functions below.
#[verifier::external_type_specification]
#[verifier::external_body]
pub struct ExSqliteRow(sqlx::sqlite::SqliteRow);

/// A failure reported by `sqlx`. Opaque: only its message is read.
#[verifier::external_type_specification]
#[verifier::external_body]
pub struct ExSqlxError(sqlx::Error);

/// What one column of a fetched row gives: its name, the name under which
/// the driver reports its declared type, and the outcome of reading its value
/// as an optional text, integer or byte string. A failed read is held as the
/// message of its error.
pub struct Cell {
    pub name: Seq<char>,
    pub declared: Seq<char>,
    pub text: Result<Option<Seq<char>>, Seq<char>>,
    pub integer: Result<Option<i64>, Seq<char>>,
    pub blob: Result<Option<Seq<u8>>, Seq<char>>,
}

/// The columns of a row, in the order of the result set.
pub uninterp spec fn cells(row: sqlx::sqlite::SqliteRow) -> Seq<Cell>;

/// The message that an error of `sqlx` displays.
pub uninterp spec fn error_message(e: sqlx::Error) -> Seq<char>;

/// The text of an optional string.
pub open spec fn text_of(value: Option<String>) -> Option<Seq<char>> {
    match value {
        Some(s) => Some(s@),
        None => None,
    }
}

/// The bytes of an optional byte string.
pub open spec fn bytes_of(value: Option<Vec<u8>>) -> Option<Seq<u8>> {
    match value {
        Some(b) => Some(b@),
        None => None,
    }
}

/// `Row::columns` of `sqlx`, then the slice's length: the number of columns
/// of the row.
#[verifier::external_body]
pub(crate) fn column_count(row: &sqlx::sqlite::SqliteRow) -> (n: usize)
    ensures
        n == cells(*row).len(),
{
    row.columns().len()
}

/// `Column::name` of `sqlx` on the column at `index`: the column's name as
/// the result set gives it.
#[verifier::external_body]
pub(crate) fn column_name(row: &sqlx::sqlite::SqliteRow, index: usize) -> (name: String)
    requires
        index < cells(*row).len(),
    ensures
        name@ == cells(*row)[index as int].name,
{
    row.columns()[index].name().to_owned()
}

/// `Column::type_info` and `TypeInfo::name` of `sqlx` on the column at
/// `index`: the name under which `sqlx` reports the column's type, which it
/// takes from the column's declaration where the column has one.
#[verifier::external_body]
pub(crate) fn column_type(row: &sqlx::sqlite::SqliteRow, index: usize) -> (declared: String)
    requires
        index < cells(*row).len(),
    ensures
        declared@ == cells(*row)[index as int].declared,
{
    row.columns()[index].type_info().name().to_owned()
}

/// `Row::try_get` of `sqlx` at `Option<String>`: the value at `index` read as
/// an optional text. The outcome depends on the row and the index alone.
#[verifier::external_body]
pub(crate) fn read_text(row: &sqlx::sqlite::SqliteRow, index: usize) -> (r: Result<
    Option<String>,
    sqlx::Error,
>)
    requires
        index < cells(*row).len(),
    ensures
        match r {
            Ok(value) => cells(*row)[index as int].text == Ok::<_, Seq<char>>(text_of(value)),
            Err(e) => cells(*row)[index as int].text == Err::<Option<Seq<char>>, _>(
                error_message(e),
            ),
        },
{
    row.try_get::<Option<String>, _>(index)
}

/// `Row::try_get` of `sqlx` at `Option<i64>`: the value at `index` read as an
/// optional 64-bit signed integer. The outcome depends on the row and the
/// index alone.
#[verifier::external_body]
pub(crate) fn read_integer(row: &sqlx::sqlite::SqliteRow, index: usize) -> (r: Result<
    Option<i64>,
    sqlx::Error,
>)
    requires
        index < cells(*row).len(),
    ensures
        match r {
            Ok(value) => cells(*row)[index as int].integer == Ok::<_, Seq<char>>(value),
            Err(e) => cells(*row)[index as int].integer == Err::<Option<i64>, _>(
                error_message(e),
            ),
        },
{
    row.try_get::<Option<i64>, _>(index)
}

/// `Row::try_get` of `sqlx` at `Option<Vec<u8>>`: the value at `index` read as
/// an optional byte string. The outcome depends on the row and the index
/// alone.
#[verifier::external_body]
pub(crate) fn read_blob(row: &sqlx::sqlite::SqliteRow, index: usize) -> (r: Result<
    Option<Vec<u8>>,
    sqlx::Error,
>)
    requires
        index < cells(*row).len(),
    ensures
        match r {
            Ok(value) => cells(*row)[index as int].blob == Ok::<_, Seq<char>>(bytes_of(value)),
            Err(e) => cells(*row)[index as int].blob == Err::<Option<Seq<u8>>, _>(
                error_message(e),
            ),
        },
{
    row.try_get::<Option<Vec<u8>>, _>(index)
}

/// `to_string` on an error of `sqlx`: the message that it displays.
#[verifier::external_body]
pub(crate) fn error_text(e: &sqlx::Error) -> (message: String)
    ensures
        message@ == error_message(*e),
{
    e.to_string()
}

/// A statement of `sqlx` with the values bound to it so far. `sqlx` declares
/// its `Query` over a trait of its own, which Verus does not take, so the
/// statement is kept behind this struct; the caller who runs the statement
/// takes it from the field.
#[verifier::external_body]
pub struct BoundQuery<'q> {
    pub query: sqlx::query::Query<'q, sqlx::Sqlite, sqlx::sqlite::SqliteArguments<'q>>,
}

/// The SQL text of a statement.
pub uninterp spec fn statement_text(q: BoundQuery<'_>) -> Seq<char>;

/// The values bound to a statement, first placeholder first. Each is bound as text.
pub uninterp spec fn bound_values(q: BoundQuery<'_>) -> Seq<Seq<char>>;

/// `sqlx::query`: a statement over `sql` with nothing bound.
#[verifier::external_body]
pub(crate) fn new_query<'q>(sql: &'q str) -> (q: BoundQuery<'q>)
    ensures
        statement_text(q) == sql@,
        bound_values(q) == Seq::<Seq<char>>::empty(),
{
    BoundQuery { query: sqlx::query(sql) }
}

/// `Query::bind` of `sqlx` with a `String`: the same statement with `value`
/// bound, as text, to the next placeholder.
#[verifier::external_body]
pub(crate) fn bind_text<'q>(q: BoundQuery<'q>, value: String) -> (r: BoundQuery<'q>)
    ensures
        statement_text(r) == statement_text(q),
        bound_values(r) == bound_values(q).push(value@),
{
    BoundQuery { query: q.query.bind(value) }
}

} // verus!
