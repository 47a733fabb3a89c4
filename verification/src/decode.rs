//! Decoding of fetched rows: each cell is read by the name of its column's
//! declared type and becomes one dynamic value; a row becomes one record.
//!
//! REAL cells hold double-precision numbers, which the verified code does not
//! read itself: the caller reads them from the row and hands the outcomes in.

use crate::driver::{
    cells, column_count, column_name, column_type, error_message, read_blob, read_integer,
    read_text, Cell,
};
use crate::error::{query_error, DatabaseError};
use crate::value::{
    has_name, place_of, stored, DynamicRecord, DynamicValue, Entries, ValueModel,
};
use vstd::prelude::*;
use vstd::string::*;

verus! {

/// How a column is read, chosen by the name of its declared type.
#[derive(Debug, Clone, Copy, PartialEq, Eq, Structural)]
pub enum ColumnKind {
    Text,
    Integer,
    Real,
    Blob,
    /// Any other declared type: the cell is not inspected.
    Other,
}

/// The kind that belongs to the name of a declared type. The four names are
/// matched exactly; every other name gives `Other`.
pub open spec fn kind_of(declared: Seq<char>) -> ColumnKind {
    if declared == "TEXT"@ {
        ColumnKind::Text
    } else if declared == "INTEGER"@ {
        ColumnKind::Integer
    } else if declared == "REAL"@ {
        ColumnKind::Real
    } else if declared == "BLOB"@ {
        ColumnKind::Blob
    } else {
        ColumnKind::Other
    }
}

/// Chooses how to read a column from the name of its declared type.
pub fn classify(declared: &str) -> (kind: ColumnKind)
    ensures
        kind == kind_of(declared@),
{
    let name = String::from_str(declared);
    if name == String::from_str("TEXT") {
        ColumnKind::Text
    } else if name == String::from_str("INTEGER") {
        ColumnKind::Integer
    } else if name == String::from_str("REAL") {
        ColumnKind::Real
    } else if name == String::from_str("BLOB") {
        ColumnKind::Blob
    } else {
        ColumnKind::Other
    }
}

/// The outcome of reading a REAL cell, as the caller hands it in: the bit
/// pattern of the number, nothing for NULL, or the driver's error.
pub type RealRead = Result<Option<u64>, sqlx::Error>;

/// A read outcome with the error replaced by its message.
pub open spec fn real_outcome(read: RealRead) -> Result<Option<u64>, Seq<char>> {
    match read {
        Ok(bits) => Ok(bits),
        Err(e) => Err(error_message(e)),
    }
}

/// The outcomes of the caller's reads, each with its error as a message.
pub open spec fn real_outcomes(reads: Seq<RealRead>) -> Seq<Result<Option<u64>, Seq<char>>> {
    Seq::new(reads.len(), |i: int| real_outcome(reads[i]))
}

/// The value of one cell, or the message of the read that failed. `read` is
/// the outcome of the caller's read and counts for a REAL column only. A
/// read that finds NULL gives `Null`; a column of another declared type gives
/// `Null` whatever it holds.
pub open spec fn decoded_cell(cell: Cell, read: Result<Option<u64>, Seq<char>>) -> Result<
    ValueModel,
    Seq<char>,
> {
    match kind_of(cell.declared) {
        ColumnKind::Text => match cell.text {
            Ok(Some(s)) => Ok(ValueModel::Text(s)),
            Ok(None) => Ok(ValueModel::Null),
            Err(message) => Err(message),
        },
        ColumnKind::Integer => match cell.integer {
            Ok(Some(n)) => Ok(ValueModel::Integer(n)),
            Ok(None) => Ok(ValueModel::Null),
            Err(message) => Err(message),
        },
        ColumnKind::Real => match read {
            Ok(Some(bits)) => Ok(ValueModel::Real(bits)),
            Ok(None) => Ok(ValueModel::Null),
            Err(message) => Err(message),
        },
        ColumnKind::Blob => match cell.blob {
            Ok(Some(bytes)) => Ok(ValueModel::Blob(bytes)),
            Ok(None) => Ok(ValueModel::Null),
            Err(message) => Err(message),
        },
        ColumnKind::Other => Ok(ValueModel::Null),
    }
}

/// The places of the REAL columns among the first `n`, in ascending order.
pub open spec fn real_places(columns: Seq<Cell>, n: int) -> Seq<usize>
    decreases n,
{
    if n <= 0 {
        Seq::empty()
    } else if kind_of(columns[n - 1].declared) == ColumnKind::Real {
        real_places(columns, n - 1).push((n - 1) as usize)
    } else {
        real_places(columns, n - 1)
    }
}

/// The record made of the first `n` columns, or the message of the first read
/// that failed. The `k`-th REAL column takes the `k`-th of `reals`. Each value
/// is stored under its column's name, in column order.
pub open spec fn decoded_prefix(
    columns: Seq<Cell>,
    reals: Seq<Result<Option<u64>, Seq<char>>>,
    n: int,
) -> Result<Entries, Seq<char>>
    decreases n,
{
    if n <= 0 {
        Ok(Entries::empty())
    } else {
        match decoded_prefix(columns, reals, n - 1) {
            Err(message) => Err(message),
            Ok(entries) => match decoded_cell(
                columns[n - 1],
                reals[real_places(columns, n - 1).len() as int],
            ) {
                Err(message) => Err(message),
                Ok(value) => Ok(stored(entries, columns[n - 1].name, value)),
            },
        }
    }
}

/// The record of a whole row, or the message of the first read that failed.
pub open spec fn decoded_row(columns: Seq<Cell>, reals: Seq<Result<Option<u64>, Seq<char>>>)
    -> Result<Entries, Seq<char>> {
    decoded_prefix(columns, reals, columns.len() as int)
}

/// Whether `result` reports `expected`: the record with exactly those
/// entries, or a `QueryError` with exactly that message.
pub open spec fn reports(
    result: Result<DynamicRecord, DatabaseError>,
    expected: Result<Entries, Seq<char>>,
) -> bool {
    match expected {
        Ok(entries) => result matches Ok(record) && record@ == entries,
        Err(message) => result matches Err(DatabaseError::QueryError(text)) && text@ == message,
    }
}

/// More columns hold at least as many REAL columns.
pub proof fn lemma_real_places_grow(columns: Seq<Cell>, a: int, b: int)
    requires
        a <= b,
    ensures
        real_places(columns, a).len() <= real_places(columns, b).len(),
    decreases b - a,
{
    if a < b {
        lemma_real_places_grow(columns, a, b - 1);
    }
}

/// Once a read has failed, the columns after it change nothing.
pub proof fn lemma_failure_stays(
    columns: Seq<Cell>,
    reals: Seq<Result<Option<u64>, Seq<char>>>,
    a: int,
    b: int,
)
    requires
        a <= b,
    ensures
        decoded_prefix(columns, reals, a) is Err ==> decoded_prefix(columns, reals, b)
            == decoded_prefix(columns, reals, a),
    decreases b - a,
{
    if a < b {
        lemma_failure_stays(columns, reals, a, b - 1);
    }
}

/// Where the column names of a row differ from one another and every read
/// succeeds, the record holds one entry for each column, in column order:
/// the column's name with the value of its cell.
pub proof fn lemma_distinct_columns_keep_order(
    columns: Seq<Cell>,
    reals: Seq<Result<Option<u64>, Seq<char>>>,
    n: int,
)
    requires
        0 <= n <= columns.len(),
        forall|i: int, j: int|
            0 <= i < j < columns.len() ==> (#[trigger] columns[i]).name
                != (#[trigger] columns[j]).name,
        decoded_prefix(columns, reals, n) is Ok,
    ensures
        ({
            let entries = decoded_prefix(columns, reals, n)->Ok_0;
            &&& entries.len() == n
            &&& forall|i: int|
                0 <= i < n ==> {
                    &&& (#[trigger] entries[i]).0 == columns[i].name
                    &&& decoded_cell(columns[i], reals[real_places(columns, i).len() as int])
                        == Ok::<ValueModel, Seq<char>>(entries[i].1)
                }
        }),
    decreases n,
{
    if n > 0 {
        lemma_distinct_columns_keep_order(columns, reals, n - 1);
        let before = decoded_prefix(columns, reals, n - 1)->Ok_0;
        let name = columns[n - 1].name;
        assert(!has_name(before, name)) by {
            if has_name(before, name) {
                let j = place_of(before, name);
                assert(before[j].0 == columns[j].name);
                assert(columns[j].name != columns[n - 1].name);
            }
        }
    }
}

/// A column whose declared type is none of TEXT, INTEGER, REAL and BLOB
/// decodes to `Null`, whatever value it holds and whatever the reads give.
pub proof fn lemma_unknown_type_is_null(cell: Cell, read: Result<Option<u64>, Seq<char>>)
    requires
        cell.declared != "TEXT"@,
        cell.declared != "INTEGER"@,
        cell.declared != "REAL"@,
        cell.declared != "BLOB"@,
    ensures
        decoded_cell(cell, read) matches Ok(ValueModel::Null),
{
}

/// A read that finds NULL decodes to `Null`, whatever the declared type.
pub proof fn lemma_null_is_null(cell: Cell, read: Result<Option<u64>, Seq<char>>)
    requires
        match kind_of(cell.declared) {
            ColumnKind::Text => cell.text matches Ok(None),
            ColumnKind::Integer => cell.integer matches Ok(None),
            ColumnKind::Real => read matches Ok(None),
            ColumnKind::Blob => cell.blob matches Ok(None),
            ColumnKind::Other => true,
        },
    ensures
        decoded_cell(cell, read) matches Ok(ValueModel::Null),
{
}

/// In a column declared TEXT, INTEGER, REAL or BLOB, a read that finds a
/// value decodes to that value under the kind of the declared type.
pub proof fn lemma_value_keeps_kind(cell: Cell, read: Result<Option<u64>, Seq<char>>)
    ensures
        match kind_of(cell.declared) {
            ColumnKind::Text => cell.text matches Ok(Some(found)) ==> decoded_cell(cell, read)
                matches Ok(ValueModel::Text(kept)) && kept == found,
            ColumnKind::Integer => cell.integer matches Ok(Some(found)) ==> decoded_cell(
                cell,
                read,
            ) matches Ok(ValueModel::Integer(kept)) && kept == found,
            ColumnKind::Real => read matches Ok(Some(found)) ==> decoded_cell(cell, read)
                matches Ok(ValueModel::Real(kept)) && kept == found,
            ColumnKind::Blob => cell.blob matches Ok(Some(found)) ==> decoded_cell(cell, read)
                matches Ok(ValueModel::Blob(kept)) && kept == found,
            ColumnKind::Other => true,
        },
{
}

/// The places of the columns declared REAL, in ascending order: the cells
/// that the caller has to read before the row can be decoded.
pub fn real_columns(row: &sqlx::sqlite::SqliteRow) -> (places: Vec<usize>)
    ensures
        places@ == real_places(cells(*row), cells(*row).len() as int),
{
    let n = column_count(row);
    let mut places: Vec<usize> = Vec::new();
    let mut i: usize = 0;
    while i < n
        invariant
            i <= n,
            n == cells(*row).len(),
            places@ == real_places(cells(*row), i as int),
        decreases n - i,
    {
        let declared = column_type(row, i);
        match classify(declared.as_str()) {
            ColumnKind::Real => {
                places.push(i);
            },
            _ => {},
        }
        i += 1;
    }
    places
}

/// Decodes one row into a record. `reals` holds the outcome of reading each
/// REAL column, in column order. The first read that fails ends the decoding
/// with a `QueryError` that carries its message; no partial record is
/// returned.
pub fn decode_row(row: &sqlx::sqlite::SqliteRow, reals: &Vec<RealRead>) -> (result: Result<
    DynamicRecord,
    DatabaseError,
>)
    requires
        reals.len() == real_places(cells(*row), cells(*row).len() as int).len(),
    ensures
        reports(result, decoded_row(cells(*row), real_outcomes(reals@))),
{
    let ghost columns = cells(*row);
    let ghost outcomes = real_outcomes(reals@);
    let n = column_count(row);
    let mut record = DynamicRecord::new();
    let mut next_real: usize = 0;
    let mut i: usize = 0;
    while i < n
        invariant
            i <= n,
            n == columns.len(),
            columns == cells(*row),
            outcomes == real_outcomes(reals@),
            reals.len() == real_places(columns, n as int).len(),
            next_real == real_places(columns, i as int).len(),
            decoded_prefix(columns, outcomes, i as int) == Ok::<Entries, Seq<char>>(record@),
        decreases n - i,
    {
        proof {
            lemma_real_places_grow(columns, i + 1, n as int);
            lemma_failure_stays(columns, outcomes, i + 1, n as int);
        }
        let declared = column_type(row, i);
        let value = match classify(declared.as_str()) {
            ColumnKind::Text => match read_text(row, i) {
                Ok(Some(s)) => DynamicValue::Text(s),
                Ok(None) => DynamicValue::Null,
                Err(e) => {
                    return Err(query_error(&e));
                },
            },
            ColumnKind::Integer => match read_integer(row, i) {
                Ok(Some(number)) => DynamicValue::Integer(number),
                Ok(None) => DynamicValue::Null,
                Err(e) => {
                    return Err(query_error(&e));
                },
            },
            ColumnKind::Real => {
                let read = &reals[next_real];
                next_real += 1;
                match read {
                    Ok(Some(bits)) => DynamicValue::Real(*bits),
                    Ok(None) => DynamicValue::Null,
                    Err(e) => {
                        return Err(query_error(e));
                    },
                }
            },
            ColumnKind::Blob => match read_blob(row, i) {
                Ok(Some(bytes)) => DynamicValue::Blob(bytes),
                Ok(None) => DynamicValue::Null,
                Err(e) => {
                    return Err(query_error(&e));
                },
            },
            ColumnKind::Other => DynamicValue::Null,
        };
        record.set(column_name(row, i), value);
        i += 1;
    }
    Ok(record)
}

/// The records of the first `n` rows, or the message of the first read that
/// failed. Row `r` takes the reads `reals[r]`.
pub open spec fn decoded_rows(
    rows: Seq<sqlx::sqlite::SqliteRow>,
    reals: Seq<Vec<RealRead>>,
    n: int,
) -> Result<Seq<Entries>, Seq<char>>
    decreases n,
{
    if n <= 0 {
        Ok(Seq::empty())
    } else {
        match decoded_rows(rows, reals, n - 1) {
            Err(message) => Err(message),
            Ok(records) => match decoded_row(cells(rows[n - 1]), real_outcomes(reals[n - 1]@)) {
                Err(message) => Err(message),
                Ok(entries) => Ok(records.push(entries)),
            },
        }
    }
}

/// Whether the reads fit the rows: one list of reads for each row, holding
/// one read for each REAL column of that row.
pub open spec fn reads_fit(rows: Seq<sqlx::sqlite::SqliteRow>, reals: Seq<Vec<RealRead>>) -> bool {
    &&& reals.len() == rows.len()
    &&& forall|r: int|
        0 <= r < rows.len() ==> (#[trigger] reals[r]).len() == real_places(
            cells(rows[r]),
            cells(rows[r]).len() as int,
        ).len()
}

/// Whether `result` reports `expected` for a whole result set: the records
/// with exactly those entries, in order, or a `QueryError` with exactly that
/// message.
pub open spec fn reports_all(
    result: Result<Vec<DynamicRecord>, DatabaseError>,
    expected: Result<Seq<Entries>, Seq<char>>,
) -> bool {
    match expected {
        Ok(all) => result matches Ok(records) && records.deep_view() == all,
        Err(message) => result matches Err(DatabaseError::QueryError(text)) && text@ == message,
    }
}

/// Once a row has failed, the rows after it change nothing.
pub proof fn lemma_row_failure_stays(
    rows: Seq<sqlx::sqlite::SqliteRow>,
    reals: Seq<Vec<RealRead>>,
    a: int,
    b: int,
)
    requires
        a <= b,
    ensures
        decoded_rows(rows, reals, a) is Err ==> decoded_rows(rows, reals, b) == decoded_rows(
            rows,
            reals,
            a,
        ),
    decreases b - a,
{
    if a < b {
        lemma_row_failure_stays(rows, reals, a, b - 1);
    }
}

/// Decodes a result set: one record per row, in the order of the rows.
/// `reals[r]` holds the outcome of reading each REAL column of row `r`, in
/// column order. The first read that fails ends the decoding with a
/// `QueryError` that carries its message, and no record is returned.
pub fn decode_rows(rows: &Vec<sqlx::sqlite::SqliteRow>, reals: &Vec<Vec<RealRead>>) -> (result:
    Result<Vec<DynamicRecord>, DatabaseError>)
    requires
        reads_fit(rows@, reals@),
    ensures
        reports_all(result, decoded_rows(rows@, reals@, rows.len() as int)),
{
    let mut records: Vec<DynamicRecord> = Vec::new();
    assert(records.deep_view() =~= Seq::<Entries>::empty());
    let mut r: usize = 0;
    while r < rows.len()
        invariant
            r <= rows.len(),
            reads_fit(rows@, reals@),
            decoded_rows(rows@, reals@, r as int) == Ok::<Seq<Entries>, Seq<char>>(
                records.deep_view(),
            ),
        decreases rows.len() - r,
    {
        proof {
            lemma_row_failure_stays(rows@, reals@, r + 1, rows.len() as int);
        }
        let ghost done = records.deep_view();
        match decode_row(&rows[r], &reals[r]) {
            Ok(record) => {
                records.push(record);
                assert(records.deep_view() =~= done.push(record@));
            },
            Err(error) => {
                return Err(error);
            },
        }
        r += 1;
    }
    Ok(records)
}

/// Decodes a result set after testing that the reads fit the rows. Returns
/// `None`, and decodes nothing, exactly when they do not fit; otherwise what
/// `decode_rows` returns.
pub fn decode_result(rows: &Vec<sqlx::sqlite::SqliteRow>, reals: &Vec<Vec<RealRead>>) -> (result:
    Option<Result<Vec<DynamicRecord>, DatabaseError>>)
    ensures
        result is Some <==> reads_fit(rows@, reals@),
        result matches Some(decoded) ==> reports_all(
            decoded,
            decoded_rows(rows@, reals@, rows.len() as int),
        ),
{
    if reals.len() != rows.len() {
        return None;
    }
    let mut r: usize = 0;
    while r < rows.len()
        invariant
            r <= rows.len(),
            reals.len() == rows.len(),
            forall|k: int|
                0 <= k < r ==> (#[trigger] reals[k]).len() == real_places(
                    cells(rows[k]),
                    cells(rows[k]).len() as int,
                ).len(),
        decreases rows.len() - r,
    {
        let places = real_columns(&rows[r]);
        if places.len() != reals[r].len() {
            return None;
        }
        r += 1;
    }
    Some(decode_rows(rows, reals))
}

} // verus!
