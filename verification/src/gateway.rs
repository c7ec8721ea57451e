//! The storage gateway: the calls into `rusqlite` that the rest of the
//! library is built on.  Nothing in this file is proved: every contract here
//! is taken on trust from `rusqlite`, and each says above it what it claims.

use vstd::prelude::*;
use crate::member::{member_columns, MemberRecord};

verus! {

/// A live connection to the store.
#[verifier::external_type_specification]
#[verifier::external_body]
pub struct ExConnection(rusqlite::Connection);

/// A prepared statement, bound to the connection that prepared it.
#[verifier::external_type_specification]
#[verifier::external_body]
pub struct ExStatement<'conn>(rusqlite::Statement<'conn>);

/// The cursor over the rows that a query yields.
#[verifier::external_type_specification]
#[verifier::external_body]
pub struct ExRows<'stmt>(rusqlite::Rows<'stmt>);

/// The row a cursor currently stands on.
#[verifier::external_type_specification]
#[verifier::external_body]
pub struct ExRow<'stmt>(rusqlite::Row<'stmt>);

/// A failure reported by the store.
#[verifier::external_type_specification]
#[verifier::external_body]
pub struct ExError(rusqlite::Error);

/// `rusqlite::Connection::prepare`: compiles `sql` into a statement.  Whether
/// it succeeds depends on the store; a statement that comes back was made
/// from `sql`.
#[verifier::external_body]
pub(crate) fn prepare<'conn>(conn: &'conn rusqlite::Connection, sql: &str) -> (stmt: Result<
    rusqlite::Statement<'conn>,
    rusqlite::Error,
>)
    ensures
        stmt matches Ok(made) ==> text(made) == sql@,
{
    conn.prepare(sql)
}

/// `rusqlite::Connection::execute` with no bound parameter: prepares a
/// statement from `sql`, runs it once and yields the number of rows it
/// changed.  Whether it succeeds is the store's matter.  It succeeds only
/// with a statement made from `sql` that takes no parameter.
#[verifier::external_body]
pub(crate) fn execute_plain(conn: &rusqlite::Connection, sql: &str) -> (changed: Result<
    usize,
    rusqlite::Error,
>)
    ensures
        changed is Ok ==> holds(sql@, Seq::empty()),
{
    conn.execute(sql, ())
}

/// `rusqlite::Statement::execute` with the seven columns of a member row
/// bound in order: yields the number of rows the statement changed.  Whether
/// it succeeds is the store's matter.  It succeeds only after every one of
/// the seven values was bound, each at its place: an integer as it is, a flag
/// as one or zero, `None` as the null.
#[verifier::external_body]
pub(crate) fn execute_record(stmt: &mut rusqlite::Statement<'_>, rec: &MemberRecord) -> (changed:
    Result<usize, rusqlite::Error>)
    ensures
        text(*final(stmt)) == text(*old(stmt)),
        changed is Ok ==> bound(*final(stmt)) == member_columns(*rec),
{
    stmt.execute(
        (
            rec.uid,
            rec.manager,
            rec.ban_time,
            rec.last_attempt,
            rec.max_auto,
            rec.last_enter,
            rec.last_leave,
        ),
    )
}

/// `rusqlite::Statement::execute` with one integer bound: yields the number
/// of rows the statement changed.  Whether it succeeds is the store's matter.
/// It succeeds only after the integer was bound as the statement's one
/// parameter.
#[verifier::external_body]
pub(crate) fn execute_key(stmt: &mut rusqlite::Statement<'_>, key: i64) -> (changed: Result<
    usize,
    rusqlite::Error,
>)
    ensures
        text(*final(stmt)) == text(*old(stmt)),
        changed is Ok ==> bound(*final(stmt)) == seq![Cell::Integer(key)],
{
    stmt.execute((key,))
}

/// `rusqlite::Statement::query` with one byte string bound: opens a cursor
/// over the rows that match.  Whether it succeeds is the store's matter.  A
/// cursor comes back only after the byte string was bound as the statement's
/// one parameter.
#[verifier::external_body]
pub(crate) fn query_bytes<'stmt>(stmt: &'stmt mut rusqlite::Statement<'_>, key: &[u8]) -> (rows:
    Result<rusqlite::Rows<'stmt>, rusqlite::Error>)
    ensures
        rows is Ok ==> holds(text(*old(stmt)), seq![Cell::Bytes(key@)]),
{
    stmt.query((key,))
}

/// `rusqlite::Rows::next`: moves the cursor on; `Ok(None)` once the rows are
/// used up.  Nothing is claimed of the outcome.
#[verifier::external_body]
pub(crate) fn next_row<'rows, 'stmt>(rows: &'rows mut rusqlite::Rows<'stmt>) -> (row: Result<
    Option<&'rows rusqlite::Row<'stmt>>,
    rusqlite::Error,
>) {
    rows.next()
}

/// What one column of a row holds, as far as this library tells values
/// apart.
pub enum Cell {
    /// The SQL null.
    Null,
    /// A 64-bit integer.
    Integer(i64),
    /// A byte string.
    Bytes(Seq<u8>),
    /// A real number or a text.
    Other,
}

/// The values that the statement's parameters hold, in the order of their
/// indices.
pub uninterp spec fn bound(stmt: rusqlite::Statement<'_>) -> Seq<Cell>;

/// The text that the statement was prepared from.
pub uninterp spec fn text(stmt: rusqlite::Statement<'_>) -> Seq<char>;

/// Whether there is a statement made from `sql` whose parameters hold
/// `values`.
pub open spec fn holds(sql: Seq<char>, values: Seq<Cell>) -> bool {
    exists|stmt: rusqlite::Statement<'_>| text(stmt) == sql && bound(stmt) == values
}

/// The columns of the row, in the order the query projects them.
pub uninterp spec fn cells(row: rusqlite::Row<'_>) -> Seq<Cell>;

/// The column at `idx`, if the row has that many.
pub open spec fn cell_at(columns: Seq<Cell>, idx: usize) -> Option<Cell> {
    if idx < columns.len() {
        Some(columns[idx as int])
    } else {
        None
    }
}

/// The integer a column holds; `None` where it is missing or holds anything
/// else, null included.
pub open spec fn integer_in(cell: Option<Cell>) -> Option<i64> {
    match cell {
        Some(Cell::Integer(i)) => Some(i),
        _ => None,
    }
}

/// The integer or null a column holds; `None` where it is missing or holds
/// anything else.
pub open spec fn optional_integer_in(cell: Option<Cell>) -> Option<Option<i64>> {
    match cell {
        Some(Cell::Null) => Some(None),
        Some(Cell::Integer(i)) => Some(Some(i)),
        _ => None,
    }
}

/// The byte string or null a column holds; `None` where it is missing or
/// holds anything else.
pub open spec fn optional_bytes_in(cell: Option<Cell>) -> Option<Option<Seq<u8>>> {
    match cell {
        Some(Cell::Null) => Some(None),
        Some(Cell::Bytes(b)) => Some(Some(b)),
        _ => None,
    }
}

/// `rusqlite::Row::get_ref`, then `ValueRef::as_i64`, its error turned into
/// the store's by `From`: the integer that the column holds.  A column that
/// is out of range or holds anything but an integer gives an error.
#[verifier::external_body]
pub(crate) fn column_integer(row: &rusqlite::Row<'_>, idx: usize) -> (value: Result<
    i64,
    rusqlite::Error,
>)
    ensures
        match integer_in(cell_at(cells(*row), idx)) {
            Some(i) => value == Ok::<i64, rusqlite::Error>(i),
            None => value is Err,
        },
{
    row.get_ref(idx)?.as_i64().map_err(rusqlite::Error::from)
}

/// `rusqlite::Row::get_ref`, then `ValueRef::as_i64_or_null`, its error
/// turned into the store's by `From`: `None` for a null, else the integer
/// that the column holds.  A column that is out of range or holds anything
/// else gives an error.
#[verifier::external_body]
pub(crate) fn column_optional_integer(row: &rusqlite::Row<'_>, idx: usize) -> (value: Result<
    Option<i64>,
    rusqlite::Error,
>)
    ensures
        match optional_integer_in(cell_at(cells(*row), idx)) {
            Some(v) => value == Ok::<Option<i64>, rusqlite::Error>(v),
            None => value is Err,
        },
{
    row.get_ref(idx)?.as_i64_or_null().map_err(rusqlite::Error::from)
}

/// `rusqlite::Row::get_ref`, then `ValueRef::as_blob_or_null`, its error
/// turned into the store's by `From`: `None` for a null, else a copy of the
/// byte string that the column holds.  A column that is out of range or
/// holds anything else gives an error.
#[verifier::external_body]
pub(crate) fn column_optional_bytes(row: &rusqlite::Row<'_>, idx: usize) -> (value: Result<
    Option<Vec<u8>>,
    rusqlite::Error,
>)
    ensures
        match optional_bytes_in(cell_at(cells(*row), idx)) {
            Some(Some(b)) => value matches Ok(Some(v)) && v@ == b,
            Some(None) => value matches Ok(None),
            None => value is Err,
        },
{
    let bytes = row.get_ref(idx)?.as_blob_or_null().map_err(rusqlite::Error::from)?;
    Ok(bytes.map(<[u8]>::to_vec))
}

} // verus!
