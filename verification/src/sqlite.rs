//! The rusqlite calls the library makes. A database lives in a file that
//! other processes may change at any time, so no call here promises what it
//! reads or whether it succeeds. Each call does record, through a relation
//! that has no other axiom, which request it ran and which outcome came back
//! (a success with its value, or a failure): so callers can state exactly
//! what they hand to SQLite and how they use what it answers.

use rusqlite::types::ToSql;
use rusqlite::{Connection, OptionalExtension, Row, Statement};
use vstd::prelude::*;

use crate::operation::{image_view, images_view, row_to_image, texts_view, Image};

verus! {

#[verifier::external_type_specification]
#[verifier::external_body]
pub struct ExConnection(rusqlite::Connection);

#[verifier::external_type_specification]
#[verifier::external_body]
pub struct ExSqliteError(rusqlite::Error);

#[verifier::external_type_specification]
#[verifier::external_body]
pub struct ExStatement<'conn>(rusqlite::Statement<'conn>);

#[verifier::external_type_specification]
#[verifier::external_body]
pub struct ExRow<'stmt>(rusqlite::Row<'stmt>);

/// The database file at `path` was opened (`ok`) or failed to open.
pub uninterp spec fn sqlite_opened(path: Seq<char>, ok: bool) -> bool;

/// The batch `sql` was run, to its end (`ok`) or to a failure.
pub uninterp spec fn sqlite_batch_ran(sql: Seq<char>, ok: bool) -> bool;

/// The statement `sql`, with the texts and then the integers bound to its
/// positional parameters, was run and changed `changed` rows (none: failed).
pub uninterp spec fn sqlite_executed(
    sql: Seq<char>,
    texts: Seq<Seq<char>>,
    ints: Seq<i64>,
    changed: Option<usize>,
) -> bool;


/// The parameterless query `sql` was run and column 0 of its first row read
/// as `value` (none: failed).
pub uninterp spec fn sqlite_counted(sql: Seq<char>, value: Option<i64>) -> bool;

/// The statement `sql` was prepared (`ok`) or failed to prepare.
pub uninterp spec fn sqlite_prepared(sql: Seq<char>, ok: bool) -> bool;

/// A statement prepared from `sql` was run with the texts and then the
/// integers bound, to success (`ok`) or failure.
pub uninterp spec fn sqlite_statement_executed(
    sql: Seq<char>,
    texts: Seq<Seq<char>>,
    ints: Seq<i64>,
    ok: bool,
) -> bool;

/// A statement prepared from `sql` was run as an insert with the texts and
/// then the integers bound, inserting exactly one row whose rowid is
/// `rowid` (none: it failed).
pub uninterp spec fn sqlite_inserted(
    sql: Seq<char>,
    texts: Seq<Seq<char>>,
    ints: Seq<i64>,
    rowid: Option<i64>,
) -> bool;

/// Column `idx` of a row was read as an integer: `value` (none: failed).
pub uninterp spec fn sqlite_column_i64(idx: usize, value: Option<i64>) -> bool;

/// Column `idx` of a row was read as text: `value` (none: failed).
pub uninterp spec fn sqlite_column_text(idx: usize, value: Option<Seq<char>>) -> bool;

/// A query prepared from `sql`, with the texts and then the integers bound,
/// was run and its first row read as an image: `Some(None)` when there was
/// no row, none on failure.
pub uninterp spec fn sqlite_statement_first_image(
    sql: Seq<char>,
    texts: Seq<Seq<char>>,
    ints: Seq<i64>,
    outcome: Option<Option<(i64, Seq<char>, Seq<char>)>>,
) -> bool;

/// A query prepared from `sql`, with the integers bound, was run and all
/// its rows read as images, in the order SQLite gave them (none on failure).
pub uninterp spec fn sqlite_statement_images(
    sql: Seq<char>,
    ints: Seq<i64>,
    outcome: Option<Seq<(i64, Seq<char>, Seq<char>)>>,
) -> bool;

/// A statement prepared by [`connection_prepare`], with the SQL it was
/// prepared from. Only `connection_prepare` builds one, so the SQL is always
/// the statement's own.
pub struct PreparedStatement<'c> {
    stmt: Statement<'c>,
    sql: String,
}

impl<'c> PreparedStatement<'c> {
    /// The SQL this statement was prepared from.
    pub closed spec fn sql(&self) -> Seq<char> {
        self.sql@
    }
}

/// `Connection::open`: opens, creating it if needed, the database file at
/// `path`. Claimed: only that this was the request and whether it succeeded.
#[verifier::external_body]
pub(crate) fn connection_open(path: &str) -> (r: Result<Connection, rusqlite::Error>)
    ensures
        sqlite_opened(path@, r is Ok),
{
    Connection::open(path)
}

/// `Connection::execute_batch`: runs the `;`-separated statements of `sql`.
/// Claimed: only the request and whether it succeeded.
#[verifier::external_body]
pub(crate) fn connection_execute_batch(conn: &Connection, sql: &str) -> (r: Result<(), rusqlite::Error>)
    ensures
        sqlite_batch_ran(sql@, r is Ok),
{
    conn.execute_batch(sql)
}

/// `Connection::execute`: runs one statement with positional parameters,
/// first the texts (`?1`, `?2`, ...) then the integers, and gives the number
/// of changed rows. Claimed: only the request and the outcome it gave.
#[verifier::external_body]
pub(crate) fn connection_execute(
    conn: &Connection,
    sql: &str,
    texts: &[String],
    ints: &[i64],
) -> (r: Result<usize, rusqlite::Error>)
    ensures
        sqlite_executed(
            sql@,
            texts_view(texts@),
            ints@,
            match r {
                Ok(n) => Some(n),
                Err(_) => None,
            },
        ),
{
    let params: Vec<&dyn ToSql> = texts.iter().map(|t| t as &dyn ToSql).chain(
        ints.iter().map(|i| i as &dyn ToSql),
    ).collect();
    conn.execute(sql, params.as_slice())
}

/// `Connection::query_row` with no parameters, reading column 0 of the first
/// row as an integer. Claimed: only the request and the outcome it gave.
#[verifier::external_body]
pub(crate) fn connection_query_row_i64(conn: &Connection, sql: &str) -> (r: Result<i64, rusqlite::Error>)
    ensures
        sqlite_counted(
            sql@,
            match r {
                Ok(n) => Some(n),
                Err(_) => None,
            },
        ),
{
    conn.query_row(sql, [], |row| row.get(0))
}

/// `Connection::prepare`: compiles one statement, kept with the SQL it came
/// from. Claimed: only the request and whether it succeeded.
#[verifier::external_body]
pub(crate) fn connection_prepare<'c>(conn: &'c Connection, sql: &str) -> (r: Result<
    PreparedStatement<'c>,
    rusqlite::Error,
>)
    ensures
        sqlite_prepared(sql@, r is Ok),
        r matches Ok(p) ==> p.sql() == sql@,
{
    Ok(PreparedStatement { stmt: conn.prepare(sql)?, sql: sql.to_string() })
}

/// `Statement::execute`: binds the texts then the integers as positional
/// parameters and runs the statement. Claimed: only the statement's SQL, the
/// bound values and whether it succeeded.
#[verifier::external_body]
pub(crate) fn statement_execute(
    p: &mut PreparedStatement<'_>,
    texts: &[String],
    ints: &[i64],
) -> (r: Result<usize, rusqlite::Error>)
    ensures
        final(p).sql() == old(p).sql(),
        sqlite_statement_executed(old(p).sql(), texts_view(texts@), ints@, r is Ok),
{
    let params: Vec<&dyn ToSql> = texts.iter().map(|t| t as &dyn ToSql).chain(
        ints.iter().map(|i| i as &dyn ToSql),
    ).collect();
    p.stmt.execute(params.as_slice())
}

/// `Statement::insert`: binds the texts then the integers, runs the
/// statement, and gives the rowid of the row it inserted (an error unless
/// exactly one row was inserted). Claimed: only the statement's SQL, the
/// bound values and the outcome.
#[verifier::external_body]
pub(crate) fn statement_insert(
    p: &mut PreparedStatement<'_>,
    texts: &[String],
    ints: &[i64],
) -> (r: Result<i64, rusqlite::Error>)
    ensures
        final(p).sql() == old(p).sql(),
        sqlite_inserted(
            old(p).sql(),
            texts_view(texts@),
            ints@,
            match r {
                Ok(id) => Some(id),
                Err(_) => None,
            },
        ),
{
    let params: Vec<&dyn ToSql> = texts.iter().map(|t| t as &dyn ToSql).chain(
        ints.iter().map(|i| i as &dyn ToSql),
    ).collect();
    p.stmt.insert(params.as_slice())
}

/// `Row::get` of an integer column. Claimed: only the column and the outcome.
#[verifier::external_body]
pub(crate) fn row_get_i64(row: &Row<'_>, idx: usize) -> (r: Result<i64, rusqlite::Error>)
    ensures
        sqlite_column_i64(
            idx,
            match r {
                Ok(v) => Some(v),
                Err(_) => None,
            },
        ),
{
    row.get(idx)
}

/// `Row::get` of a text column. Claimed: only the column and the outcome.
#[verifier::external_body]
pub(crate) fn row_get_string(row: &Row<'_>, idx: usize) -> (r: Result<String, rusqlite::Error>)
    ensures
        sqlite_column_text(
            idx,
            match r {
                Ok(v) => Some(v@),
                Err(_) => None,
            },
        ),
{
    row.get(idx)
}

/// `Statement::query_row` with the texts then the integers bound, reading
/// the first row by [`row_to_image`], and `optional()`, which turns "no row"
/// into `None`. Claimed: only the statement's SQL, the bound values and the outcome it gave.
#[verifier::external_body]
pub(crate) fn statement_query_first_image(
    p: &mut PreparedStatement<'_>,
    texts: &[String],
    ints: &[i64],
) -> (r: Result<Option<Image>, rusqlite::Error>)
    ensures
        final(p).sql() == old(p).sql(),
        sqlite_statement_first_image(
            old(p).sql(),
            texts_view(texts@),
            ints@,
            match r {
                Ok(Some(i)) => Some(Some(image_view(i))),
                Ok(None) => Some(None),
                Err(_) => None,
            },
        ),
{
    let params: Vec<&dyn ToSql> = texts.iter().map(|t| t as &dyn ToSql).chain(
        ints.iter().map(|i| i as &dyn ToSql),
    ).collect();
    p.stmt.query_row(params.as_slice(), |row| row_to_image(row)).optional()
}

/// `Statement::query_map` with the integers bound, each row read by
/// [`row_to_image`], collected up to the first error. Claimed: only the bound
/// values and the outcome it gave.
#[verifier::external_body]
pub(crate) fn statement_query_images(p: &mut PreparedStatement<'_>, ints: &[i64]) -> (r: Result<
    Vec<Image>,
    rusqlite::Error,
>)
    ensures
        final(p).sql() == old(p).sql(),
        sqlite_statement_images(
            old(p).sql(),
            ints@,
            match r {
                Ok(v) => Some(images_view(v@)),
                Err(_) => None,
            },
        ),
{
    let params: Vec<&dyn ToSql> = ints.iter().map(|i| i as &dyn ToSql).collect();
    p.stmt.query_map(params.as_slice(), |row| row_to_image(row))?.collect()
}

} // verus!
