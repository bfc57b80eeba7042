//! Rows of the images table and the operations that read and change it.

use rusqlite::Row;
use vstd::prelude::*;
use vstd::string::*;

use crate::connection::{Database, SQL_COUNT_IMAGES};
use crate::error::{from_sqlite, DbError};
use crate::sqlite::{
    connection_execute, connection_prepare, connection_query_row_i64, row_get_i64,
    row_get_string, sqlite_column_i64, sqlite_column_text, sqlite_counted, sqlite_executed,
    sqlite_inserted, sqlite_prepared, sqlite_statement_executed, sqlite_statement_first_image,
    sqlite_statement_images, statement_execute, statement_insert, statement_query_first_image,
    statement_query_images,
};

verus! {

/// One row of the `images` table.
#[derive(Debug, Clone)]
pub struct Image {
    pub id: i64,
    pub path: String,
    pub filename: String,
}

/// A new image to insert; the id is chosen by the database.
#[derive(Debug, Clone)]
pub struct InsertImage {
    pub path: String,
    pub filename: String,
}

/// A partial update: only the fields that are set are written.
#[derive(Debug, Clone, Default)]
pub struct UpdateImage {
    pub path: Option<String>,
    pub filename: Option<String>,
}

/// Pagination for listing images.
#[derive(Debug, Clone, Copy, Default)]
pub struct ListOptions {
    pub limit: u32,
    pub offset: u32,
}

pub const SQL_INSERT: &'static str = "INSERT INTO images (path, filename) VALUES (?1, ?2)";

pub const SQL_SELECT_BY_ID: &'static str = "SELECT id, path, filename FROM images WHERE id = ?1";

pub const SQL_SELECT_BY_PATH: &'static str = "SELECT id, path, filename FROM images WHERE path = ?1";

pub const SQL_SELECT_BY_FILENAME: &'static str =
    "SELECT id, path, filename FROM images WHERE filename = ?1";

pub const SQL_UPDATE_PATH_AND_FILENAME: &'static str =
    "UPDATE images SET path = ?1, filename = ?2 WHERE id = ?3";

pub const SQL_UPDATE_PATH: &'static str = "UPDATE images SET path = ?1 WHERE id = ?2";

pub const SQL_UPDATE_FILENAME: &'static str = "UPDATE images SET filename = ?1 WHERE id = ?2";

pub const SQL_DELETE: &'static str = "DELETE FROM images WHERE id = ?1";

pub const SQL_LIST: &'static str = "SELECT id, path, filename FROM images ORDER BY id LIMIT ?1 OFFSET ?2";

pub const SQL_UPSERT: &'static str = "INSERT OR REPLACE INTO images (path, filename) VALUES (?1, ?2)";

pub const SQL_BULK_DELETE_PREFIX: &'static str = "DELETE FROM images WHERE id IN (";

/// Largest number of rows one `list` call returns.
pub const MAX_LIST_LIMIT: u32 = 1000;

/// A statement with its positional parameters: the texts bind to `?1`,
/// `?2`, ... and the integers follow them.
pub struct SqlRequest {
    pub sql: &'static str,
    pub texts: Vec<String>,
    pub ints: Vec<i64>,
}

/// The statement that `update` runs for a partial update, if any.
pub fn update_request(id: i64, row: &UpdateImage) -> (r: Option<SqlRequest>)
    ensures
        match (row.path, row.filename) {
            (Some(p), Some(f)) => r matches Some(q) && q.sql == SQL_UPDATE_PATH_AND_FILENAME
                && q.texts@ == seq![p, f] && q.ints@ == seq![id],
            (Some(p), None) => r matches Some(q) && q.sql == SQL_UPDATE_PATH && q.texts@ == seq![p]
                && q.ints@ == seq![id],
            (None, Some(f)) => r matches Some(q) && q.sql == SQL_UPDATE_FILENAME && q.texts@ == seq![
                f,
            ] && q.ints@ == seq![id],
            (None, None) => r is None,
        },
        row.path is Some && row.filename is Some ==> r is Some && r->0.sql@
            == "UPDATE images SET path = ?1, filename = ?2 WHERE id = ?3"@,
        row.path is Some && row.filename is None ==> r is Some && r->0.sql@
            == "UPDATE images SET path = ?1 WHERE id = ?2"@,
        row.path is None && row.filename is Some ==> r is Some && r->0.sql@
            == "UPDATE images SET filename = ?1 WHERE id = ?2"@,
{
    match (&row.path, &row.filename) {
        (Some(p), Some(f)) => Some(
            SqlRequest {
                sql: SQL_UPDATE_PATH_AND_FILENAME,
                texts: vec![p.clone(), f.clone()],
                ints: vec![id],
            },
        ),
        (Some(p), None) => Some(
            SqlRequest { sql: SQL_UPDATE_PATH, texts: vec![p.clone()], ints: vec![id] },
        ),
        (None, Some(f)) => Some(
            SqlRequest { sql: SQL_UPDATE_FILENAME, texts: vec![f.clone()], ints: vec![id] },
        ),
        (None, None) => None,
    }
}

/// The row limit that `list` uses: `limit` clamped to `1..=1000`.
pub open spec fn effective_limit_spec(limit: u32) -> u32 {
    if limit < 1 {
        1
    } else if limit > MAX_LIST_LIMIT {
        MAX_LIST_LIMIT
    } else {
        limit
    }
}

/// `limit.max(1).min(1000)`.
pub fn effective_limit(limit: u32) -> (r: u32)
    ensures
        r == effective_limit_spec(limit),
        1 <= r <= MAX_LIST_LIMIT,
        limit == 0 ==> r == 1,
        1 <= limit <= 1000 ==> r == limit,
        limit > 1000 ==> r == 1000,
{
    let at_least_one: u32 = if limit < 1 {
        1
    } else {
        limit
    };
    if at_least_one > MAX_LIST_LIMIT {
        MAX_LIST_LIMIT
    } else {
        at_least_one
    }
}

/// A listing asks for the requested number of rows when it is between 1
/// and 1000, for one row when none is requested, and for 1000 rows when
/// more are.
pub proof fn law_effective_limit_clamps(limit: u32)
    ensures
        limit == 0 ==> effective_limit_spec(limit) == 1,
        1 <= limit <= 1000 ==> effective_limit_spec(limit) == limit,
        limit > 1000 ==> effective_limit_spec(limit) == 1000,
{
}

/// The decimal digits.
pub open spec fn digit_chars() -> Seq<char> {
    seq!['0', '1', '2', '3', '4', '5', '6', '7', '8', '9']
}

/// The decimal text of `n`, without leading zeros.
pub open spec fn decimal(n: nat) -> Seq<char>
    decreases n,
{
    if n < 10 {
        seq![digit_chars()[n as int]]
    } else {
        decimal(n / 10) + seq![digit_chars()[(n % 10) as int]]
    }
}

/// The number that a text of decimal digits spells, most significant digit
/// first (0 for the empty text).
pub open spec fn digits_value(s: Seq<char>) -> int
    decreases s.len(),
{
    if s.len() == 0 {
        0
    } else {
        digits_value(s.drop_last()) * 10 + (s.last() as int - '0' as int)
    }
}

proof fn lemma_digit_char(d: nat)
    requires
        d < 10,
    ensures
        digit_chars()[d as int] as int == '0' as int + d,
{
    if d == 0 {
        assert(digit_chars()[0] == '0');
    } else if d == 1 {
        assert(digit_chars()[1] == '1');
    } else if d == 2 {
        assert(digit_chars()[2] == '2');
    } else if d == 3 {
        assert(digit_chars()[3] == '3');
    } else if d == 4 {
        assert(digit_chars()[4] == '4');
    } else if d == 5 {
        assert(digit_chars()[5] == '5');
    } else if d == 6 {
        assert(digit_chars()[6] == '6');
    } else if d == 7 {
        assert(digit_chars()[7] == '7');
    } else if d == 8 {
        assert(digit_chars()[8] == '8');
    } else {
        assert(digit_chars()[9] == '9');
    }
}

/// `decimal(n)` is the base-ten text of `n`: it is not empty, all of it is
/// digits `0`..`9`, it reads back as `n`, and it has no leading zero.
pub proof fn law_decimal_is_base_ten(n: nat)
    ensures
        decimal(n).len() > 0,
        forall|i: int|
            0 <= i < decimal(n).len() ==> '0' as int <= #[trigger] decimal(n)[i] as int <= '9' as int,
        digits_value(decimal(n)) == n,
        n > 0 ==> decimal(n)[0] != '0',
    decreases n,
{
    if n < 10 {
        lemma_digit_char(n);
        let s = decimal(n);
        assert(s.drop_last() =~= Seq::<char>::empty());
        assert(digits_value(s.drop_last()) == 0);
    } else {
        let q: nat = n / 10;
        let d: nat = n % 10;
        law_decimal_is_base_ten(q);
        lemma_digit_char(d);
        let s = decimal(n);
        assert(s == decimal(q) + seq![digit_chars()[d as int]]);
        assert(s.drop_last() =~= decimal(q));
        assert(s.last() == digit_chars()[d as int]);
        assert(digits_value(s) == digits_value(decimal(q)) * 10 + d);
        assert(q * 10 + d == n);
        assert forall|i: int| 0 <= i < s.len() implies '0' as int <= #[trigger] s[i] as int <= '9' as int by {
            if i < decimal(q).len() {
                assert(s[i] == decimal(q)[i]);
            }
        }
        assert(s[0] == decimal(q)[0]);
    }
}

/// The placeholder `?i`.
pub open spec fn placeholder(i: nat) -> Seq<char> {
    seq!['?'] + decimal(i)
}

/// `?1, ?2, ..., ?k`.
pub open spec fn placeholder_list(k: nat) -> Seq<char>
    decreases k,
{
    if k == 0 {
        seq![]
    } else if k == 1 {
        placeholder(1)
    } else {
        placeholder_list((k - 1) as nat) + seq![',', ' '] + placeholder(k)
    }
}

/// The placeholders of a bulk delete number the ids from 1 in order: one id
/// gives `?1`, and each further id appends `, ?` and its position in base
/// ten.
pub proof fn law_placeholders_number_ids(k: nat)
    ensures
        placeholder_list(0) == Seq::<char>::empty(),
        placeholder_list(1) == "?1"@,
        k >= 1 ==> placeholder_list(k + 1) == placeholder_list(k) + ", ?"@ + decimal(k + 1),
{
    reveal_strlit("?1");
    reveal_strlit(", ?");
    assert(decimal(1) =~= seq!['1']);
    assert(placeholder_list(1) =~= "?1"@);
    if k >= 1 {
        assert(placeholder_list(k + 1) == placeholder_list(k) + seq![',', ' '] + placeholder(k + 1));
        assert(placeholder_list(k) + seq![',', ' '] + placeholder(k + 1) =~= placeholder_list(k)
            + ", ?"@ + decimal(k + 1));
    }
}

/// The statement that deletes the rows whose ids are bound to `?1..?k`.
pub open spec fn bulk_delete_sql_spec(k: nat) -> Seq<char> {
    SQL_BULK_DELETE_PREFIX@ + placeholder_list(k) + seq![')']
}

fn digit_str(d: usize) -> (r: &'static str)
    requires
        d < 10,
    ensures
        r@ == seq![digit_chars()[d as int]],
{
    proof {
        reveal_strlit("0");
        reveal_strlit("1");
        reveal_strlit("2");
        reveal_strlit("3");
        reveal_strlit("4");
        reveal_strlit("5");
        reveal_strlit("6");
        reveal_strlit("7");
        reveal_strlit("8");
        reveal_strlit("9");
    }
    match d {
        0 => "0",
        1 => "1",
        2 => "2",
        3 => "3",
        4 => "4",
        5 => "5",
        6 => "6",
        7 => "7",
        8 => "8",
        _ => "9",
    }
}

/// Appends the decimal text of `n`.
pub fn append_decimal(s: &mut String, n: usize)
    ensures
        final(s)@ == old(s)@ + decimal(n as nat),
    decreases n,
{
    if n >= 10 {
        append_decimal(s, n / 10);
    }
    s.append(digit_str(n % 10));
    proof {
        if n >= 10 {
            assert(decimal(n as nat) == decimal((n / 10) as nat) + seq![digit_chars()[(n % 10) as int]]);
        }
    }
}

/// The statement `bulk_delete` runs for `k` ids:
/// `DELETE FROM images WHERE id IN (?1, ?2, ..., ?k)`.
pub fn bulk_delete_sql(k: usize) -> (r: String)
    ensures
        r@ == bulk_delete_sql_spec(k as nat),
        r@ == "DELETE FROM images WHERE id IN ("@ + placeholder_list(k as nat) + ")"@,
{
    let mut s = SQL_BULK_DELETE_PREFIX.to_owned();
    let mut i: usize = 0;
    proof {
        reveal_strlit(", ");
        reveal_strlit("?");
        reveal_strlit(")");
    }
    assert(s@ =~= SQL_BULK_DELETE_PREFIX@ + placeholder_list(0));
    while i < k
        invariant
            i <= k,
            s@ == SQL_BULK_DELETE_PREFIX@ + placeholder_list(i as nat),
        decreases k - i,
    {
        proof {
            reveal_strlit(", ");
            reveal_strlit("?");
        }
        if i > 0 {
            s.append(", ");
        }
        s.append("?");
        append_decimal(&mut s, i + 1);
        proof {
            if i == 0 {
                assert(s@ =~= SQL_BULK_DELETE_PREFIX@ + placeholder_list(1));
            } else {
                assert(placeholder_list((i + 1) as nat) == placeholder_list(i as nat) + seq![',', ' ']
                    + placeholder((i + 1) as nat));
                assert(s@ =~= SQL_BULK_DELETE_PREFIX@ + placeholder_list((i + 1) as nat));
            }
        }
        i = i + 1;
    }
    s.append(")");
    assert(s@ =~= bulk_delete_sql_spec(k as nat));
    s
}

/// The values of an image row: id, path, file name.
pub open spec fn image_view(i: Image) -> (i64, Seq<char>, Seq<char>) {
    (i.id, i.path@, i.filename@)
}

/// The values of a sequence of image rows, in order.
pub open spec fn images_view(v: Seq<Image>) -> Seq<(i64, Seq<char>, Seq<char>)> {
    v.map_values(|i: Image| image_view(i))
}

/// The texts of a sequence of strings.
pub open spec fn texts_view(t: Seq<String>) -> Seq<Seq<char>> {
    t.map_values(|s: String| s@)
}

/// The texts bound when an image is inserted: its path, then its file name.
pub open spec fn insert_texts(row: InsertImage) -> Seq<Seq<char>> {
    seq![row.path@, row.filename@]
}

/// The request a [`SqlRequest`] stands for: statement, texts, integers.
pub open spec fn request_view(q: SqlRequest) -> (Seq<char>, Seq<Seq<char>>, Seq<i64>) {
    (q.sql@, texts_view(q.texts@), q.ints@)
}

/// The request `update` runs for a partial update, if any.
pub open spec fn update_request_view(id: i64, row: UpdateImage) -> Option<
    (Seq<char>, Seq<Seq<char>>, Seq<i64>),
> {
    match (row.path, row.filename) {
        (Some(p), Some(f)) => Some((SQL_UPDATE_PATH_AND_FILENAME@, seq![p@, f@], seq![id])),
        (Some(p), None) => Some((SQL_UPDATE_PATH@, seq![p@], seq![id])),
        (None, Some(f)) => Some((SQL_UPDATE_FILENAME@, seq![f@], seq![id])),
        (None, None) => None,
    }
}

/// The integers `list` binds: the clamped limit, then the offset.
pub open spec fn list_ints(limit: u32, offset: u32) -> Seq<i64> {
    seq![effective_limit_spec(limit) as i64, offset as i64]
}

/// The outcome of an image lookup: the row's values, `Some(None)` for no
/// row, none for a failure.
pub open spec fn first_image_outcome(r: Result<Option<Image>, DbError>) -> Option<
    Option<(i64, Seq<char>, Seq<char>)>,
> {
    match r {
        Ok(Some(i)) => Some(Some(image_view(i))),
        Ok(None) => Some(None),
        Err(_) => None,
    }
}

/// The outcome of a listing: the rows' values in order, none for a failure.
pub open spec fn images_outcome(r: Result<Vec<Image>, DbError>) -> Option<Seq<(i64, Seq<char>, Seq<char>)>> {
    match r {
        Ok(v) => Some(images_view(v@)),
        Err(_) => None,
    }
}

/// The lookup `sql` with these bound values answered `outcome`: either the
/// statement failed to prepare (and the lookup failed), or it was prepared
/// and its run gave `outcome`.
pub open spec fn first_image_answered(
    sql: Seq<char>,
    texts: Seq<Seq<char>>,
    ints: Seq<i64>,
    outcome: Option<Option<(i64, Seq<char>, Seq<char>)>>,
) -> bool {
    ||| sqlite_prepared(sql, false) && outcome is None
    ||| sqlite_prepared(sql, true) && sqlite_statement_first_image(sql, texts, ints, outcome)
}

/// The listing statement with `limit` (clamped) and `offset` bound answered
/// `outcome`.
pub open spec fn listed(limit: u32, offset: u32, outcome: Option<Seq<(i64, Seq<char>, Seq<char>)>>) -> bool {
    ||| sqlite_prepared(SQL_LIST@, false) && outcome is None
    ||| sqlite_prepared(SQL_LIST@, true) && sqlite_statement_images(
        SQL_LIST@,
        list_ints(limit, offset),
        outcome,
    )
}

/// The insert `sql` with these bound values answered `rowid`: either it
/// failed to prepare (and the insert failed), or it was prepared and running
/// it inserted one row with that rowid (none: it failed).
pub open spec fn insert_answered(sql: Seq<char>, texts: Seq<Seq<char>>, ints: Seq<i64>, rowid: Option<i64>) -> bool {
    ||| sqlite_prepared(sql, false) && rowid is None
    ||| sqlite_prepared(sql, true) && sqlite_inserted(sql, texts, ints, rowid)
}

/// The outcome of an insert: the new rowid, or none for a failure.
pub open spec fn rowid_outcome(r: Result<i64, DbError>) -> Option<i64> {
    match r {
        Ok(id) => Some(id),
        Err(_) => None,
    }
}

/// The statement `sql` with these bound values was run: the result is an
/// error when it failed, and success when it changed some number of rows.
pub open spec fn ran<T>(sql: Seq<char>, texts: Seq<Seq<char>>, ints: Seq<i64>, r: Result<T, DbError>) -> bool {
    &&& r is Err ==> sqlite_executed(sql, texts, ints, None)
    &&& r is Ok ==> exists|n: usize| #[trigger] sqlite_executed(sql, texts, ints, Some(n))
}

/// The request `insert` (and, per row, `bulk_insert`) runs.
pub fn insert_request(row: &InsertImage) -> (q: SqlRequest)
    ensures
        q.sql == SQL_INSERT,
        q.sql@ == "INSERT INTO images (path, filename) VALUES (?1, ?2)"@,
        q.texts@ == seq![row.path, row.filename],
        q.ints@ == Seq::<i64>::empty(),
        request_view(q) == (SQL_INSERT@, insert_texts(*row), Seq::<i64>::empty()),
{
    let q = SqlRequest {
        sql: SQL_INSERT,
        texts: vec![row.path.clone(), row.filename.clone()],
        ints: Vec::new(),
    };
    assert(texts_view(q.texts@) =~= insert_texts(*row));
    q
}

/// The request `upsert` runs.
pub fn upsert_request(row: &InsertImage) -> (q: SqlRequest)
    ensures
        q.sql == SQL_UPSERT,
        q.sql@ == "INSERT OR REPLACE INTO images (path, filename) VALUES (?1, ?2)"@,
        q.texts@ == seq![row.path, row.filename],
        q.ints@ == Seq::<i64>::empty(),
        request_view(q) == (SQL_UPSERT@, insert_texts(*row), Seq::<i64>::empty()),
{
    let q = SqlRequest {
        sql: SQL_UPSERT,
        texts: vec![row.path.clone(), row.filename.clone()],
        ints: Vec::new(),
    };
    assert(texts_view(q.texts@) =~= insert_texts(*row));
    q
}

/// The lookup `get_by_id` runs.
pub fn select_by_id_request(id: i64) -> (q: SqlRequest)
    ensures
        q.sql == SQL_SELECT_BY_ID,
        q.sql@ == "SELECT id, path, filename FROM images WHERE id = ?1"@,
        q.texts@ == Seq::<String>::empty(),
        q.ints@ == seq![id],
        request_view(q) == (SQL_SELECT_BY_ID@, Seq::<Seq<char>>::empty(), seq![id]),
{
    let q = SqlRequest { sql: SQL_SELECT_BY_ID, texts: Vec::new(), ints: vec![id] };
    assert(texts_view(q.texts@) =~= Seq::<Seq<char>>::empty());
    q
}

/// The lookup `get_by_path` runs.
pub fn select_by_path_request(path: &String) -> (q: SqlRequest)
    ensures
        q.sql == SQL_SELECT_BY_PATH,
        q.sql@ == "SELECT id, path, filename FROM images WHERE path = ?1"@,
        q.texts@ == seq![*path],
        q.ints@ == Seq::<i64>::empty(),
        request_view(q) == (SQL_SELECT_BY_PATH@, seq![path@], Seq::<i64>::empty()),
{
    let q = SqlRequest { sql: SQL_SELECT_BY_PATH, texts: vec![path.clone()], ints: Vec::new() };
    assert(texts_view(q.texts@) =~= seq![path@]);
    q
}

/// The lookup `get_by_filename` runs.
pub fn select_by_filename_request(filename: &str) -> (q: SqlRequest)
    ensures
        q.sql == SQL_SELECT_BY_FILENAME,
        q.sql@ == "SELECT id, path, filename FROM images WHERE filename = ?1"@,
        q.texts@.len() == 1 && q.texts@[0]@ == filename@,
        q.ints@ == Seq::<i64>::empty(),
        request_view(q) == (SQL_SELECT_BY_FILENAME@, seq![filename@], Seq::<i64>::empty()),
{
    let q = SqlRequest {
        sql: SQL_SELECT_BY_FILENAME,
        texts: vec![filename.to_owned()],
        ints: Vec::new(),
    };
    assert(texts_view(q.texts@) =~= seq![filename@]);
    q
}

/// The statement `delete` runs.
pub fn delete_request(id: i64) -> (q: SqlRequest)
    ensures
        q.sql == SQL_DELETE,
        q.sql@ == "DELETE FROM images WHERE id = ?1"@,
        q.texts@ == Seq::<String>::empty(),
        q.ints@ == seq![id],
        request_view(q) == (SQL_DELETE@, Seq::<Seq<char>>::empty(), seq![id]),
{
    let q = SqlRequest { sql: SQL_DELETE, texts: Vec::new(), ints: vec![id] };
    assert(texts_view(q.texts@) =~= Seq::<Seq<char>>::empty());
    q
}

/// The listing `list` runs: the clamped limit, then the offset.
pub fn list_request(opts: &ListOptions) -> (q: SqlRequest)
    ensures
        q.sql == SQL_LIST,
        q.sql@ == "SELECT id, path, filename FROM images ORDER BY id LIMIT ?1 OFFSET ?2"@,
        q.texts@ == Seq::<String>::empty(),
        q.ints@ == list_ints(opts.limit, opts.offset),
        q.ints@ == seq![effective_limit_spec(opts.limit) as i64, opts.offset as i64],
{
    let limit: u32 = effective_limit(opts.limit);
    let q = SqlRequest {
        sql: SQL_LIST,
        texts: Vec::new(),
        ints: vec![limit as i64, opts.offset as i64],
    };
    assert(q.ints@ =~= list_ints(opts.limit, opts.offset));
    q
}

/// Reads an [`Image`] from the columns `id, path, filename` of a row: the id
/// from column 0, the path from column 1, the file name from column 2,
/// stopping at the first column that cannot be read.
pub fn row_to_image(row: &Row<'_>) -> (r: Result<Image, rusqlite::Error>)
    ensures
        r matches Ok(img) ==> sqlite_column_i64(0, Some(img.id)) && sqlite_column_text(
            1,
            Some(img.path@),
        ) && sqlite_column_text(2, Some(img.filename@)),
        r is Err ==> sqlite_column_i64(0, None) || sqlite_column_text(1, None) || sqlite_column_text(
            2,
            None,
        ),
{
    let id: i64 = row_get_i64(row, 0)?;
    let path = row_get_string(row, 1)?;
    let filename = row_get_string(row, 2)?;
    Ok(Image { id, path, filename })
}

/// The image count as `total_images` and `count` give it: SQLite's count,
/// cast to `u64`.
pub fn count_as_u64(count: i64) -> (r: u64)
    ensures
        r == count as u64,
{
    count as u64
}

/// Whether a delete removed anything, from the number of changed rows.
pub fn deleted_any(changed: usize) -> (r: bool)
    ensures
        r == (changed > 0),
{
    changed > 0
}

/// Prepares a lookup and reads its first row, if any, as an [`Image`].
fn query_first_image(conn: &rusqlite::Connection, q: &SqlRequest) -> (r: Result<Option<Image>, DbError>)
    ensures
        first_image_answered(q.sql@, texts_view(q.texts@), q.ints@, first_image_outcome(r)),
{
    let mut stmt = match connection_prepare(conn, q.sql) {
        Ok(s) => s,
        Err(e) => {
            return Err(DbError::Sqlite(e));
        },
    };
    from_sqlite(statement_query_first_image(&mut stmt, q.texts.as_slice(), q.ints.as_slice()))
}

/// Runs a statement and gives the number of changed rows.
fn run_request(conn: &rusqlite::Connection, q: &SqlRequest) -> (r: Result<usize, DbError>)
    ensures
        sqlite_executed(
            q.sql@,
            texts_view(q.texts@),
            q.ints@,
            match r {
                Ok(n) => Some(n),
                Err(_) => None,
            },
        ),
{
    from_sqlite(connection_execute(conn, q.sql, q.texts.as_slice(), q.ints.as_slice()))
}

/// Handle for running CRUD and query operations against the gallery database.
pub struct DatabaseOperations<'a> {
    db: &'a Database,
}

impl<'a> DatabaseOperations<'a> {
    /// The database these operations run against.
    pub closed spec fn database(&self) -> &'a Database {
        self.db
    }

    pub fn new(db: &'a Database) -> (r: Self)
        ensures
            r.database() == db,
    {
        Self { db }
    }

    /// Number of rows in the images table: SQLite's `COUNT(*)`, as `u64`.
    pub fn total_images(&self) -> (r: Result<u64, DbError>)
        ensures
            r is Err ==> sqlite_counted(SQL_COUNT_IMAGES@, None),
            r matches Ok(c) ==> exists|n: i64| #[trigger] sqlite_counted(SQL_COUNT_IMAGES@, Some(n)) && c == n as u64,
    {
        let conn = self.db.get_conn();
        let count: i64 = from_sqlite(connection_query_row_i64(conn, SQL_COUNT_IMAGES))?;
        Ok(count_as_u64(count))
    }

    /// Inserts one image and returns the new row id: the insert binds the
    /// path then the file name, and the id is the rowid of the row that
    /// this insert added.
    pub fn insert(&self, row: &InsertImage) -> (r: Result<i64, DbError>)
        ensures
            insert_answered(SQL_INSERT@, insert_texts(*row), Seq::<i64>::empty(), rowid_outcome(r)),
    {
        let conn = self.db.get_conn();
        let q = insert_request(row);
        let mut stmt = match connection_prepare(conn, q.sql) {
            Ok(s) => s,
            Err(e) => {
                return Err(DbError::Sqlite(e));
            },
        };
        from_sqlite(statement_insert(&mut stmt, q.texts.as_slice(), q.ints.as_slice()))
    }

    /// The image with the given id, if there is one.
    pub fn get_by_id(&self, id: i64) -> (r: Result<Option<Image>, DbError>)
        ensures
            first_image_answered(SQL_SELECT_BY_ID@, Seq::<Seq<char>>::empty(), seq![id], first_image_outcome(r)),
    {
        let q = select_by_id_request(id);
        query_first_image(self.db.get_conn(), &q)
    }

    /// The image stored under the given path, if there is one.
    pub fn get_by_path(&self, path: &String) -> (r: Result<Option<Image>, DbError>)
        ensures
            first_image_answered(SQL_SELECT_BY_PATH@, seq![path@], Seq::<i64>::empty(), first_image_outcome(r)),
    {
        let q = select_by_path_request(path);
        query_first_image(self.db.get_conn(), &q)
    }

    /// The first image with the given file name, if there is one.
    pub fn get_by_filename(&self, filename: &str) -> (r: Result<Option<Image>, DbError>)
        ensures
            first_image_answered(
                SQL_SELECT_BY_FILENAME@,
                seq![filename@],
                Seq::<i64>::empty(),
                first_image_outcome(r),
            ),
    {
        let q = select_by_filename_request(filename);
        query_first_image(self.db.get_conn(), &q)
    }

    /// Updates the image with the given id; only the fields set in `row` are
    /// written (the statement of [`update_request`]), and nothing is run when
    /// none is set.
    pub fn update(&self, id: i64, row: &UpdateImage) -> (r: Result<(), DbError>)
        ensures
            match update_request_view(id, *row) {
                None => r is Ok,
                Some((sql, texts, ints)) => ran(sql, texts, ints, r),
            },
    {
        match update_request(id, row) {
            Some(q) => {
                proof {
                    let (_, texts, _) = update_request_view(id, *row).unwrap();
                    assert(texts_view(q.texts@) =~= texts);
                }
                run_request(self.db.get_conn(), &q)?;
                Ok(())
            },
            None => Ok(()),
        }
    }

    /// Deletes the image with the given id; tells whether a row was deleted
    /// (the number of changed rows is positive).
    pub fn delete(&self, id: i64) -> (r: Result<bool, DbError>)
        ensures
            r is Err ==> sqlite_executed(SQL_DELETE@, Seq::<Seq<char>>::empty(), seq![id], None),
            r matches Ok(b) ==> exists|n: usize| #[trigger] sqlite_executed(SQL_DELETE@, Seq::<Seq<char>>::empty(), seq![id], Some(n)) && b == (n > 0),
    {
        let q = delete_request(id);
        let n: usize = run_request(self.db.get_conn(), &q)?;
        Ok(deleted_any(n))
    }

    /// Images ordered by id, `opts.offset` rows in, at most the limit of
    /// [`effective_limit`] of them: the listing statement with the clamped
    /// limit and the offset bound.
    pub fn list(&self, opts: &ListOptions) -> (r: Result<Vec<Image>, DbError>)
        ensures
            listed(opts.limit, opts.offset, images_outcome(r)),
            (sqlite_prepared(
                "SELECT id, path, filename FROM images ORDER BY id LIMIT ?1 OFFSET ?2"@,
                false,
            ) && r is Err) || (sqlite_prepared(
                "SELECT id, path, filename FROM images ORDER BY id LIMIT ?1 OFFSET ?2"@,
                true,
            ) && sqlite_statement_images(
                "SELECT id, path, filename FROM images ORDER BY id LIMIT ?1 OFFSET ?2"@,
                seq![effective_limit_spec(opts.limit) as i64, opts.offset as i64],
                images_outcome(r),
            )),
    {
        let conn = self.db.get_conn();
        let q = list_request(opts);
        let mut stmt = match connection_prepare(conn, q.sql) {
            Ok(s) => s,
            Err(e) => {
                return Err(DbError::Sqlite(e));
            },
        };
        from_sqlite(statement_query_images(&mut stmt, q.ints.as_slice()))
    }

    /// Total number of images (no filter): SQLite's `COUNT(*)`, as `u64`.
    pub fn count(&self) -> (r: Result<u64, DbError>)
        ensures
            r is Err ==> sqlite_counted(SQL_COUNT_IMAGES@, None),
            r matches Ok(c) ==> exists|n: i64| #[trigger] sqlite_counted(SQL_COUNT_IMAGES@, Some(n)) && c == n as u64,
    {
        let conn = self.db.get_conn();
        let count: i64 = from_sqlite(connection_query_row_i64(conn, SQL_COUNT_IMAGES))?;
        Ok(count_as_u64(count))
    }

    /// Prepares the insert once and runs it for each image in order,
    /// stopping at the first failure; on success the count is the number of
    /// images given and every one of them was inserted; on failure, the
    /// images before the failing one were inserted.
    pub fn bulk_insert(&self, rows: &[InsertImage]) -> (r: Result<usize, DbError>)
        ensures
            r matches Ok(n) ==> n == rows@.len() && sqlite_prepared(SQL_INSERT@, true) && forall|i: int|
                0 <= i < rows@.len() ==> #[trigger] sqlite_statement_executed(
                    SQL_INSERT@,
                    insert_texts(rows@[i]),
                    Seq::<i64>::empty(),
                    true,
                ),
            r is Err ==> sqlite_prepared(SQL_INSERT@, false) || (sqlite_prepared(SQL_INSERT@, true)
                && exists|k: int|
                0 <= k < rows@.len() && #[trigger] sqlite_statement_executed(
                    SQL_INSERT@,
                    insert_texts(rows@[k]),
                    Seq::<i64>::empty(),
                    false,
                ) && forall|i: int|
                    0 <= i < k ==> #[trigger] sqlite_statement_executed(
                        SQL_INSERT@,
                        insert_texts(rows@[i]),
                        Seq::<i64>::empty(),
                        true,
                    )),
    {
        let conn = self.db.get_conn();
        let mut stmt = match connection_prepare(conn, SQL_INSERT) {
            Ok(s) => s,
            Err(e) => {
                return Err(DbError::Sqlite(e));
            },
        };
        let mut n: usize = 0;
        while n < rows.len()
            invariant
                n <= rows@.len(),
                sqlite_prepared(SQL_INSERT@, true),
                stmt.sql() == SQL_INSERT@,
                forall|i: int|
                    0 <= i < n ==> #[trigger] sqlite_statement_executed(
                        SQL_INSERT@,
                        insert_texts(rows@[i]),
                        Seq::<i64>::empty(),
                        true,
                    ),
            decreases rows@.len() - n,
        {
            let q = insert_request(&rows[n]);
            match statement_execute(&mut stmt, q.texts.as_slice(), q.ints.as_slice()) {
                Ok(_) => {},
                Err(e) => {
                    return Err(DbError::Sqlite(e));
                },
            }
            n = n + 1;
        }
        Ok(n)
    }

    /// Inserts the image, or, when its path is already stored, replaces that
    /// row (`INSERT OR REPLACE`).
    pub fn upsert(&self, row: &InsertImage) -> (r: Result<(), DbError>)
        ensures
            ran(SQL_UPSERT@, insert_texts(*row), Seq::<i64>::empty(), r),
    {
        let q = upsert_request(row);
        run_request(self.db.get_conn(), &q)?;
        Ok(())
    }

    /// Deletes the images with the given ids in one statement
    /// ([`bulk_delete_sql`], the ids bound in order) and returns the number
    /// of deleted rows; no ids delete nothing and run nothing.
    pub fn bulk_delete(&self, ids: &[i64]) -> (r: Result<usize, DbError>)
        ensures
            ids@.len() == 0 ==> r == Ok::<usize, DbError>(0),
            ids@.len() > 0 ==> sqlite_executed(
                bulk_delete_sql_spec(ids@.len()),
                Seq::<Seq<char>>::empty(),
                ids@,
                match r {
                    Ok(n) => Some(n),
                    Err(_) => None,
                },
            ),
    {
        if ids.len() == 0 {
            return Ok(0);
        }
        let sql = bulk_delete_sql(ids.len());
        let texts: Vec<String> = Vec::new();
        assert(texts_view(texts@) =~= Seq::<Seq<char>>::empty());
        from_sqlite(connection_execute(self.db.get_conn(), sql.as_str(), texts.as_slice(), ids))
    }
}

} // verus!
