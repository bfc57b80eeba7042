//! The gallery database: where its file lives, opening it, and its schema.

use rusqlite::Connection;
use vstd::prelude::*;
use vstd::string::*;

use crate::error::{from_sqlite, DbError};
use crate::paths::{
    eq_ignore_ascii_case_spec, image_extensions, is_hidden_path_spec, is_image_path_spec,
    lemma_last_dot_at, is_plain_ascii_name, join_path, join_spec,
    law_file_name_of_join, path_extension_spec,
};
use vstd::utf8::*;
use crate::sqlite::{
    connection_execute_batch, connection_open, connection_query_row_i64, sqlite_batch_ran,
    sqlite_counted, sqlite_opened,
};

verus! {

/// Directory scanned when `HOME` is not set.
pub const DEFAULT_SCAN_DIR: &'static str = "/tmp";

/// Name of the directory, inside the scan directory, that holds the database.
pub const DATA_DIR_NAME: &'static str = ".inspyr";

/// Name of the database file inside [`DATA_DIR_NAME`].
pub const DB_FILE_NAME: &'static str = "gallery.db";

/// The schema: one table of images, each with a unique path.
pub const SCHEMA_SQL: &'static str = "CREATE TABLE IF NOT EXISTS images (
    id INTEGER PRIMARY KEY AUTOINCREMENT,
    path TEXT NOT NULL UNIQUE,
    filename TEXT NOT NULL
);";

/// Number of images, as SQLite counts them.
pub const SQL_COUNT_IMAGES: &'static str = "SELECT COUNT(*) FROM images";

/// An open gallery database, with the directory it indexes and its file.
#[derive(Debug)]
pub struct Database {
    conn: Connection,
    scan_dir: String,
    db_path: String,
}

/// What `is_database_empty` answers for the outcome of the count query:
/// a failed count reads as zero.
pub open spec fn empty_from_count_spec(count: Option<i64>) -> bool {
    match count {
        Some(n) => n == 0,
        None => true,
    }
}

/// Decides emptiness from the outcome of the count query (`None` when the
/// query failed).
pub fn empty_from_count(count: Option<i64>) -> (r: bool)
    ensures
        r == empty_from_count_spec(count),
        r == (count is None || count == Some(0i64)),
{
    let n: i64 = match count {
        Some(n) => n,
        None => 0,
    };
    n == 0
}

impl Database {
    /// The directory this database indexes.
    pub closed spec fn scan_dir_spec(&self) -> Seq<char> {
        self.scan_dir@
    }

    /// The path of the database file.
    pub closed spec fn db_path_spec(&self) -> Seq<char> {
        self.db_path@
    }

    /// The connection to the database file.
    pub closed spec fn connection(&self) -> Connection {
        self.conn
    }

    /// The directory to scan: `HOME` when it is set, else `/tmp`.
    pub fn scan_dir_for_home(home: Option<String>) -> (r: String)
        ensures
            match home {
                Some(h) => r@ == h@,
                None => r@ == DEFAULT_SCAN_DIR@,
            },
            home is None ==> r@ == "/tmp"@,
    {
        match home {
            Some(h) => h,
            None => DEFAULT_SCAN_DIR.to_owned(),
        }
    }

    /// The directory that holds the database: `<scan_dir>/.inspyr`.
    pub fn data_dir_for(scan_dir: &str) -> (r: String)
        ensures
            r@ == join_spec(scan_dir@, DATA_DIR_NAME@),
            r@ == join_spec(scan_dir@, ".inspyr"@),
    {
        join_path(scan_dir, DATA_DIR_NAME)
    }

    /// The database file: `<data_dir>/gallery.db`.
    pub fn db_file_for(data_dir: &str) -> (r: String)
        ensures
            r@ == join_spec(data_dir@, DB_FILE_NAME@),
            r@ == join_spec(data_dir@, "gallery.db"@),
    {
        join_path(data_dir, DB_FILE_NAME)
    }

    /// Opens the database file at `db_path` and creates the schema if it is
    /// missing. The directory of the file must exist.
    pub fn open(scan_dir: String, db_path: String) -> (r: Result<Database, DbError>)
        ensures
            r matches Ok(db) ==> db.scan_dir_spec() == scan_dir@ && db.db_path_spec() == db_path@,
            r is Ok ==> sqlite_opened(db_path@, true) && sqlite_batch_ran(SCHEMA_SQL@, true),
            r is Err ==> sqlite_opened(db_path@, false) || (sqlite_opened(db_path@, true)
                && sqlite_batch_ran(SCHEMA_SQL@, false)),
    {
        let conn = from_sqlite(connection_open(db_path.as_str()))?;
        let db = Database { conn, scan_dir, db_path };
        db.create_tables()?;
        Ok(db)
    }

    fn create_tables(&self) -> (r: Result<(), DbError>)
        ensures
            sqlite_batch_ran(SCHEMA_SQL@, r is Ok),
    {
        from_sqlite(connection_execute_batch(&self.conn, SCHEMA_SQL))
    }

    /// Whether the images table has no rows; a failed count reads as empty.
    pub fn is_database_empty(&self) -> (r: bool)
        ensures
            exists|count: Option<i64>| #[trigger] sqlite_counted(SQL_COUNT_IMAGES@, count) && r
                == empty_from_count_spec(count),
    {
        let count: Option<i64> = match connection_query_row_i64(&self.conn, SQL_COUNT_IMAGES) {
            Ok(n) => Some(n),
            Err(_) => None,
        };
        empty_from_count(count)
    }

    pub(crate) fn get_conn(&self) -> (r: &Connection)
        ensures
            *r == self.connection(),
    {
        &self.conn
    }

    /// The path of the database file.
    pub fn get_db_path(&self) -> (r: String)
        ensures
            r@ == self.db_path_spec(),
    {
        self.db_path.clone()
    }

    /// The directory this database indexes.
    pub fn get_scan_dir(&self) -> (r: String)
        ensures
            r@ == self.scan_dir_spec(),
    {
        self.scan_dir.clone()
    }
}


/// Whatever directory is scanned, the directory that holds the database
/// (`<scan_dir>/.inspyr`) is a hidden path, so scans prune it and the
/// watcher ignores changes to it.
pub proof fn law_data_dir_is_hidden(scan_dir: Seq<char>)
    ensures
        is_hidden_path_spec(encode_utf8(join_spec(scan_dir, DATA_DIR_NAME@))),
{
    reveal_strlit(".inspyr");
    let name = DATA_DIR_NAME@;
    assert(is_ascii_chars(name));
    assert(is_plain_ascii_name(name)) by {
        assert(name.len() == 7);
        assert(name != seq!['.']);
        assert(name != seq!['.', '.']);
    }
    law_file_name_of_join(scan_dir, name);
    encode_utf8_valid_utf8(name);
    encode_utf8_decode_utf8(name);
}

/// Wherever the database directory is, the database file is not taken for
/// an image by a scan.
pub proof fn law_db_file_is_not_an_image(data_dir: Seq<char>)
    ensures
        !is_image_path_spec(encode_utf8(join_spec(data_dir, DB_FILE_NAME@))),
{
    broadcast use is_ascii_chars_encode_utf8;

    reveal_strlit("gallery.db");
    let name = DB_FILE_NAME@;
    assert(is_ascii_chars(name));
    assert(is_plain_ascii_name(name)) by {
        assert(name.len() == 10);
        assert(name != seq!['.']);
        assert(name != seq!['.', '.']);
    }
    law_file_name_of_join(data_dir, name);
    let n = encode_utf8(name);
    assert(n.len() == 10);
    assert(n =~= seq![103u8, 97, 108, 108, 101, 114, 121, 46, 100, 98]) by {
        assert forall|i: int| 0 <= i < 10 implies n[i] == name[i] as u8 by {}
    }
    lemma_last_dot_at(n, 7);
    assert(path_extension_spec(encode_utf8(join_spec(data_dir, DB_FILE_NAME@))) == Some(
        seq![100u8, 98],
    )) by {
        assert(n.subrange(8, 10) =~= seq![100u8, 98]);
    }
    let e = seq![100u8, 98];
    assert forall|k: int| 0 <= k < image_extensions().len() implies !eq_ignore_ascii_case_spec(
        e,
        #[trigger] image_extensions()[k],
    ) by {
        assert(image_extensions()[k].len() >= 3);
    }
}

} // verus!
