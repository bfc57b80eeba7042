//! Directory scan rules: which walked entries are skipped, which directories
//! are not descended into, and which files become image rows.

use vstd::prelude::*;
use vstd::utf8::*;

use crate::connection::Database;
use crate::error::DbError;
use crate::operation::{
    first_image_answered, insert_answered, insert_texts, DatabaseOperations, InsertImage, SQL_INSERT,
    SQL_SELECT_BY_PATH,
};
use crate::sqlite::{sqlite_inserted, sqlite_prepared, sqlite_statement_first_image};
use crate::paths::{
    is_hidden_name, is_hidden_name_spec, is_image_path, is_image_path_spec, utf8_lossy,
    utf8_lossy_text, utf8_text,
};

verus! {

/// One entry of a directory walk, as plain values: its depth below the
/// walk's root (0 for the root), its kind, its file name and its path, the
/// last two as the raw bytes the file system gave.
#[derive(Debug, Clone)]
pub struct WalkEntry {
    pub depth: usize,
    pub is_dir: bool,
    pub is_file: bool,
    pub file_name: Vec<u8>,
    pub path: Vec<u8>,
}

/// An entry is hidden when its file name is a hidden name.
pub open spec fn is_hidden_entry_spec(e: WalkEntry) -> bool {
    is_hidden_name_spec(e.file_name@)
}

/// A hidden directory below the root of the walk.
pub open spec fn is_hidden_dir_spec(e: WalkEntry) -> bool {
    &&& e.depth != 0
    &&& e.is_dir
    &&& is_hidden_name_spec(e.file_name@)
}

/// An entry that a scan inserts: not hidden, a regular file, an image.
pub open spec fn scan_inserts_spec(e: WalkEntry) -> bool {
    &&& !is_hidden_entry_spec(e)
    &&& e.is_file
    &&& is_image_path_spec(e.path@)
}

/// A scan records no hidden entry, whatever its kind or extension.
pub proof fn law_hidden_entries_are_never_inserted(e: WalkEntry)
    requires
        is_hidden_entry_spec(e),
    ensures
        !scan_inserts_spec(e),
{
}

/// The text of a file name, or the empty text when it is not UTF-8.
pub open spec fn name_text(name: Seq<u8>) -> Seq<char> {
    if valid_utf8(name) {
        decode_utf8(name)
    } else {
        seq![]
    }
}

/// Whether the entry is hidden (its name, as text, starts with `.`).
pub fn is_hidden_entry(e: &WalkEntry) -> (r: bool)
    ensures
        r == is_hidden_entry_spec(*e),
{
    is_hidden_name(e.file_name.as_slice())
}

/// Whether the entry is a hidden directory below the root of the walk.
pub fn is_hidden_dir(e: &WalkEntry) -> (r: bool)
    ensures
        r == is_hidden_dir_spec(*e),
        e.depth == 0 || !e.is_dir ==> !r,
        e.depth != 0 && e.is_dir ==> r == is_hidden_name_spec(e.file_name@),
{
    if e.depth == 0 {
        return false;
    }
    if e.is_dir {
        is_hidden_name(e.file_name.as_slice())
    } else {
        false
    }
}

/// What a scan does with one walked entry.
pub enum ScanAction {
    /// A hidden directory: skip it and everything below it.
    SkipDirectory,
    /// Nothing to record; keep walking (into it, if it is a directory).
    Skip,
    /// An image file: record it.
    Insert(InsertImage),
}

/// Decides what a scan does with a walked entry.
pub fn scan_action(e: &WalkEntry) -> (r: ScanAction)
    ensures
        r is SkipDirectory <==> is_hidden_entry_spec(*e) && e.is_dir,
        r is Insert <==> scan_inserts_spec(*e),
        r matches ScanAction::Insert(row) ==> row.path@ == utf8_lossy(e.path@) && row.filename@
            == name_text(e.file_name@),
{
    if is_hidden_entry(e) {
        if e.is_dir {
            ScanAction::SkipDirectory
        } else {
            ScanAction::Skip
        }
    } else if e.is_file && is_image_path(e.path.as_slice()) {
        let path = utf8_lossy_text(e.path.as_slice());
        let filename = match utf8_text(e.file_name.as_slice()) {
            Some(s) => s,
            None => String::new(),
        };
        ScanAction::Insert(InsertImage { path, filename })
    } else {
        ScanAction::Skip
    }
}

/// How the walk goes on after an entry.
#[derive(Debug, Clone, Copy, PartialEq, Eq, Structural)]
pub enum WalkControl {
    Continue,
    SkipDirectory,
}

/// The text bound when an image entry is looked up: its path, decoded
/// lossily.
pub open spec fn scan_lookup_texts(e: WalkEntry) -> Seq<Seq<char>> {
    seq![utf8_lossy(e.path@)]
}

/// The texts bound when an image entry is inserted: its path, decoded
/// lossily, then its file name (empty when not UTF-8).
pub open spec fn scan_insert_texts(e: WalkEntry) -> Seq<Seq<char>> {
    seq![utf8_lossy(e.path@), name_text(e.file_name@)]
}

/// What syncing an image entry into the database did, given the outcome `r`:
/// its path (decoded lossily) was looked up; a failed lookup fails; a path
/// already stored is left as it is; otherwise the entry was inserted with
/// that path and its file name (empty when not UTF-8), and `r` fails exactly
/// when that insert failed.
pub open spec fn synced(e: WalkEntry, r: Result<WalkControl, DbError>) -> bool {
    exists|found: Option<Option<(i64, Seq<char>, Seq<char>)>>|
        #[trigger] first_image_answered(
            SQL_SELECT_BY_PATH@,
            scan_lookup_texts(e),
            Seq::<i64>::empty(),
            found,
        ) && match found {
            None => r is Err,
            Some(Some(_)) => r == Ok::<WalkControl, DbError>(WalkControl::Continue),
            Some(None) => exists|rowid: Option<i64>|
                #[trigger] insert_answered(
                    SQL_INSERT@,
                    scan_insert_texts(e),
                    Seq::<i64>::empty(),
                    rowid,
                ) && match rowid {
                    Some(_) => r == Ok::<WalkControl, DbError>(WalkControl::Continue),
                    None => r is Err,
                },
        }
}

/// Syncing an image entry keys it by its path, never by its file name: the
/// lookup is the statement that selects rows by path, bound to the entry's
/// path (decoded lossily) alone. A failed lookup fails; a stored row with
/// that path leaves the entry as it is; when no row has that path, the
/// entry is inserted with its path and file name, and the outcome is that
/// insert's. So two entries with different paths and the same file name
/// are looked up, and recorded, apart.
pub proof fn law_sync_looks_up_by_path(e: WalkEntry, r: Result<WalkControl, DbError>)
    requires
        synced(e, r),
    ensures
        exists|found: Option<Option<(i64, Seq<char>, Seq<char>)>>|
            #![trigger sqlite_statement_first_image(
                "SELECT id, path, filename FROM images WHERE path = ?1"@,
                Seq::<Seq<char>>::empty().push(utf8_lossy(e.path@)),
                Seq::<i64>::empty(),
                found,
            )]
            ((sqlite_prepared("SELECT id, path, filename FROM images WHERE path = ?1"@, false)
                && found is None) || (sqlite_prepared(
                "SELECT id, path, filename FROM images WHERE path = ?1"@,
                true,
            ) && sqlite_statement_first_image(
                "SELECT id, path, filename FROM images WHERE path = ?1"@,
                Seq::<Seq<char>>::empty().push(utf8_lossy(e.path@)),
                Seq::<i64>::empty(),
                found,
            ))) && (found is None ==> r is Err) && (found is Some && found->0 is Some ==> r
                == Ok::<WalkControl, DbError>(WalkControl::Continue)) && (found == Some(
                None::<(i64, Seq<char>, Seq<char>)>,
            ) ==> exists|rowid: Option<i64>|
                #![trigger sqlite_inserted(
                    "INSERT INTO images (path, filename) VALUES (?1, ?2)"@,
                    Seq::<Seq<char>>::empty().push(utf8_lossy(e.path@)).push(name_text(e.file_name@)),
                    Seq::<i64>::empty(),
                    rowid,
                )]
                ((sqlite_prepared("INSERT INTO images (path, filename) VALUES (?1, ?2)"@, false)
                    && rowid is None) || (sqlite_prepared(
                    "INSERT INTO images (path, filename) VALUES (?1, ?2)"@,
                    true,
                ) && sqlite_inserted(
                    "INSERT INTO images (path, filename) VALUES (?1, ?2)"@,
                    Seq::<Seq<char>>::empty().push(utf8_lossy(e.path@)).push(name_text(e.file_name@)),
                    Seq::<i64>::empty(),
                    rowid,
                ))) && (rowid is Some ==> r == Ok::<WalkControl, DbError>(WalkControl::Continue))
                    && (rowid is None ==> r is Err)),
{
    let lookup = Seq::<Seq<char>>::empty().push(utf8_lossy(e.path@));
    let inserted = Seq::<Seq<char>>::empty().push(utf8_lossy(e.path@)).push(name_text(e.file_name@));
    assert(scan_lookup_texts(e) =~= lookup);
    assert(scan_insert_texts(e) =~= inserted);
    assert(SQL_SELECT_BY_PATH@ == "SELECT id, path, filename FROM images WHERE path = ?1"@);
    assert(SQL_INSERT@ == "INSERT INTO images (path, filename) VALUES (?1, ?2)"@);
    let found = choose|found: Option<Option<(i64, Seq<char>, Seq<char>)>>|
        #[trigger] first_image_answered(SQL_SELECT_BY_PATH@, scan_lookup_texts(e), Seq::<i64>::empty(), found)
            && match found {
            None => r is Err,
            Some(Some(_)) => r == Ok::<WalkControl, DbError>(WalkControl::Continue),
            Some(None) => exists|rowid: Option<i64>|
                #[trigger] insert_answered(SQL_INSERT@, scan_insert_texts(e), Seq::<i64>::empty(), rowid)
                    && match rowid {
                    Some(_) => r == Ok::<WalkControl, DbError>(WalkControl::Continue),
                    None => r is Err,
                },
        };
    assert(first_image_answered(SQL_SELECT_BY_PATH@, lookup, Seq::<i64>::empty(), found));
    let looked_up = sqlite_statement_first_image(
        "SELECT id, path, filename FROM images WHERE path = ?1"@,
        lookup,
        Seq::<i64>::empty(),
        found,
    );
    if found == Some(None::<(i64, Seq<char>, Seq<char>)>) {
        let rowid = choose|rowid: Option<i64>|
            #[trigger] insert_answered(SQL_INSERT@, scan_insert_texts(e), Seq::<i64>::empty(), rowid)
                && match rowid {
                Some(_) => r == Ok::<WalkControl, DbError>(WalkControl::Continue),
                None => r is Err,
            };
        assert(insert_answered(SQL_INSERT@, inserted, Seq::<i64>::empty(), rowid));
        let added = sqlite_inserted(
            "INSERT INTO images (path, filename) VALUES (?1, ?2)"@,
            inserted,
            Seq::<i64>::empty(),
            rowid,
        );
    }
}

/// A scan of a directory tree into the database.
pub struct Scan<'a> {
    db: &'a Database,
}

impl<'a> Scan<'a> {
    /// The database this scan fills.
    pub closed spec fn database(&self) -> &'a Database {
        self.db
    }

    pub fn new(db: &'a Database) -> (r: Self)
        ensures
            r.database() == db,
    {
        Self { db }
    }

    /// Handles one walked entry: hidden directories are pruned, hidden
    /// entries and non-images are passed over, and image files are synced
    /// into the database: inserted unless their path is already stored.
    pub fn visit(&self, e: &WalkEntry) -> (r: Result<WalkControl, DbError>)
        ensures
            is_hidden_entry_spec(*e) && e.is_dir ==> r == Ok::<WalkControl, DbError>(
                WalkControl::SkipDirectory,
            ),
            !(is_hidden_entry_spec(*e) && e.is_dir) && !scan_inserts_spec(*e) ==> r == Ok::<
                WalkControl,
                DbError,
            >(WalkControl::Continue),
            scan_inserts_spec(*e) ==> synced(*e, r),
    {
        match scan_action(e) {
            ScanAction::SkipDirectory => Ok(WalkControl::SkipDirectory),
            ScanAction::Skip => Ok(WalkControl::Continue),
            ScanAction::Insert(row) => {
                let ops = DatabaseOperations::new(self.db);
                assert(scan_lookup_texts(*e) == seq![row.path@]);
                assert(scan_insert_texts(*e) == insert_texts(row));
                match ops.get_by_path(&row.path)? {
                    Some(_) => Ok(WalkControl::Continue),
                    None => {
                        ops.insert(&row)?;
                        Ok(WalkControl::Continue)
                    },
                }
            },
        }
    }
}

} // verus!
