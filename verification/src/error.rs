//! The library's error type.

use vstd::prelude::*;

verus! {

/// Why a database operation failed.
#[derive(Debug)]
pub enum DbError {
    /// SQLite (through rusqlite) reported an error. A failure to create the
    /// database's directory is reported as rusqlite's
    /// `ToSqlConversionFailure` holding the I/O error.
    Sqlite(rusqlite::Error),
}

/// Maps an outcome of a rusqlite call to the library's error type.
pub fn from_sqlite<T>(r: Result<T, rusqlite::Error>) -> (out: Result<T, DbError>)
    ensures
        match r {
            Ok(v) => out == Ok::<T, DbError>(v),
            Err(e) => out == Err::<T, DbError>(DbError::Sqlite(e)),
        },
{
    match r {
        Ok(v) => Ok(v),
        Err(e) => Err(DbError::Sqlite(e)),
    }
}

} // verus!
