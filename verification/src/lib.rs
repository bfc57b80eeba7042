//! Inspyr: the photo gallery's database layer (schema, CRUD and paging over
//! SQLite), the directory-scan rules, file-watch filtering, and the photo
//! viewer's navigation and header decisions, each with its contract.

pub mod connection;
pub mod error;
pub mod header;
pub mod operation;
pub mod paths;
pub mod scan;
mod sqlite;
pub mod viewer;
pub mod watch;

pub use connection::Database;
pub use error::DbError;
pub use operation::{DatabaseOperations, Image, InsertImage, ListOptions, UpdateImage};
pub use scan::{Scan, WalkControl, WalkEntry};
