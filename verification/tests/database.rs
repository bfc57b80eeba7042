use inspyr::operation::{
    delete_request, insert_request, list_request, select_by_filename_request,
    select_by_id_request, select_by_path_request, upsert_request, SQL_DELETE, SQL_INSERT,
    SQL_LIST, SQL_SELECT_BY_FILENAME, SQL_SELECT_BY_ID, SQL_SELECT_BY_PATH, SQL_UPSERT,
};
use inspyr::connection::{empty_from_count, DATA_DIR_NAME, DB_FILE_NAME};
use inspyr::operation::{
    bulk_delete_sql, count_as_u64, deleted_any, effective_limit, update_request,
    SQL_UPDATE_FILENAME, SQL_UPDATE_PATH, SQL_UPDATE_PATH_AND_FILENAME,
};
use inspyr::{Database, DatabaseOperations, DbError, InsertImage, ListOptions, UpdateImage};

fn memory_db() -> Database {
    Database::open("/photos".to_string(), ":memory:".to_string()).expect("in-memory database")
}

fn row(path: &str, filename: &str) -> InsertImage {
    InsertImage { path: path.to_string(), filename: filename.to_string() }
}

#[test]
fn database_paths() {
    assert_eq!(Database::scan_dir_for_home(None), "/tmp");
    assert_eq!(Database::scan_dir_for_home(Some("/home/u".to_string())), "/home/u");
    let data = Database::data_dir_for("/home/u");
    assert_eq!(data, "/home/u/.inspyr");
    assert_eq!(Database::db_file_for(&data), "/home/u/.inspyr/gallery.db");
    assert_eq!(DATA_DIR_NAME, ".inspyr");
    assert_eq!(DB_FILE_NAME, "gallery.db");
}

#[test]
fn open_keeps_paths_and_starts_empty() {
    let db = memory_db();
    assert_eq!(db.get_scan_dir(), "/photos");
    assert_eq!(db.get_db_path(), ":memory:");
    assert!(db.is_database_empty());
    let ops = DatabaseOperations::new(&db);
    assert_eq!(ops.total_images().unwrap(), 0);
    assert_eq!(ops.count().unwrap(), 0);
}

#[test]
fn empty_from_count_reads_failure_as_empty() {
    assert!(empty_from_count(None));
    assert!(empty_from_count(Some(0)));
    assert!(!empty_from_count(Some(3)));
}

#[test]
fn insert_then_get() {
    let db = memory_db();
    let ops = DatabaseOperations::new(&db);
    let id = ops.insert(&row("/photos/a.jpg", "a.jpg")).unwrap();
    assert_eq!(id, 1);
    let id2 = ops.insert(&row("/photos/b.png", "b.png")).unwrap();
    assert_eq!(id2, 2);
    let a = ops.get_by_id(1).unwrap().unwrap();
    assert_eq!((a.id, a.path.as_str(), a.filename.as_str()), (1, "/photos/a.jpg", "a.jpg"));
    let b = ops.get_by_path(&"/photos/b.png".to_string()).unwrap().unwrap();
    assert_eq!(b.id, 2);
    let b2 = ops.get_by_filename("b.png").unwrap().unwrap();
    assert_eq!(b2.path, "/photos/b.png");
    assert!(ops.get_by_id(7).unwrap().is_none());
    assert!(ops.get_by_path(&"/nowhere".to_string()).unwrap().is_none());
    assert!(ops.get_by_filename("nothing").unwrap().is_none());
    assert!(!db.is_database_empty());
    assert_eq!(ops.total_images().unwrap(), 2);
}

#[test]
fn duplicate_path_is_an_sqlite_error() {
    let db = memory_db();
    let ops = DatabaseOperations::new(&db);
    ops.insert(&row("/photos/a.jpg", "a.jpg")).unwrap();
    let r = ops.insert(&row("/photos/a.jpg", "again.jpg"));
    assert!(matches!(r, Err(DbError::Sqlite(_))));
}

#[test]
fn update_writes_only_set_fields() {
    let db = memory_db();
    let ops = DatabaseOperations::new(&db);
    let id = ops.insert(&row("/photos/a.jpg", "a.jpg")).unwrap();
    ops.update(id, &UpdateImage { path: None, filename: Some("renamed.jpg".to_string()) })
        .unwrap();
    let a = ops.get_by_id(id).unwrap().unwrap();
    assert_eq!((a.path.as_str(), a.filename.as_str()), ("/photos/a.jpg", "renamed.jpg"));
    ops.update(id, &UpdateImage { path: Some("/photos/moved.jpg".to_string()), filename: None })
        .unwrap();
    let a = ops.get_by_id(id).unwrap().unwrap();
    assert_eq!((a.path.as_str(), a.filename.as_str()), ("/photos/moved.jpg", "renamed.jpg"));
    ops.update(
        id,
        &UpdateImage { path: Some("/p/z.png".to_string()), filename: Some("z.png".to_string()) },
    )
    .unwrap();
    let a = ops.get_by_id(id).unwrap().unwrap();
    assert_eq!((a.path.as_str(), a.filename.as_str()), ("/p/z.png", "z.png"));
    ops.update(id, &UpdateImage::default()).unwrap();
    let a = ops.get_by_id(id).unwrap().unwrap();
    assert_eq!((a.path.as_str(), a.filename.as_str()), ("/p/z.png", "z.png"));
}

#[test]
fn update_request_picks_the_statement() {
    let both = update_request(
        4,
        &UpdateImage { path: Some("p".to_string()), filename: Some("f".to_string()) },
    )
    .unwrap();
    assert_eq!(both.sql, SQL_UPDATE_PATH_AND_FILENAME);
    assert_eq!(both.texts, vec!["p".to_string(), "f".to_string()]);
    assert_eq!(both.ints, vec![4]);
    let path = update_request(5, &UpdateImage { path: Some("p".to_string()), filename: None })
        .unwrap();
    assert_eq!(path.sql, SQL_UPDATE_PATH);
    assert_eq!(path.texts, vec!["p".to_string()]);
    assert_eq!(path.ints, vec![5]);
    let name = update_request(6, &UpdateImage { path: None, filename: Some("f".to_string()) })
        .unwrap();
    assert_eq!(name.sql, SQL_UPDATE_FILENAME);
    assert_eq!(name.texts, vec!["f".to_string()]);
    assert_eq!(name.ints, vec![6]);
    assert!(update_request(7, &UpdateImage::default()).is_none());
}

#[test]
fn delete_reports_whether_a_row_went() {
    let db = memory_db();
    let ops = DatabaseOperations::new(&db);
    let id = ops.insert(&row("/photos/a.jpg", "a.jpg")).unwrap();
    assert!(ops.delete(id).unwrap());
    assert!(!ops.delete(id).unwrap());
    assert!(deleted_any(1));
    assert!(!deleted_any(0));
}

#[test]
fn list_orders_by_id_and_clamps_the_limit() {
    let db = memory_db();
    let ops = DatabaseOperations::new(&db);
    let rows: Vec<InsertImage> =
        (0..5).map(|i| row(&format!("/photos/{}.jpg", i), &format!("{}.jpg", i))).collect();
    assert_eq!(ops.bulk_insert(&rows).unwrap(), 5);
    let page = ops.list(&ListOptions { limit: 2, offset: 1 }).unwrap();
    let ids: Vec<i64> = page.iter().map(|i| i.id).collect();
    assert_eq!(ids, vec![2, 3]);
    let one = ops.list(&ListOptions { limit: 0, offset: 0 }).unwrap();
    assert_eq!(one.len(), 1);
    let all = ops.list(&ListOptions { limit: 50_000, offset: 0 }).unwrap();
    assert_eq!(all.len(), 5);
    assert_eq!(all[4].filename, "4.jpg");
}

#[test]
fn effective_limit_clamps() {
    assert_eq!(effective_limit(0), 1);
    assert_eq!(effective_limit(1), 1);
    assert_eq!(effective_limit(250), 250);
    assert_eq!(effective_limit(1000), 1000);
    assert_eq!(effective_limit(1001), 1000);
    assert_eq!(effective_limit(u32::MAX), 1000);
}

#[test]
fn bulk_insert_counts_and_stops_at_failure() {
    let db = memory_db();
    let ops = DatabaseOperations::new(&db);
    assert_eq!(ops.bulk_insert(&[]).unwrap(), 0);
    let rows = vec![row("/a.jpg", "a.jpg"), row("/b.jpg", "b.jpg"), row("/a.jpg", "dup.jpg")];
    assert!(matches!(ops.bulk_insert(&rows), Err(DbError::Sqlite(_))));
    assert_eq!(ops.count().unwrap(), 2);
}

#[test]
fn bulk_delete_removes_the_listed_ids() {
    let db = memory_db();
    let ops = DatabaseOperations::new(&db);
    let rows: Vec<InsertImage> =
        (0..12).map(|i| row(&format!("/{}.jpg", i), &format!("{}.jpg", i))).collect();
    ops.bulk_insert(&rows).unwrap();
    assert_eq!(ops.bulk_delete(&[]).unwrap(), 0);
    assert_eq!(ops.bulk_delete(&[1, 3, 11, 12, 99]).unwrap(), 4);
    assert_eq!(ops.count().unwrap(), 8);
    assert!(ops.get_by_id(3).unwrap().is_none());
    assert!(ops.get_by_id(2).unwrap().is_some());
}

#[test]
fn bulk_delete_statement_text() {
    assert_eq!(bulk_delete_sql(0), "DELETE FROM images WHERE id IN ()");
    assert_eq!(bulk_delete_sql(1), "DELETE FROM images WHERE id IN (?1)");
    assert_eq!(bulk_delete_sql(3), "DELETE FROM images WHERE id IN (?1, ?2, ?3)");
    let twelve = bulk_delete_sql(12);
    assert!(twelve.ends_with("?9, ?10, ?11, ?12)"));
}

#[test]
fn count_cast() {
    assert_eq!(count_as_u64(0), 0);
    assert_eq!(count_as_u64(42), 42);
    assert_eq!(count_as_u64(-1), u64::MAX);
}

#[test]
fn request_builders_bind_exactly() {
    let r = row("/a.jpg", "a.jpg");
    let q = insert_request(&r);
    assert_eq!((q.sql, q.texts.clone(), q.ints.clone()), (SQL_INSERT, vec!["/a.jpg".to_string(), "a.jpg".to_string()], vec![]));
    let q = upsert_request(&r);
    assert_eq!((q.sql, q.texts.len()), (SQL_UPSERT, 2));
    let q = select_by_id_request(9);
    assert_eq!((q.sql, q.texts.len(), q.ints.clone()), (SQL_SELECT_BY_ID, 0, vec![9]));
    let q = select_by_path_request(&"/a.jpg".to_string());
    assert_eq!((q.sql, q.texts.clone()), (SQL_SELECT_BY_PATH, vec!["/a.jpg".to_string()]));
    let q = select_by_filename_request("a.jpg");
    assert_eq!((q.sql, q.texts.clone()), (SQL_SELECT_BY_FILENAME, vec!["a.jpg".to_string()]));
    let q = delete_request(4);
    assert_eq!((q.sql, q.ints.clone()), (SQL_DELETE, vec![4]));
    let q = list_request(&ListOptions { limit: 0, offset: 7 });
    assert_eq!((q.sql, q.ints.clone()), (SQL_LIST, vec![1, 7]));
    let q = list_request(&ListOptions { limit: 5000, offset: 0 });
    assert_eq!(q.ints, vec![1000, 0]);
}

#[test]
fn upsert_replaces_the_row_of_a_known_path() {
    let db = memory_db();
    let ops = DatabaseOperations::new(&db);
    ops.upsert(&row("/a.jpg", "a.jpg")).unwrap();
    ops.upsert(&row("/a.jpg", "b.jpg")).unwrap();
    assert_eq!(ops.count().unwrap(), 1);
    let a = ops.get_by_path(&"/a.jpg".to_string()).unwrap().unwrap();
    assert_eq!((a.id, a.filename.as_str()), (2, "b.jpg"));
}

#[test]
fn list_with_limit_zero_and_offset() {
    let db = memory_db();
    let ops = DatabaseOperations::new(&db);
    let rows: Vec<InsertImage> =
        (1..4).map(|i| row(&format!("/p/{}.jpg", i), &format!("{}.jpg", i))).collect();
    assert_eq!(ops.bulk_insert(&rows).unwrap(), 3);
    let v = ops.list(&ListOptions { limit: 0, offset: 0 }).unwrap();
    assert_eq!((v.len(), v[0].id), (1, 1));
    let v = ops.list(&ListOptions { limit: 2, offset: 2 }).unwrap();
    assert_eq!(v.iter().map(|i| i.id).collect::<Vec<_>>(), vec![3]);
}

#[test]
fn insert_returns_the_id_of_the_new_row() {
    let db = memory_db();
    let ops = DatabaseOperations::new(&db);
    ops.insert(&row("/x.jpg", "x.jpg")).unwrap();
    ops.delete(1).unwrap();
    let id = ops.insert(&row("/y.jpg", "y.jpg")).unwrap();
    let y = ops.get_by_id(id).unwrap().unwrap();
    assert_eq!((y.path.as_str(), y.filename.as_str()), ("/y.jpg", "y.jpg"));
    assert_eq!(ops.count().unwrap(), 1);
}

#[test]
fn failed_bulk_insert_keeps_the_rows_before_the_failure() {
    let db = memory_db();
    let ops = DatabaseOperations::new(&db);
    let rows = vec![row("/a.jpg", "a.jpg"), row("/a.jpg", "dup.jpg"), row("/c.jpg", "c.jpg")];
    assert!(ops.bulk_insert(&rows).is_err());
    assert!(ops.get_by_path(&"/a.jpg".to_string()).unwrap().is_some());
    assert!(ops.get_by_path(&"/c.jpg".to_string()).unwrap().is_none());
}
