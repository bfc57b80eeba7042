use inspyr::scan::{is_hidden_dir, is_hidden_entry, scan_action, ScanAction};
use inspyr::watch::{event_label, walk_into, EventCategory, LABEL_CREATE, LABEL_OTHER};
use inspyr::{Database, DatabaseOperations, Scan, WalkControl, WalkEntry};

fn entry(depth: usize, is_dir: bool, name: &[u8], path: &[u8]) -> WalkEntry {
    WalkEntry {
        depth,
        is_dir,
        is_file: !is_dir,
        file_name: name.to_vec(),
        path: path.to_vec(),
    }
}

#[test]
fn hidden_entries_and_dirs() {
    let git = entry(1, true, b".git", b"/h/.git");
    assert!(is_hidden_entry(&git));
    assert!(is_hidden_dir(&git));
    let root = entry(0, true, b".h", b"/.h");
    assert!(is_hidden_entry(&root));
    assert!(!is_hidden_dir(&root));
    let file = entry(2, false, b".x.jpg", b"/h/a/.x.jpg");
    assert!(is_hidden_entry(&file));
    assert!(!is_hidden_dir(&file));
    assert!(!is_hidden_entry(&entry(1, true, b"pics", b"/h/pics")));
}

#[test]
fn scan_action_decides() {
    assert!(matches!(scan_action(&entry(1, true, b".cache", b"/h/.cache")), ScanAction::SkipDirectory));
    assert!(matches!(scan_action(&entry(1, false, b".a.png", b"/h/.a.png")), ScanAction::Skip));
    assert!(matches!(scan_action(&entry(1, true, b"pics.png", b"/h/pics.png")), ScanAction::Skip));
    assert!(matches!(scan_action(&entry(1, false, b"notes.txt", b"/h/notes.txt")), ScanAction::Skip));
    match scan_action(&entry(2, false, b"Cat.JPG", b"/h/p/Cat.JPG")) {
        ScanAction::Insert(row) => {
            assert_eq!(row.path, "/h/p/Cat.JPG");
            assert_eq!(row.filename, "Cat.JPG");
        }
        _ => panic!("expected an insert"),
    }
    match scan_action(&entry(2, false, b"\xff.png", b"/h/\xff.png")) {
        ScanAction::Insert(row) => {
            assert_eq!(row.path, "/h/\u{FFFD}.png");
            assert_eq!(row.filename, "");
        }
        _ => panic!("expected an insert"),
    }
}

#[test]
fn visit_inserts_images_and_prunes_hidden_dirs() {
    let db = Database::open("/h".to_string(), ":memory:".to_string()).unwrap();
    let scan = Scan::new(&db);
    let ops = DatabaseOperations::new(&db);
    assert_eq!(scan.visit(&entry(0, true, b"h", b"/h")).unwrap(), WalkControl::Continue);
    assert_eq!(scan.visit(&entry(1, true, b".inspyr", b"/h/.inspyr")).unwrap(), WalkControl::SkipDirectory);
    assert_eq!(scan.visit(&entry(1, false, b"a.png", b"/h/a.png")).unwrap(), WalkControl::Continue);
    assert_eq!(scan.visit(&entry(1, false, b".b.png", b"/h/.b.png")).unwrap(), WalkControl::Continue);
    assert_eq!(scan.visit(&entry(1, false, b"c.doc", b"/h/c.doc")).unwrap(), WalkControl::Continue);
    assert_eq!(ops.count().unwrap(), 1);
    let a = ops.get_by_id(1).unwrap().unwrap();
    assert_eq!((a.path.as_str(), a.filename.as_str()), ("/h/a.png", "a.png"));
    assert_eq!(scan.visit(&entry(1, false, b"a.png", b"/h/a.png")).unwrap(), WalkControl::Continue);
    assert_eq!(ops.count().unwrap(), 1);
}

#[test]
fn watch_walk_and_labels() {
    assert!(!walk_into(&entry(1, true, b".git", b"/h/.git")));
    assert!(walk_into(&entry(0, true, b".h", b"/.h")));
    assert!(walk_into(&entry(1, false, b".x", b"/h/.x")));
    assert_eq!(event_label(EventCategory::Create, b"/h/a.png"), Some(LABEL_CREATE));
    assert_eq!(event_label(EventCategory::Modify, b"/h/a.png"), Some("Modify"));
    assert_eq!(event_label(EventCategory::Remove, b"/h/a.png"), Some("Remove"));
    assert_eq!(event_label(EventCategory::Other, b"/h/a.png"), Some(LABEL_OTHER));
    assert_eq!(event_label(EventCategory::Any, b"/h/a.png"), None);
    assert_eq!(event_label(EventCategory::Access, b"/h/a.png"), None);
    assert_eq!(event_label(EventCategory::Create, b"/h/.a.png.swp"), None);
}

#[test]
fn rescan_of_an_unchanged_tree_leaves_the_table_as_it_was() {
    let db = Database::open("/h".to_string(), ":memory:".to_string()).unwrap();
    let scan = Scan::new(&db);
    let ops = DatabaseOperations::new(&db);
    let tree = vec![
        entry(0, true, b"h", b"/h"),
        entry(1, false, b"a.png", b"/h/a.png"),
        entry(1, true, b"sub", b"/h/sub"),
        entry(2, false, b"B.JPG", b"/h/sub/B.JPG"),
    ];
    for e in &tree {
        scan.visit(e).unwrap();
    }
    let first = ops.list(&inspyr::ListOptions { limit: 10, offset: 0 }).unwrap();
    for e in &tree {
        scan.visit(e).unwrap();
    }
    let second = ops.list(&inspyr::ListOptions { limit: 10, offset: 0 }).unwrap();
    assert_eq!(first.len(), 2);
    let key = |v: &Vec<inspyr::Image>| -> Vec<(i64, String, String)> {
        v.iter().map(|i| (i.id, i.path.clone(), i.filename.clone())).collect()
    };
    assert_eq!(key(&first), key(&second));
    assert_eq!(second[1].filename, "B.JPG");
}
