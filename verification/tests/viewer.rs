use inspyr::viewer::{gallery_step, GalleryStep};
use inspyr::Image;
use inspyr::header::{
    search_button_state, search_toggled, shows_photo_back, ToggleAction, ICON_BACK, ICON_SEARCH,
};
use inspyr::viewer::{
    load_gallery, nav_buttons, next_page_offset, open_index, step_index, strip_cell_extent,
    strip_scrolled_height_request, thumbnail_size_request,
};
use inspyr::{Database, DatabaseOperations, InsertImage};

#[test]
fn strip_geometry() {
    assert_eq!(strip_cell_extent(), 32);
    assert_eq!(strip_scrolled_height_request(), 44);
}

#[test]
fn thumbnail_size() {
    assert_eq!(thumbnail_size_request(0), None);
    assert_eq!(thumbnail_size_request(96), Some(96));
    assert_eq!(thumbnail_size_request(u32::MAX), Some(-1));
}

#[test]
fn opening_the_viewer() {
    assert_eq!(open_index(0, 0), None);
    assert_eq!(open_index(3, 2), Some(2));
    assert_eq!(open_index(3, 3), None);
}

#[test]
fn stepping_the_viewer() {
    assert_eq!(step_index(0, 0, 1), None);
    assert_eq!(step_index(5, 0, -1), None);
    assert_eq!(step_index(5, 0, 1), Some(1));
    assert_eq!(step_index(5, 4, 1), None);
    assert_eq!(step_index(5, 4, -1), Some(3));
    assert_eq!(step_index(5, 2, i32::MIN), None);
    assert_eq!(step_index(u32::MAX, u32::MAX - 1, i32::MAX), None);
}

#[test]
fn step_back_undoes_step() {
    for delta in [-3i32, -1, 1, 2] {
        for i in 0u32..6 {
            if let Some(j) = step_index(6, i, delta) {
                assert_eq!(step_index(6, j, -delta), Some(i));
            }
        }
    }
}

#[test]
fn nav_buttons_match_steps() {
    assert_eq!(nav_buttons(1, 0), (false, false));
    assert_eq!(nav_buttons(3, 0), (false, true));
    assert_eq!(nav_buttons(3, 1), (true, true));
    assert_eq!(nav_buttons(3, 2), (true, false));
    for i in 0u32..4 {
        let (prev, next) = nav_buttons(4, i);
        assert_eq!(prev, step_index(4, i, -1).is_some());
        assert_eq!(next, step_index(4, i, 1).is_some());
    }
}

#[test]
fn paging_offsets() {
    assert_eq!(next_page_offset(0, 1000), Some(1000));
    assert_eq!(next_page_offset(0, 999), None);
    assert_eq!(next_page_offset(0, 0), None);
    assert_eq!(next_page_offset(u32::MAX - 10, 1000), Some(u32::MAX));
    assert_eq!(next_page_offset(u32::MAX, 1000), None);
}

#[test]
fn gallery_loads_every_page_in_id_order() {
    let db = Database::open("/h".to_string(), ":memory:".to_string()).unwrap();
    let ops = DatabaseOperations::new(&db);
    let rows: Vec<InsertImage> = (0..2500)
        .map(|i| InsertImage { path: format!("/h/{}.jpg", i), filename: format!("{}.jpg", i) })
        .collect();
    ops.bulk_insert(&rows).unwrap();
    let loaded = load_gallery(&ops);
    assert!(loaded.error.is_none());
    assert_eq!(loaded.images.len(), 2500);
    assert_eq!(loaded.images[0].id, 1);
    assert_eq!(loaded.images[2499].filename, "2499.jpg");
}

#[test]
fn gallery_of_an_empty_database() {
    let db = Database::open("/h".to_string(), ":memory:".to_string()).unwrap();
    let ops = DatabaseOperations::new(&db);
    let loaded = load_gallery(&ops);
    assert!(loaded.error.is_none());
    assert!(loaded.images.is_empty());
}

#[test]
fn header_back_mode() {
    let photos = Some("photos".to_string());
    let view = Some("photo_view".to_string());
    let grid = Some("thumbnail_view".to_string());
    assert!(shows_photo_back(&photos, &view));
    assert!(!shows_photo_back(&photos, &grid));
    assert!(!shows_photo_back(&Some("albums".to_string()), &view));
    assert!(!shows_photo_back(&None, &view));
    assert!(!shows_photo_back(&photos, &None));
}

#[test]
fn header_button_state_and_toggle() {
    let back = search_button_state(true);
    assert_eq!((back.icon_name, back.tooltip, back.close_search), (ICON_BACK, "Back to grid", true));
    let search = search_button_state(false);
    assert_eq!(
        (search.icon_name, search.tooltip, search.close_search),
        (ICON_SEARCH, "Search", false)
    );
    assert_eq!(search_toggled(false, true), ToggleAction::SetSearchMode(true));
    assert_eq!(search_toggled(false, false), ToggleAction::SetSearchMode(false));
    assert_eq!(search_toggled(true, true), ToggleAction::CloseViewer);
    assert_eq!(search_toggled(true, false), ToggleAction::Nothing);
}

#[test]
fn gallery_step_appends_and_decides() {
    let img = |i: i64| Image { id: i, path: format!("/{}", i), filename: format!("{}", i) };
    let mut images = vec![img(1)];
    let full: Vec<Image> = (2..1002).map(img).collect();
    match gallery_step(&mut images, 0, Ok(full)) {
        GalleryStep::Next { offset } => assert_eq!(offset, 1000),
        _ => panic!("a full page goes on"),
    }
    assert_eq!(images.len(), 1001);
    assert_eq!(images[1000].id, 1001);
    match gallery_step(&mut images, 1000, Ok(vec![img(5000)])) {
        GalleryStep::Done { error } => assert!(error.is_none()),
        _ => panic!("a short page ends"),
    }
    assert_eq!(images.len(), 1002);
    match gallery_step(&mut images, 2000, Ok(Vec::new())) {
        GalleryStep::Done { error } => assert!(error.is_none()),
        _ => panic!("an empty page ends"),
    }
    let err = inspyr::DbError::Sqlite(rusqlite::Error::QueryReturnedNoRows);
    match gallery_step(&mut images, 3000, Err(err)) {
        GalleryStep::Done { error } => assert!(error.is_some()),
        _ => panic!("a failed page ends"),
    }
    assert_eq!(images.len(), 1002);
}

#[test]
fn gallery_of_exactly_one_full_page_plus_one() {
    let db = Database::open("/h".to_string(), ":memory:".to_string()).unwrap();
    let ops = DatabaseOperations::new(&db);
    let rows: Vec<InsertImage> = (1..=1001)
        .map(|k| InsertImage { path: format!("/p/{}.jpg", k), filename: format!("{}.jpg", k) })
        .collect();
    assert_eq!(ops.bulk_insert(&rows).unwrap(), 1001);
    let loaded = load_gallery(&ops);
    assert!(loaded.error.is_none());
    assert_eq!(loaded.images.len(), 1001);
    for (k, image) in loaded.images.iter().enumerate() {
        assert_eq!(image.id, k as i64 + 1);
        assert_eq!(image.path, format!("/p/{}.jpg", k + 1));
    }
}
