# inspyr

The library behind the Inspyr photo gallery, written in Verus.

- `src/connection.rs`: where the database lives (`<scan dir>/.inspyr/gallery.db`), opening it, the schema.
- `src/operation.rs`: rows of the `images` table and the CRUD, listing and bulk operations.
- `src/sqlite.rs`: the rusqlite calls, each behind a trusted wrapper.
- `src/paths.rs`: Unix path rules on bytes (final component, extension, hidden names, image files, joining).
- `src/scan.rs`, `src/watch.rs`: what a directory scan records and prunes, what the watcher reports.
- `src/viewer.rs`, `src/header.rs`: photo-page geometry, viewer navigation, paging, header button state.

`app/` holds the daemon (`main`), the directory walk, the file watcher and the GTK widgets,
which call into the library for every decision.
