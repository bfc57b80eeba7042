//! The photo page: thumbnail-strip geometry, the single-photo viewer's
//! navigation, and loading the gallery page by page.

use vstd::prelude::*;

use crate::error::DbError;
use crate::operation::{
    images_outcome, images_view, listed, DatabaseOperations, Image, ListOptions,
};

verus! {

/// Edge length of a square cell of the thumbnail strip.
pub const STRIP_THUMB_SIZE: u32 = 32;

/// Icon size used when no settings schema is installed.
pub const DEFAULT_ICON_SIZE: u32 = 96;

/// Rows fetched per page when loading the gallery.
pub const PAGE_SIZE: u32 = 1000;

/// Edge length of a strip cell, in pixels.
pub fn strip_cell_extent() -> (r: i32)
    ensures
        r == STRIP_THUMB_SIZE,
        r == 32,
{
    STRIP_THUMB_SIZE as i32
}

/// Height of the scrolled strip: one cell plus room for the scrollbar,
/// a quarter of a cell but at least 12 pixels.
pub fn strip_scrolled_height_request() -> (r: i32)
    ensures
        r == STRIP_THUMB_SIZE + (if STRIP_THUMB_SIZE / 4 > 12 {
            STRIP_THUMB_SIZE / 4
        } else {
            12
        }),
        r == 44,
{
    let quarter: i32 = STRIP_THUMB_SIZE as i32 / 4;
    let room: i32 = if quarter > 12 {
        quarter
    } else {
        12
    };
    strip_cell_extent() + room
}

/// The size request of a thumbnail for an icon size: none for 0, else the
/// size as a square (cast to `i32`).
pub fn thumbnail_size_request(icon_size: u32) -> (r: Option<i32>)
    ensures
        icon_size == 0 ==> r is None,
        icon_size > 0 ==> r == Some(icon_size as i32),
{
    if icon_size > 0 {
        Some(icon_size as i32)
    } else {
        None
    }
}

/// The index the viewer opens at, when `index` names one of `n_items`.
pub open spec fn open_index_spec(n_items: u32, index: u32) -> Option<u32> {
    if index < n_items {
        Some(index)
    } else {
        None
    }
}

/// Where activating the thumbnail at `index` opens the viewer, if anywhere.
pub fn open_index(n_items: u32, index: u32) -> (r: Option<u32>)
    ensures
        r == open_index_spec(n_items, index),
        r matches Some(i) ==> i < n_items,
        index < n_items ==> r == Some(index),
        index >= n_items ==> r is None,
{
    if n_items == 0 || index >= n_items {
        None
    } else {
        Some(index)
    }
}

/// Activating any thumbnail of the gallery opens the viewer on that photo;
/// an index past the end opens nothing.
pub proof fn law_open_index(n_items: u32, index: u32)
    ensures
        index < n_items ==> open_index_spec(n_items, index) == Some(index),
        index >= n_items ==> open_index_spec(n_items, index) is None,
{
}

/// The index `delta` photos away from `current`, if it names one of
/// `n_items`.
pub open spec fn step_index_spec(n_items: u32, current: u32, delta: int) -> Option<u32> {
    let i = current + delta;
    if n_items == 0 || i < 0 || i >= n_items {
        None
    } else {
        Some(i as u32)
    }
}

/// Where stepping the viewer by `delta` goes, if anywhere.
pub fn step_index(n_items: u32, current: u32, delta: i32) -> (r: Option<u32>)
    ensures
        r == step_index_spec(n_items, current, delta as int),
        r matches Some(i) ==> i < n_items,
        0 <= current + delta < n_items ==> r == Some((current + delta) as u32),
        !(0 <= current + delta < n_items) ==> r is None,
{
    if n_items == 0 {
        return None;
    }
    let i: i64 = current as i64 + delta as i64;
    if i < 0 || i >= n_items as i64 {
        return None;
    }
    Some(i as u32)
}

/// Whether the viewer's back and forward buttons are enabled at `index`.
pub open spec fn nav_buttons_spec(n_items: u32, index: u32) -> (bool, bool) {
    (index > 0, index + 1 < n_items)
}

/// The sensitivity of the back and forward buttons at `index`.
pub fn nav_buttons(n_items: u32, index: u32) -> (r: (bool, bool))
    ensures
        r == nav_buttons_spec(n_items, index),
        r.0 == (index > 0),
        r.1 == (index + 1 < n_items),
{
    let prev = index > 0;
    let next = (index as u64) + 1 < n_items as u64;
    (prev, next)
}

/// From a photo of the gallery, stepping by `delta` and then by `-delta`
/// returns to that photo.
pub proof fn law_step_back_undoes_step(n_items: u32, current: u32, delta: int)
    requires
        current < n_items,
        step_index_spec(n_items, current, delta) is Some,
    ensures
        step_index_spec(n_items, step_index_spec(n_items, current, delta).unwrap(), -delta) == Some(
            current,
        ),
{
    let ju = (current + delta) as u32;
    assert(step_index_spec(n_items, current, delta) == Some(ju));
    assert(((ju + (-delta)) as u32) == current);
    assert(step_index_spec(n_items, ju, -delta) == Some(current));
}

/// While the viewer shows one of the photos, its back and forward buttons
/// are enabled exactly when a step of one in that direction moves.
pub proof fn law_nav_buttons_match_steps(n_items: u32, index: u32)
    requires
        index < n_items,
    ensures
        nav_buttons_spec(n_items, index).0 == step_index_spec(n_items, index, -1) is Some,
        nav_buttons_spec(n_items, index).1 == step_index_spec(n_items, index, 1) is Some,
{
}

/// The offset of the next page after a page of `batch_len` rows at `offset`,
/// or none when loading stops: a short page is the last, and so is a full
/// one when the offset can grow no more.
pub open spec fn next_page_offset_spec(offset: u32, batch_len: nat) -> Option<u32> {
    let next = if offset + PAGE_SIZE > u32::MAX {
        u32::MAX
    } else {
        (offset + PAGE_SIZE) as u32
    };
    if batch_len < PAGE_SIZE || next == offset {
        None
    } else {
        Some(next)
    }
}

/// Where the next page starts, if one is to be loaded.
pub fn next_page_offset(offset: u32, batch_len: usize) -> (r: Option<u32>)
    ensures
        r == next_page_offset_spec(offset, batch_len as nat),
        r matches Some(o) ==> o > offset,
        batch_len < 1000 ==> r is None,
        batch_len >= 1000 && offset + 1000 <= u32::MAX ==> r == Some((offset + 1000) as u32),
        batch_len >= 1000 && offset + 1000 > u32::MAX && offset < u32::MAX ==> r == Some(u32::MAX),
        offset == u32::MAX ==> r is None,
{
    if batch_len < PAGE_SIZE as usize {
        return None;
    }
    let next: u32 = offset.saturating_add(PAGE_SIZE);
    if next == offset {
        None
    } else {
        Some(next)
    }
}

/// The values of one page as listing answered it: its rows, or none when
/// listing failed.
pub type PageView = Option<Seq<(i64, Seq<char>, Seq<char>)>>;

/// After the pages `pages` (in the order they were requested), all of which
/// were full and let loading go on: the offset of the next page and the rows
/// gathered so far. None when `pages` is not such a run: a page was not
/// requested at the offset its predecessors give, or one of them ends loading.
pub open spec fn gallery_prefix(pages: Seq<PageView>) -> Option<(u32, Seq<(i64, Seq<char>, Seq<char>)>)>
    decreases pages.len(),
{
    if pages.len() == 0 {
        Some((0, seq![]))
    } else {
        match gallery_prefix(pages.drop_last()) {
            None => None,
            Some((offset, rows)) => {
                if !listed(PAGE_SIZE, offset, pages.last()) {
                    None
                } else {
                    match pages.last() {
                        None => None,
                        Some(b) => match next_page_offset_spec(offset, b.len()) {
                            Some(next) => Some((next, rows + b)),
                            None => None,
                        },
                    }
                }
            },
        }
    }
}

/// The outcome of loading the gallery through the pages `pages`: every page
/// but the last was a full page that let loading go on, each requested (with
/// limit [`PAGE_SIZE`]) at the offset its predecessors give, starting at 0;
/// the last page ends loading. The result is the rows of all successful
/// pages in order, and whether loading stopped at a failed page (whose rows
/// are none; the earlier ones are kept). None when `pages` is no such run.
pub open spec fn gallery_trace(pages: Seq<PageView>) -> Option<(Seq<(i64, Seq<char>, Seq<char>)>, bool)> {
    if pages.len() == 0 {
        None
    } else {
        match gallery_prefix(pages.drop_last()) {
            None => None,
            Some((offset, rows)) => {
                if !listed(PAGE_SIZE, offset, pages.last()) {
                    None
                } else {
                    match pages.last() {
                        None => Some((rows, true)),
                        Some(b) => match next_page_offset_spec(offset, b.len()) {
                            Some(_) => None,
                            None => Some((rows + b, false)),
                        },
                    }
                }
            },
        }
    }
}

/// Loading starts with a page of 1000 rows at offset 0: when listing fails
/// there, nothing is loaded and the failure is reported; when that page is
/// short (fewer than 1000 rows), its rows are the whole gallery.
pub proof fn law_gallery_first_page(first: PageView)
    requires
        listed(1000, 0, first),
    ensures
        first is None ==> gallery_trace(seq![first]) == Some(
            (Seq::<(i64, Seq<char>, Seq<char>)>::empty(), true),
        ),
        first is Some && first->0.len() < 1000 ==> gallery_trace(seq![first]) == Some(
            (first->0, false),
        ),
{
    assert(seq![first].drop_last() =~= Seq::<PageView>::empty());
    if first is Some {
        assert(Seq::<(i64, Seq<char>, Seq<char>)>::empty() + first->0 =~= first->0);
    }
}

/// After a full first page (1000 rows at offset 0), the next page is asked
/// for at offset 1000, and a short second page ends loading with the rows of
/// both pages in order; a failed second page keeps the first page's rows and
/// reports the failure.
pub proof fn law_gallery_second_page(first: Seq<(i64, Seq<char>, Seq<char>)>, second: PageView)
    requires
        first.len() == 1000,
        listed(1000, 0, Some(first)),
        listed(1000, 1000, second),
    ensures
        second is None ==> gallery_trace(seq![Some(first), second]) == Some((first, true)),
        second is Some && second->0.len() < 1000 ==> gallery_trace(seq![Some(first), second])
            == Some((first + second->0, false)),
{
    let pages = seq![Some(first), second];
    assert(pages.drop_last() =~= seq![Some(first)]);
    assert(seq![Some(first)].drop_last() =~= Seq::<PageView>::empty());
    assert(Seq::<(i64, Seq<char>, Seq<char>)>::empty() + first =~= first);
    assert(next_page_offset_spec(0, 1000) == Some(1000u32));
    assert(gallery_prefix(Seq::<PageView>::empty()) == Some((0u32, Seq::<(i64, Seq<char>, Seq<char>)>::empty())));
    assert(seq![Some(first)].last() == Some(first));
    assert(gallery_prefix(seq![Some(first)]) == Some((1000u32, first)));
}

/// Where loading goes after one page.
pub enum GalleryStep {
    /// Load the next page, at this offset.
    Next { offset: u32 },
    /// Loading is over; the error of the failed page, if one failed.
    Done { error: Option<DbError> },
}

/// One step of loading the gallery: the page listed at `offset` is appended
/// to `images` when it was read, and loading goes on at the next page
/// exactly when [`next_page_offset`] gives one; a failed page ends loading
/// with its error and adds nothing.
pub fn gallery_step(images: &mut Vec<Image>, offset: u32, page: Result<Vec<Image>, DbError>) -> (r: GalleryStep)
    ensures
        match page {
            Err(e) => final(images)@ == old(images)@ && r == (GalleryStep::Done { error: Some(e) }),
            Ok(b) => final(images)@ == old(images)@ + b@ && match next_page_offset_spec(
                offset,
                b@.len(),
            ) {
                Some(o) => r == (GalleryStep::Next { offset: o }),
                None => r == (GalleryStep::Done { error: None }),
            },
        },
{
    match page {
        Err(e) => GalleryStep::Done { error: Some(e) },
        Ok(mut batch) => {
            let n: usize = batch.len();
            images.append(&mut batch);
            match next_page_offset(offset, n) {
                Some(o) => GalleryStep::Next { offset: o },
                None => GalleryStep::Done { error: None },
            }
        },
    }
}

/// The images loaded for the gallery, and the error that stopped loading, if
/// one did.
pub struct GalleryLoad {
    pub images: Vec<Image>,
    pub error: Option<DbError>,
}

spec fn ok_rows(page: Result<Vec<Image>, DbError>) -> Seq<Image> {
    match page {
        Ok(b) => b@,
        Err(_) => seq![],
    }
}

proof fn lemma_images_view_append(a: Seq<Image>, b: Seq<Image>)
    ensures
        images_view(a + b) == images_view(a) + images_view(b),
{
    assert(images_view(a + b) =~= images_view(a) + images_view(b));
}

/// Loads every image page by page ([`PAGE_SIZE`] rows at a time, at offsets
/// 0, 1000, 2000, ...), appending each page's rows in order, and stops at an
/// empty or short page or at the first failed page; what was loaded before
/// a failure is kept, and the failure is reported.
pub fn load_gallery(ops: &DatabaseOperations) -> (r: GalleryLoad)
    ensures
        exists|pages: Seq<PageView>| #[trigger] gallery_trace(pages) == Some(
            (images_view(r.images@), r.error is Some),
        ),
{
    let mut images: Vec<Image> = Vec::new();
    let mut offset: u32 = 0;
    let ghost mut pages: Seq<PageView> = seq![];
    assert(images_view(images@) =~= Seq::<(i64, Seq<char>, Seq<char>)>::empty());
    loop
        invariant
            gallery_prefix(pages) == Some((offset, images_view(images@))),
        decreases u32::MAX - offset,
    {
        let opts = ListOptions { limit: PAGE_SIZE, offset };
        let page = ops.list(&opts);
        let ghost pv = images_outcome(page);
        let ghost old_images = images@;
        let ghost failed = page is Err;
        let ghost page_rows = ok_rows(page);
        let step = gallery_step(&mut images, offset, page);
        proof {
            let new_pages = pages.push(pv);
            assert(new_pages.drop_last() =~= pages);
            assert(new_pages.last() == pv);
            if !failed {
                lemma_images_view_append(old_images, page_rows);
                assert(images@ == old_images + page_rows);
                assert(pv == Some(images_view(page_rows)));
            } else {
                assert(pv is None);
            }
            pages = new_pages;
        }
        match step {
            GalleryStep::Next { offset: o } => {
                offset = o;
            },
            GalleryStep::Done { error } => {
                proof {
                    assert(gallery_trace(pages) == Some((images_view(images@), error is Some)));
                }
                return GalleryLoad { images, error };
            },
        }
    }
}

} // verus!
