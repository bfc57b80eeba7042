//! The main window's header: the search button doubles as "back to grid"
//! while a single photo is shown.

use vstd::prelude::*;
use vstd::string::*;

use crate::paths::text_eq;

verus! {

/// Name of the main stack's photos page.
pub const PHOTOS_PAGE: &'static str = "photos";

/// Name of the photo page's single-photo view.
pub const PHOTO_VIEW: &'static str = "photo_view";

/// Name of the photo page's thumbnail grid.
pub const THUMBNAIL_VIEW: &'static str = "thumbnail_view";

pub const ICON_BACK: &'static str = "go-previous-symbolic";

pub const ICON_SEARCH: &'static str = "edit-find-symbolic";

/// Tooltip message (before translation) of the button in "back" mode.
pub const TOOLTIP_BACK: &'static str = "Back to grid";

/// Tooltip message (before translation) of the button in search mode.
pub const TOOLTIP_SEARCH: &'static str = "Search";

/// The header shows "back" when the photos page is visible and it shows a
/// single photo.
pub open spec fn shows_photo_back_spec(main_page: Option<Seq<char>>, photo_page: Option<Seq<char>>) -> bool {
    main_page == Some(PHOTOS_PAGE@) && photo_page == Some(PHOTO_VIEW@)
}

fn is_named(page: &Option<String>, name: &str) -> (r: bool)
    ensures
        r == (page matches Some(p) && p@ == name@),
{
    match page {
        Some(p) => text_eq(p.as_str(), name),
        None => false,
    }
}

/// Whether the header button acts as "back to grid", from the names of the
/// visible children of the main stack and of the photo page's stack.
pub fn shows_photo_back(main_page: &Option<String>, photo_page: &Option<String>) -> (r: bool)
    ensures
        r == shows_photo_back_spec(
            match main_page {
                Some(p) => Some(p@),
                None => None,
            },
            match photo_page {
                Some(p) => Some(p@),
                None => None,
            },
        ),
        r == ((match main_page {
            Some(m) => m@ == "photos"@,
            None => false,
        }) && (match photo_page {
            Some(p) => p@ == "photo_view"@,
            None => false,
        })),
{
    if !is_named(main_page, PHOTOS_PAGE) {
        return false;
    }
    is_named(photo_page, PHOTO_VIEW)
}

/// How the header button looks, and whether syncing it closes the search
/// bar and releases the button.
pub struct SearchButtonState {
    pub icon_name: &'static str,
    pub tooltip: &'static str,
    pub close_search: bool,
}

/// The button's state for the current view.
pub fn search_button_state(shows_back: bool) -> (r: SearchButtonState)
    ensures
        shows_back ==> r.icon_name == ICON_BACK && r.tooltip == TOOLTIP_BACK && r.close_search,
        !shows_back ==> r.icon_name == ICON_SEARCH && r.tooltip == TOOLTIP_SEARCH && !r.close_search,
        shows_back ==> r.icon_name@ == "go-previous-symbolic"@ && r.tooltip@ == "Back to grid"@,
        !shows_back ==> r.icon_name@ == "edit-find-symbolic"@ && r.tooltip@ == "Search"@,
{
    if shows_back {
        SearchButtonState { icon_name: ICON_BACK, tooltip: TOOLTIP_BACK, close_search: true }
    } else {
        SearchButtonState { icon_name: ICON_SEARCH, tooltip: TOOLTIP_SEARCH, close_search: false }
    }
}

/// What toggling the header button does.
#[derive(Debug, Clone, Copy, PartialEq, Eq, Structural)]
pub enum ToggleAction {
    /// Show or hide the search bar.
    SetSearchMode(bool),
    /// Close the single-photo viewer and release the button.
    CloseViewer,
    /// Nothing.
    Nothing,
}

/// The effect of the button becoming `active` (or not): outside the viewer it
/// shows or hides the search bar; in the viewer, pressing it goes back.
pub open spec fn search_toggled_spec(shows_back: bool, active: bool) -> ToggleAction {
    if !shows_back {
        ToggleAction::SetSearchMode(active)
    } else if active {
        ToggleAction::CloseViewer
    } else {
        ToggleAction::Nothing
    }
}

/// What toggling the header button does.
pub fn search_toggled(shows_back: bool, active: bool) -> (r: ToggleAction)
    ensures
        r == search_toggled_spec(shows_back, active),
        !shows_back ==> r == ToggleAction::SetSearchMode(active),
        shows_back && active ==> r == ToggleAction::CloseViewer,
        shows_back && !active ==> r == ToggleAction::Nothing,
{
    if !shows_back {
        ToggleAction::SetSearchMode(active)
    } else if active {
        ToggleAction::CloseViewer
    } else {
        ToggleAction::Nothing
    }
}

/// While a single photo is shown, the header button never opens the search
/// bar.
pub proof fn law_back_mode_never_searches(active: bool)
    ensures
        !(search_toggled_spec(true, active) matches ToggleAction::SetSearchMode(true)),
{
}

/// Pressing the button while a single photo is shown closes the viewer;
/// once the photo page shows its grid again, the header leaves back mode, so
/// the button is the search button again.
pub proof fn law_back_press_returns_to_grid()
    ensures
        search_toggled_spec(true, true) == ToggleAction::CloseViewer,
        !shows_photo_back_spec(Some(PHOTOS_PAGE@), Some(THUMBNAIL_VIEW@)),
{
    reveal_strlit("thumbnail_view");
    reveal_strlit("photo_view");
    assert(THUMBNAIL_VIEW@[0] != PHOTO_VIEW@[0]);
}

} // verus!
