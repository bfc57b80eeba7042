//! File-watch filtering: which directories are watched and which change
//! events are reported.

use vstd::prelude::*;

use crate::paths::{is_hidden_path, is_hidden_path_spec};
use crate::scan::{is_hidden_dir, is_hidden_dir_spec, WalkEntry};

verus! {

/// The kind of a file-system change event.
#[derive(Debug, Clone, Copy, PartialEq, Eq, Structural)]
pub enum EventCategory {
    Any,
    Access,
    Create,
    Modify,
    Remove,
    Other,
}

pub const LABEL_CREATE: &'static str = "Create";

pub const LABEL_MODIFY: &'static str = "Modify";

pub const LABEL_REMOVE: &'static str = "Remove";

pub const LABEL_OTHER: &'static str = "Other";

/// The walk that sets up watches descends into every entry but hidden
/// directories below its root.
pub fn walk_into(e: &WalkEntry) -> (r: bool)
    ensures
        r == !is_hidden_dir_spec(*e),
{
    !is_hidden_dir(e)
}

/// The label under which a change of `path` is reported, or none: changes of
/// hidden paths, and `Any` and `Access` events, are not reported.
pub fn event_label(kind: EventCategory, path: &[u8]) -> (r: Option<&'static str>)
    ensures
        is_hidden_path_spec(path@) ==> r is None,
        !is_hidden_path_spec(path@) ==> r == match kind {
            EventCategory::Create => Some(LABEL_CREATE),
            EventCategory::Modify => Some(LABEL_MODIFY),
            EventCategory::Remove => Some(LABEL_REMOVE),
            EventCategory::Other => Some(LABEL_OTHER),
            EventCategory::Any => None,
            EventCategory::Access => None,
        },
        kind is Any || kind is Access ==> r is None,
        !is_hidden_path_spec(path@) && kind is Create ==> r is Some && r->0@ == "Create"@,
        !is_hidden_path_spec(path@) && kind is Modify ==> r is Some && r->0@ == "Modify"@,
        !is_hidden_path_spec(path@) && kind is Remove ==> r is Some && r->0@ == "Remove"@,
        !is_hidden_path_spec(path@) && kind is Other ==> r is Some && r->0@ == "Other"@,
{
    if is_hidden_path(path) {
        return None;
    }
    match kind {
        EventCategory::Create => Some(LABEL_CREATE),
        EventCategory::Modify => Some(LABEL_MODIFY),
        EventCategory::Remove => Some(LABEL_REMOVE),
        EventCategory::Other => Some(LABEL_OTHER),
        EventCategory::Any => None,
        EventCategory::Access => None,
    }
}

} // verus!
