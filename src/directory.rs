//! What the walk over a directory does with each of its entries.
use vstd::prelude::*;
use crate::calendar::Date;
use crate::file::{name_plan, process_file, NamePlan};

verus! {

/// What to do with one entry of a directory listing.
#[derive(Clone, Copy, Debug, PartialEq, Eq, Structural)]
pub enum EntryAction {
    /// A directory, in a recursive walk: walk it with the same flag.
    Descend,
    /// A directory, in a single-level walk: skip it with a warning.
    SkipDirectory,
    /// A file whose name is not valid UTF-8: skip it with an error.
    BadFileName,
    /// A file with a readable name: reconcile it according to the plan.
    File { plan: NamePlan },
}

/// What to do when a directory cannot be listed.
#[derive(Clone, Copy, Debug, PartialEq, Eq, Structural)]
pub enum ListingFailure {
    /// The root of the walk: nothing can be done, the run ends with an error.
    Abort,
    /// A subdirectory: report it and go on with its siblings.
    SkipSubtree,
}

/// The action for a subdirectory.
pub open spec fn directory_action(recursive: bool) -> EntryAction {
    if recursive {
        EntryAction::Descend
    } else {
        EntryAction::SkipDirectory
    }
}

/// The action for a file, given its name if it is valid UTF-8.
pub open spec fn file_action(file_name: Option<Seq<char>>, today: Date) -> EntryAction {
    match file_name {
        None => EntryAction::BadFileName,
        Some(name) => EntryAction::File { plan: name_plan(name, today) },
    }
}

/// Decides what an unreadable directory costs: the whole run only when it is
/// the root of the walk.
pub fn handle_unreadable_directory(is_root: bool) -> (r: ListingFailure)
    ensures
        r == (if is_root {
            ListingFailure::Abort
        } else {
            ListingFailure::SkipSubtree
        }),
{
    if is_root {
        ListingFailure::Abort
    } else {
        ListingFailure::SkipSubtree
    }
}

/// Decides whether to walk into a subdirectory.
pub fn handle_directory_entry(recursive: bool) -> (r: EntryAction)
    ensures
        r == directory_action(recursive),
{
    if recursive {
        EntryAction::Descend
    } else {
        EntryAction::SkipDirectory
    }
}

/// Decides what to do with a file entry, given its name if it is valid UTF-8.
pub fn handle_file_entry(file_name: Option<&str>, today: Date) -> (r: EntryAction)
    ensures
        r == file_action(
            match file_name {
                Some(n) => Some(n@),
                None => None,
            },
            today,
        ),
{
    match file_name {
        Some(name) => EntryAction::File { plan: process_file(name, today) },
        None => EntryAction::BadFileName,
    }
}

} // verus!
