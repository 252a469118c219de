//! The watch bridge: turns a change in a watched directory into a queued event.

use vstd::prelude::*;
use vstd::string::StringExecFns;

use crate::event::{reply_view, Event, EventView};

verus! {

/// What happened to an entry of a watched directory.
#[derive(Debug, Clone, Copy, PartialEq, Eq)]
pub enum Change {
    /// A file was created.
    CreatedFile,
    /// A directory was created.
    CreatedDir,
    /// An entry was removed.
    Removed,
    /// Anything else; it is not reported.
    Other,
}

/// The line that reports `change` at `path`, if the change is reported at all.
pub open spec fn report(change: Change, path: Seq<char>) -> Option<Seq<char>> {
    match change {
        Change::CreatedFile => Some("Created FILE: "@ + path),
        Change::CreatedDir => Some("Created DIR: "@ + path),
        Change::Removed => Some("Removed: "@ + path),
        Change::Other => None,
    }
}

/// The event to queue for `change` at `path`: a `Dirmon` that carries the line
/// of [`report`], or nothing where the change is not reported.
pub fn describe(change: Change, path: &str) -> (event: Option<Event>)
    ensures
        reply_view(event) == match report(change, path@) {
            Some(line) => Some(EventView::Dirmon(line)),
            None => None,
        },
{
    let prefix = match change {
        Change::CreatedFile => "Created FILE: ",
        Change::CreatedDir => "Created DIR: ",
        Change::Removed => "Removed: ",
        Change::Other => {
            return None;
        },
    };
    let mut line = String::from_str(prefix);
    line.append(path);
    Some(Event::Dirmon(line))
}

} // verus!
