//! The watch loop's decisions.  The loop itself blocks on the notifier and
//! performs the extraction; what it decides — whether an event triggers a
//! new extraction, and which path was handled last — is here.

use crate::config::{regex_matches, Config};
use crate::paths::{file_name_of, file_name_spec};
use vstd::prelude::*;

verus! {

/// The kind of a file-system change notification.
#[derive(Clone, Copy, Debug, PartialEq, Eq, Structural)]
pub enum EventKind {
    Created,
    Modified,
    Removed,
    Other,
}

/// A file-system change notification: the affected paths, in the order the
/// notifier delivered them, and the kind of change.
pub struct FsEvent {
    pub paths: Vec<String>,
    pub kind: EventKind,
}

/// Whether an event whose affected paths are `paths` triggers an
/// extraction, given the archive pattern `pat` and the most recently
/// handled path `last`: the first affected path's file name matches the
/// pattern and the path is not the one handled last.  The kind of the
/// event plays no part.
pub open spec fn should_extract(
    last: Option<Seq<char>>,
    pat: Seq<char>,
    paths: Seq<Seq<char>>,
) -> bool {
    &&& paths.len() > 0
    &&& regex_matches(pat, file_name_spec(paths[0]))
    &&& last != Some(paths[0])
}

/// The watch loop's own state: the archive path most recently extracted,
/// kept to suppress repeated handling of the same file.
pub struct WatchState {
    last_handled: Option<String>,
}

impl WatchState {
    /// The most recently handled archive path.
    pub closed spec fn last(self) -> Option<Seq<char>> {
        self.last_handled.deep_view()
    }

    /// A fresh state: nothing has been handled yet.
    pub fn new() -> (s: Self)
        ensures
            s.last() is None,
    {
        WatchState { last_handled: None }
    }

    /// Decides whether `event` triggers an extraction: returns the archive
    /// path to extract, or nothing when the event is to be ignored.
    pub fn decide(&self, config: &Config, event: &FsEvent) -> (r: Option<String>)
        ensures
            r is Some <==> should_extract(
                self.last(),
                config.archive_pattern_spec(),
                event.paths.deep_view(),
            ),
            r matches Some(p) ==> p@ == event.paths.deep_view()[0],
    {
        proof {
            assert(event.paths.deep_view().len() == event.paths@.len());
            assert(event.paths@.len() > 0 ==> event.paths.deep_view()[0] == event.paths@[0]@);
        }
        if event.paths.len() == 0 {
            return None;
        }
        let path = &event.paths[0];
        let name = file_name_of(path.as_str());
        if !config.matches_archive_pattern(name) {
            return None;
        }
        let duplicate = match &self.last_handled {
            Some(prev) => *prev == *path,
            None => false,
        };
        if duplicate {
            None
        } else {
            Some(path.clone())
        }
    }

    /// Records that the archive at `path` has been extracted.
    pub fn record_handled(&mut self, path: String)
        ensures
            final(self).last() == Some(path@),
    {
        self.last_handled = Some(path);
    }
}

/// Deduplication of repeated notifications: once an archive path has been
/// recorded as handled, a further event whose first affected path is the
/// same path triggers no second extraction, whatever its kind.
pub proof fn lemma_dedup(
    last: Option<Seq<char>>,
    pat: Seq<char>,
    first: Seq<Seq<char>>,
    second: Seq<Seq<char>>,
)
    requires
        should_extract(last, pat, first),
        second.len() > 0,
        second[0] == first[0],
    ensures
        !should_extract(Some(first[0]), pat, second),
{
}

} // verus!
