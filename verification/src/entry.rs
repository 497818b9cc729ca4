//! A pending reference to one audio source.

use vstd::prelude::*;

verus! {

/// The mathematical value of a [`QueueEntry`].
pub struct EntryView {
    pub id: i64,
    pub path: Seq<char>,
}

/// A reference to one audio source: an externally assigned identifier and the
/// path under which the storage finds the audio.
#[derive(Debug, Clone, PartialEq, Eq)]
pub struct QueueEntry {
    pub id: i64,
    pub path: String,
}

impl View for QueueEntry {
    type V = EntryView;

    open spec fn view(&self) -> EntryView {
        EntryView { id: self.id, path: self.path@ }
    }
}

/// The mathematical values of a sequence of entries, in the same order.
pub open spec fn entry_views(entries: Seq<QueueEntry>) -> Seq<EntryView> {
    entries.map_values(|entry: QueueEntry| entry@)
}

impl QueueEntry {
    /// Makes the entry with the given identifier and path.
    pub fn new(id: i64, path: String) -> (entry: QueueEntry)
        ensures
            entry.id == id,
            entry.path == path,
            entry@ == (EntryView { id, path: path@ }),
    {
        QueueEntry { id: id, path: path }
    }
}

} // verus!
