//! What passes between the queue and its driver.

use crate::entry::QueueEntry;
use crate::model::{ActionView, EventView};
use crate::source::{Source, SourceView};
use vstd::prelude::*;

verus! {

/// What the driver of the queue has to do next.
#[derive(Debug, Clone, PartialEq, Eq)]
pub enum Action {
    /// Nothing: no recomputation is in progress.
    Idle,
    /// Resolve `path` in the storage and report `Event::Resolved`.
    Resolve { path: String },
    /// Ask the remote service at `endpoint` for a candidate and report
    /// `Event::Fetched`.
    Fetch { endpoint: String },
    /// Start the transcoder of the stream profile at position `stream` on
    /// `source` and report `Event::Transcoded`. `id` is the correlation number
    /// that all streams of the batch share.
    Transcode { source: Source, stream: usize, id: usize },
}

impl View for Action {
    type V = ActionView;

    open spec fn view(&self) -> ActionView {
        match *self {
            Action::Idle => ActionView::Idle,
            Action::Resolve { path } => ActionView::Resolve { path: path@ },
            Action::Fetch { endpoint } => ActionView::Fetch { endpoint: endpoint@ },
            Action::Transcode { source, stream, id } => ActionView::Transcode {
                source: source@,
                stream: stream as nat,
                id: id as nat,
            },
        }
    }
}

/// The outcome of an action, as the driver reports it. `B` is the type of an
/// encoded buffer.
#[derive(Debug)]
pub enum Event<B> {
    /// The storage resolved the path to this audio, or could not resolve it.
    Resolved(Option<Source>),
    /// The remote service proposed this candidate; `None` where the request,
    /// its status or the decoding of the answer failed.
    Fetched(Option<QueueEntry>),
    /// The transcoder started and handed out this buffer, or could not start.
    Transcoded(Option<B>),
}

/// The mathematical value of what a resolution yielded.
pub open spec fn found_view(found: Option<Source>) -> Option<SourceView> {
    match found {
        Some(source) => Some(source@),
        None => None,
    }
}

impl<B> View for Event<B> {
    type V = EventView<B>;

    open spec fn view(&self) -> EventView<B> {
        match *self {
            Event::Resolved(found) => EventView::Resolved(found_view(found)),
            Event::Fetched(Some(candidate)) => EventView::Fetched(Some(candidate@)),
            Event::Fetched(None) => EventView::Fetched(None),
            Event::Transcoded(started) => EventView::Transcoded(started),
        }
    }
}

} // verus!
