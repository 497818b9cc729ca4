//! The queue as a mathematical state machine.
//!
//! A state is a [`QueueView`]. The mutations of the queue and the outcomes
//! that its driver reports are transitions between states, and
//! [`QueueView::pending`] reads off a state what the driver has to do next.

use crate::entry::EntryView;
use crate::source::{ConfigView, SourceView};
use vstd::prelude::*;

verus! {

/// How often the remote service is asked before the static fallback is used.
pub const REMOTE_ATTEMPTS: u8 = 10;

/// Where a recomputation of the next batch stands.
pub enum PhaseView<B> {
    /// No recomputation is in progress.
    Idle,
    /// The head of the queue is being resolved.
    Scan,
    /// The remote service is being asked for a candidate; `left` attempts
    /// remain, this one included.
    Fetch { left: nat },
    /// The candidate that the remote service proposed is being resolved.
    Probe { left: nat, candidate: EntryView },
    /// A source is selected; `partial` holds the buffers of the first
    /// `partial.len()` stream profiles, and the next profile is being started.
    Build { source: SourceView, partial: Seq<B> },
}

/// What the driver of the queue is asked to do.
pub enum ActionView {
    /// Nothing: no recomputation is in progress.
    Idle,
    /// Resolve `path` in the storage.
    Resolve { path: Seq<char> },
    /// Ask the remote service at `endpoint` for a candidate.
    Fetch { endpoint: Seq<char> },
    /// Start the transcoder of the stream profile at position `stream` on
    /// `source`, for the batch with correlation number `id`.
    Transcode { source: SourceView, stream: nat, id: nat },
}

/// What the driver reports back.
pub enum EventView<B> {
    /// The storage resolved the path, or could not.
    Resolved(Option<SourceView>),
    /// The remote service proposed a candidate, or the request or the decoding
    /// of its answer failed.
    Fetched(Option<EntryView>),
    /// The transcoder started and handed out its buffer, or could not start.
    Transcoded(Option<B>),
}

/// The state of a queue whose encoded buffers have type `B`.
pub struct QueueView<B> {
    /// The pending entries, head first.
    pub entries: Seq<EntryView>,
    /// The staged batch, profile by profile.
    pub next: Option<Seq<B>>,
    /// The correlation number of the batch that is built next.
    pub counter: nat,
    pub phase: PhaseView<B>,
    pub config: ConfigView,
}

/// The head of a sequence of entries, if it has one.
pub open spec fn head_of(entries: Seq<EntryView>) -> Option<EntryView> {
    if entries.len() > 0 {
        Some(entries[0])
    } else {
        None
    }
}

/// The report `event` is an outcome of the action `action`.
pub open spec fn answers<B>(event: EventView<B>, action: ActionView) -> bool {
    match (action, event) {
        (ActionView::Resolve { .. }, EventView::Resolved(_)) => true,
        (ActionView::Fetch { .. }, EventView::Fetched(_)) => true,
        (ActionView::Transcode { .. }, EventView::Transcoded(_)) => true,
        _ => false,
    }
}

impl<B> QueueView<B> {
    /// The state of a new queue: nothing pending, nothing staged.
    pub open spec fn fresh(config: ConfigView) -> Self {
        QueueView {
            entries: Seq::empty(),
            next: None,
            counter: 0,
            phase: PhaseView::Idle,
            config,
        }
    }

    /// What holds of every state that a queue can reach: a staged batch is
    /// complete, and the phase fits the entries and the configuration.
    pub open spec fn inv(self) -> bool {
        &&& self.next matches Some(batch) ==> batch.len() == self.config.streams
        &&& match self.phase {
            PhaseView::Idle => true,
            PhaseView::Scan => self.entries.len() > 0,
            PhaseView::Fetch { left } => 1 <= left <= REMOTE_ATTEMPTS && self.entries.len() == 0,
            PhaseView::Probe { left, .. } => 1 <= left <= REMOTE_ATTEMPTS && self.entries.len()
                == 0,
            PhaseView::Build { partial, .. } => partial.len() < self.config.streams,
        }
    }

    /// A batch is staged and no recomputation is in progress.
    pub open spec fn staged(self) -> bool {
        self.phase is Idle && self.next is Some
    }

    /// Selection starts from scratch: at the head of the queue, or at the
    /// remote service where the queue is empty. Whatever was in progress is
    /// dropped; a staged batch stays until the new one replaces it.
    pub open spec fn select(self) -> Self {
        QueueView {
            phase: if self.entries.len() > 0 {
                PhaseView::Scan
            } else {
                PhaseView::Fetch { left: REMOTE_ATTEMPTS as nat }
            },
            ..self
        }
    }

    /// The entries become `entries`, and selection starts from scratch if
    /// `recompute` says so.
    pub open spec fn mutate(self, entries: Seq<EntryView>, recompute: bool) -> Self {
        let changed = QueueView { entries, ..self };
        if recompute {
            changed.select()
        } else {
            changed
        }
    }

    /// `entry` is appended. The head changes only if the queue was empty.
    pub open spec fn push(self, entry: EntryView) -> Self {
        self.mutate(self.entries.push(entry), self.entries.len() == 0)
    }

    /// `entry` becomes the head.
    pub open spec fn push_head(self, entry: EntryView) -> Self {
        self.mutate(seq![entry] + self.entries, true)
    }

    /// The tail entry leaves. Selection starts from scratch if no entry is
    /// left.
    pub open spec fn pop(self) -> Self {
        if self.entries.len() > 0 {
            self.mutate(self.entries.drop_last(), self.entries.len() == 1)
        } else {
            self.mutate(self.entries, true)
        }
    }

    /// The head leaves, if there is one.
    pub open spec fn pop_head(self) -> Self {
        if self.entries.len() > 0 {
            self.mutate(self.entries.drop_first(), true)
        } else {
            self.mutate(self.entries, true)
        }
    }

    /// All entries leave.
    pub open spec fn clear(self) -> Self {
        self.mutate(Seq::empty(), true)
    }

    /// `batch` is staged under the current correlation number, which ends the
    /// recomputation.
    pub open spec fn stage(self, batch: Seq<B>) -> Self {
        QueueView {
            next: Some(batch),
            counter: self.counter + 1,
            phase: PhaseView::Idle,
            ..self
        }
    }

    /// Construction of a batch from `source` begins. With no stream profile
    /// configured the empty batch is complete at once.
    pub open spec fn construct(self, source: SourceView) -> Self {
        if self.config.streams == 0 {
            self.stage(Seq::empty())
        } else {
            QueueView { phase: PhaseView::Build { source, partial: Seq::empty() }, ..self }
        }
    }

    /// A remote attempt failed with `left` attempts remaining, this one
    /// included: the service is asked again, or, after the last attempt, the
    /// static fallback is selected.
    pub open spec fn miss(self, left: nat) -> Self {
        if left > 1 {
            QueueView { phase: PhaseView::Fetch { left: (left - 1) as nat }, ..self }
        } else {
            self.construct(self.config.fallback)
        }
    }

    /// The state after the driver has reported `event`. An event that does
    /// not answer the pending action changes nothing.
    pub open spec fn step(self, event: EventView<B>) -> Self {
        match (self.phase, event) {
            (PhaseView::Scan, EventView::Resolved(Some(source))) => self.construct(source),
            (PhaseView::Scan, EventView::Resolved(None)) => QueueView {
                entries: self.entries.drop_first(),
                ..self
            }.select(),
            (PhaseView::Fetch { left }, EventView::Fetched(Some(candidate))) => QueueView {
                phase: PhaseView::Probe { left, candidate },
                ..self
            },
            (PhaseView::Fetch { left }, EventView::Fetched(None)) => self.miss(left),
            (PhaseView::Probe { .. }, EventView::Resolved(Some(source))) => self.construct(
                source,
            ),
            (PhaseView::Probe { left, .. }, EventView::Resolved(None)) => self.miss(left),
            (PhaseView::Build { source, partial }, EventView::Transcoded(Some(buffer))) => {
                if partial.len() + 1 >= self.config.streams {
                    self.stage(partial.push(buffer))
                } else {
                    QueueView {
                        phase: PhaseView::Build { source, partial: partial.push(buffer) },
                        ..self
                    }
                }
            },
            (PhaseView::Build { .. }, EventView::Transcoded(None)) => self.select(),
            _ => self,
        }
    }

    /// What the driver has to do in this state.
    pub open spec fn pending(self) -> ActionView {
        match self.phase {
            PhaseView::Idle => ActionView::Idle,
            PhaseView::Scan => ActionView::Resolve { path: self.entries[0].path },
            PhaseView::Fetch { .. } => ActionView::Fetch { endpoint: self.config.random },
            PhaseView::Probe { candidate, .. } => ActionView::Resolve { path: candidate.path },
            PhaseView::Build { source, partial } => ActionView::Transcode {
                source,
                stream: partial.len(),
                id: self.counter,
            },
        }
    }

    /// The state after a request for the next batch: a staged batch is handed
    /// out and the slot is left empty; with nothing staged and nothing in
    /// progress, selection starts.
    pub open spec fn take(self) -> Self {
        if self.staged() {
            QueueView { next: None, ..self }
        } else if self.phase is Idle {
            self.select()
        } else {
            self
        }
    }
}

} // verus!
