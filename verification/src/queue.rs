//! The playout queue.

use crate::entry::{entry_views, QueueEntry};
use crate::model::{EventView, PhaseView, QueueView, REMOTE_ATTEMPTS};
use crate::protocol::{found_view, Action, Event};
use crate::source::{Config, ConfigView, Source};
use vstd::prelude::*;

verus! {

/// Where a recomputation stands; `PhaseView` describes the variants.
enum Phase<B> {
    Idle,
    Scan,
    Fetch { left: u8 },
    Probe { left: u8, candidate: QueueEntry },
    Build { source: Source, partial: Vec<B> },
}

impl<B> View for Phase<B> {
    type V = PhaseView<B>;

    closed spec fn view(&self) -> PhaseView<B> {
        match *self {
            Phase::Idle => PhaseView::Idle,
            Phase::Scan => PhaseView::Scan,
            Phase::Fetch { left } => PhaseView::Fetch { left: left as nat },
            Phase::Probe { left, candidate } => PhaseView::Probe {
                left: left as nat,
                candidate: candidate@,
            },
            Phase::Build { source, partial } => PhaseView::Build {
                source: source@,
                partial: partial@,
            },
        }
    }
}

/// The mathematical value of a batch that may be absent.
pub open spec fn batch_view<B>(next: Option<Vec<B>>) -> Option<Seq<B>> {
    match next {
        Some(batch) => Some(batch@),
        None => None,
    }
}

/// All of a queue that changes. The configuration stays with the queue; the
/// state knows its mathematical value.
struct State<B> {
    entries: Vec<QueueEntry>,
    next: Option<Vec<B>>,
    counter: usize,
    phase: Phase<B>,
    config: Ghost<ConfigView>,
}

impl<B> State<B> {
    /// The state of the queue that these parts make up.
    spec fn model(&self) -> QueueView<B> {
        QueueView {
            entries: entry_views(self.entries@),
            next: batch_view(self.next),
            counter: self.counter as nat,
            phase: self.phase@,
            config: self.config@,
        }
    }

    /// The state of a new queue.
    fn fresh(config: Ghost<ConfigView>) -> (state: Self)
        ensures
            state.model() == QueueView::<B>::fresh(config@),
    {
        let state = State {
            entries: Vec::new(),
            next: None,
            counter: 0,
            phase: Phase::Idle,
            config,
        };
        assert(entry_views(state.entries@) =~= Seq::empty());
        state
    }

    /// Starts the selection of a source from scratch.
    fn next_buffer(&mut self)
        ensures
            final(self).model() == old(self).model().select(),
    {
        if self.entries.is_empty() {
            self.phase = Phase::Fetch { left: REMOTE_ATTEMPTS };
        } else {
            self.phase = Phase::Scan;
        }
    }

    /// Appends `qe`; selection starts if it has become the head.
    fn push(&mut self, qe: QueueEntry)
        ensures
            final(self).model() == old(self).model().push(qe@),
    {
        self.entries.push(qe);
        assert(entry_views(self.entries@) =~= entry_views(old(self).entries@).push(qe@));
        if self.entries.len() == 1 {
            self.next_buffer();
        }
    }

    /// Makes `qe` the head and starts selection.
    fn push_head(&mut self, qe: QueueEntry)
        ensures
            final(self).model() == old(self).model().push_head(qe@),
    {
        self.entries.insert(0, qe);
        assert(entry_views(self.entries@) =~= seq![qe@] + entry_views(old(self).entries@));
        self.next_buffer();
    }

    /// Removes the tail entry; selection starts if no entry is left.
    fn pop(&mut self)
        ensures
            final(self).model() == old(self).model().pop(),
    {
        self.entries.pop();
        assert(old(self).entries@.len() > 0 ==> entry_views(self.entries@) =~= entry_views(
            old(self).entries@,
        ).drop_last());
        if self.entries.len() == 0 {
            self.next_buffer();
        }
    }

    /// Removes the head, if there is one, and starts selection.
    fn pop_head(&mut self)
        ensures
            final(self).model() == old(self).model().pop_head(),
    {
        if !self.entries.is_empty() {
            self.entries.remove(0);
            assert(entry_views(self.entries@) =~= entry_views(old(self).entries@).drop_first());
        }
        self.next_buffer();
    }

    /// Removes all entries and starts selection.
    fn clear(&mut self)
        ensures
            final(self).model() == old(self).model().clear(),
    {
        self.entries.clear();
        assert(entry_views(self.entries@) =~= Seq::empty());
        self.next_buffer();
    }

    /// Stages `batch` under the current correlation number.
    fn stage(&mut self, batch: Vec<B>)
        requires
            old(self).counter < usize::MAX,
        ensures
            final(self).model() == old(self).model().stage(batch@),
    {
        self.next = Some(batch);
        self.counter = self.counter + 1;
        self.phase = Phase::Idle;
    }

    /// Begins the construction of a batch from `source`.
    fn initiate_transcode(&mut self, cfg: &Config, source: Source)
        requires
            cfg@ == old(self).config@,
            old(self).model().construct(source@).counter <= usize::MAX,
        ensures
            final(self).model() == old(self).model().construct(source@),
    {
        if cfg.streams == 0 {
            self.stage(Vec::new());
        } else {
            self.phase = Phase::Build { source, partial: Vec::new() };
        }
    }

    /// The storage has answered for the head of the queue: the head is
    /// selected, or it leaves the queue and selection goes on behind it.
    fn next_queue_buffer(&mut self, cfg: &Config, found: Option<Source>)
        requires
            old(self).entries@.len() > 0,
            cfg@ == old(self).config@,
            (QueueView { phase: PhaseView::Scan, ..old(self).model() }).step(
                EventView::Resolved(found_view(found)),
            ).counter <= usize::MAX,
        ensures
            final(self).model() == (QueueView { phase: PhaseView::Scan, ..old(self).model() }).step(
                EventView::Resolved(found_view(found)),
            ),
    {
        match found {
            Some(source) => {
                self.initiate_transcode(cfg, source);
            },
            None => {
                self.entries.remove(0);
                assert(entry_views(self.entries@) =~= entry_views(old(self).entries@).drop_first());
                self.next_buffer();
            },
        }
    }

    /// A remote attempt has ended, with `left` attempts remaining before it:
    /// what it found is selected, or the service is asked again, or, after the
    /// last attempt, the static fallback is selected.
    fn random_buffer(&mut self, cfg: &Config, left: u8, found: Option<Source>)
        requires
            cfg@ == old(self).config@,
            (match found {
                Some(source) => old(self).model().construct(source@),
                None => old(self).model().miss(left as nat),
            }).counter <= usize::MAX,
        ensures
            final(self).model() == (match found {
                Some(source) => old(self).model().construct(source@),
                None => old(self).model().miss(left as nat),
            }),
    {
        match found {
            Some(source) => {
                self.initiate_transcode(cfg, source);
            },
            None => {
                if left > 1 {
                    self.phase = Phase::Fetch { left: left - 1 };
                } else {
                    self.initiate_transcode(cfg, cfg.fallback.share());
                }
            },
        }
    }

    /// The transcoder of the next stream profile has answered: its buffer
    /// joins the batch, which is staged once it is complete; a failure drops
    /// the buffers collected so far and starts selection from scratch.
    fn collect(&mut self, cfg: &Config, source: Source, partial: Vec<B>, started: Option<B>)
        requires
            cfg@ == old(self).config@,
            (QueueView {
                phase: PhaseView::Build { source: source@, partial: partial@ },
                ..old(self).model()
            }).step(EventView::Transcoded(started)).counter <= usize::MAX,
        ensures
            final(self).model() == (QueueView {
                phase: PhaseView::Build { source: source@, partial: partial@ },
                ..old(self).model()
            }).step(EventView::Transcoded(started)),
    {
        match started {
            Some(buffer) => {
                let mut partial = partial;
                partial.push(buffer);
                if partial.len() >= cfg.streams {
                    self.stage(partial);
                } else {
                    self.phase = Phase::Build { source, partial };
                }
            },
            None => {
                self.next_buffer();
            },
        }
    }

    /// Takes in the outcome of the pending action. The phase is taken apart
    /// by value; it is put back where the event answers nothing.
    fn step(&mut self, cfg: &Config, event: Event<B>)
        requires
            old(self).model().inv(),
            cfg@ == old(self).config@,
            old(self).model().step(event@).counter <= usize::MAX,
        ensures
            final(self).model() == old(self).model().step(event@),
    {
        let mut phase = Phase::Idle;
        std::mem::swap(&mut self.phase, &mut phase);
        match (phase, event) {
            (Phase::Scan, Event::Resolved(found)) => {
                self.next_queue_buffer(cfg, found);
            },
            (Phase::Fetch { left }, Event::Fetched(Some(candidate))) => {
                self.phase = Phase::Probe { left, candidate };
            },
            (Phase::Fetch { left }, Event::Fetched(None)) => {
                self.random_buffer(cfg, left, None);
            },
            (Phase::Probe { left, .. }, Event::Resolved(found)) => {
                self.random_buffer(cfg, left, found);
            },
            (Phase::Build { source, partial }, Event::Transcoded(started)) => {
                self.collect(cfg, source, partial, started);
            },
            (phase, _) => {
                self.phase = phase;
            },
        }
    }

    /// The action that the phase asks for.
    fn pending(&self, cfg: &Config) -> (action: Action)
        requires
            self.model().inv(),
            cfg@ == self.config@,
        ensures
            action@ == self.model().pending(),
    {
        match &self.phase {
            Phase::Idle => Action::Idle,
            Phase::Scan => Action::Resolve { path: self.entries[0].path.clone() },
            Phase::Fetch { .. } => Action::Fetch { endpoint: cfg.random.clone() },
            Phase::Probe { candidate, .. } => Action::Resolve { path: candidate.path.clone() },
            Phase::Build { source, partial } => Action::Transcode {
                source: source.share(),
                stream: partial.len(),
                id: self.counter,
            },
        }
    }
    /// Hands out the staged batch, or starts the selection where nothing is
    /// staged and nothing is in progress.
    fn get_next_tc(&mut self) -> (batch: Option<Vec<B>>)
        ensures
            final(self).model() == old(self).model().take(),
            batch_view(batch) == (if old(self).model().staged() {
                old(self).model().next
            } else {
                None
            }),
    {
        if !self.idle() {
            None
        } else if self.next.is_some() {
            self.next.take()
        } else {
            self.next_buffer();
            None
        }
    }

    /// Whether no recomputation is in progress.
    fn idle(&self) -> (idle: bool)
        ensures
            idle == (self.model().phase is Idle),
    {
        match self.phase {
            Phase::Idle => true,
            _ => false,
        }
    }
}

/// The playout queue of a station: the pending entries, head first, and the
/// batch of encoded buffers that is staged for the next slot, one buffer of
/// type `B` per stream profile.
///
/// The queue does no I/O. An operation that changes which source is due starts
/// a recomputation of the batch and returns the first [`Action`] of it; its
/// driver carries each action out, reports the outcome to [`Queue::step`] and
/// goes on with the action that `step` returns, until that is
/// [`Action::Idle`]. The queue is then idle again and the new batch is staged.
/// A recomputation has no bound on its length: whenever a transcoder fails to
/// start, the selection begins again.
///
/// A mutation may come while a recomputation is in progress. If it is one
/// that starts a recomputation, the one in progress is dropped for it;
/// otherwise the one in progress goes on as it was.
pub struct Queue<B> {
    state: State<B>,
    cfg: Config,
}

impl<B> View for Queue<B> {
    type V = QueueView<B>;

    closed spec fn view(&self) -> QueueView<B> {
        self.state.model()
    }
}

impl<B> Queue<B> {
    /// The state belongs to the configuration and satisfies the invariant of
    /// the model.
    #[verifier::type_invariant]
    spec fn well_formed(&self) -> bool {
        &&& self.state.config@ == self.cfg@
        &&& self.state.model().inv()
    }

    /// Takes the state out of the queue and leaves that of a new queue.
    fn lift(&mut self) -> (state: State<B>)
        ensures
            state == old(self).state,
            final(self).cfg == old(self).cfg,
    {
        let mut state = State::fresh(Ghost(self.cfg@));
        std::mem::swap(&mut self.state, &mut state);
        state
    }

    /// A queue with no entry and no staged batch, in which no recomputation
    /// is in progress.
    pub fn new(cfg: Config) -> (queue: Queue<B>)
        ensures
            queue@ == QueueView::<B>::fresh(cfg@),
            queue@.inv(),
    {
        Queue { state: State::fresh(Ghost(cfg@)), cfg }
    }

    /// Appends `qe`. A recomputation of the batch starts if and only if `qe`
    /// has become the head, that is, if the queue was empty. The result is
    /// the action that is pending after the call, as for every mutation.
    pub fn push(&mut self, qe: QueueEntry) -> (action: Action)
        ensures
            final(self)@ == old(self)@.push(qe@),
            final(self)@.inv(),
            final(self)@.counter <= usize::MAX,
            action@ == final(self)@.pending(),
    {
        proof {
            use_type_invariant(&*self);
        }
        let mut state = self.lift();
        state.push(qe);
        let action = state.pending(&self.cfg);
        self.state = state;
        action
    }

    /// Inserts `qe` before all other entries. A recomputation of the batch
    /// starts.
    pub fn push_head(&mut self, qe: QueueEntry) -> (action: Action)
        ensures
            final(self)@ == old(self)@.push_head(qe@),
            final(self)@.inv(),
            final(self)@.counter <= usize::MAX,
            action@ == final(self)@.pending(),
    {
        proof {
            use_type_invariant(&*self);
        }
        let mut state = self.lift();
        state.push_head(qe);
        let action = state.pending(&self.cfg);
        self.state = state;
        action
    }

    /// Removes the tail entry, if there is one. A recomputation of the batch
    /// starts if and only if no entry is left.
    pub fn pop(&mut self) -> (action: Action)
        ensures
            final(self)@ == old(self)@.pop(),
            final(self)@.inv(),
            final(self)@.counter <= usize::MAX,
            action@ == final(self)@.pending(),
    {
        proof {
            use_type_invariant(&*self);
        }
        let mut state = self.lift();
        state.pop();
        let action = state.pending(&self.cfg);
        self.state = state;
        action
    }

    /// Removes the head, if there is one. A recomputation of the batch
    /// starts, also where the queue was empty.
    pub fn pop_head(&mut self) -> (action: Action)
        ensures
            final(self)@ == old(self)@.pop_head(),
            final(self)@.inv(),
            final(self)@.counter <= usize::MAX,
            action@ == final(self)@.pending(),
    {
        proof {
            use_type_invariant(&*self);
        }
        let mut state = self.lift();
        state.pop_head();
        let action = state.pending(&self.cfg);
        self.state = state;
        action
    }

    /// Removes all entries. A recomputation of the batch starts.
    pub fn clear(&mut self) -> (action: Action)
        ensures
            final(self)@ == old(self)@.clear(),
            final(self)@.inv(),
            final(self)@.counter <= usize::MAX,
            action@ == final(self)@.pending(),
    {
        proof {
            use_type_invariant(&*self);
        }
        let mut state = self.lift();
        state.clear();
        let action = state.pending(&self.cfg);
        self.state = state;
        action
    }

    /// Starts a recomputation of the batch from scratch and returns its first
    /// action. Whatever recomputation was in progress is dropped.
    pub fn start_next_tc(&mut self) -> (action: Action)
        ensures
            final(self)@ == old(self)@.select(),
            final(self)@.inv(),
            final(self)@.counter <= usize::MAX,
            action@ == final(self)@.pending(),
    {
        proof {
            use_type_invariant(&*self);
        }
        let mut state = self.lift();
        state.next_buffer();
        let action = state.pending(&self.cfg);
        self.state = state;
        action
    }

    /// Hands out the staged batch and leaves the slot empty. Where no batch
    /// is staged the result is `None`; a recomputation is then in progress,
    /// started by this call if none was, and [`Queue::pending`] tells its next
    /// action. Once that recomputation has ended, the next call hands out its
    /// batch.
    pub fn get_next_tc(&mut self) -> (batch: Option<Vec<B>>)
        ensures
            final(self)@ == old(self)@.take(),
            final(self)@.inv(),
            final(self)@.counter <= usize::MAX,
            batch is Some <==> old(self)@.staged(),
            batch matches Some(buffers) ==> old(self)@.next == Some(buffers@) && buffers@.len()
                == old(self)@.config.streams,
    {
        proof {
            use_type_invariant(&*self);
        }
        let mut state = self.lift();
        let batch = state.get_next_tc();
        self.state = state;
        batch
    }

    /// Takes in the outcome of the pending action and returns the action that
    /// is pending after it. An event that does not answer the pending action
    /// is ignored.
    ///
    /// Where the event completes a batch, the correlation number grows by
    /// one: it must not have reached `usize::MAX` then.
    pub fn step(&mut self, event: Event<B>) -> (action: Action)
        requires
            old(self)@.step(event@).counter <= usize::MAX,
        ensures
            final(self)@ == old(self)@.step(event@),
            final(self)@.inv(),
            final(self)@.counter <= usize::MAX,
            action@ == final(self)@.pending(),
    {
        proof {
            use_type_invariant(&*self);
        }
        let mut state = self.lift();
        state.step(&self.cfg, event);
        let action = state.pending(&self.cfg);
        self.state = state;
        action
    }

    /// The action that the driver has to carry out next; [`Action::Idle`]
    /// where no recomputation is in progress.
    pub fn pending(&self) -> (action: Action)
        ensures
            action@ == self@.pending(),
            self@.inv(),
            self@.counter <= usize::MAX,
    {
        proof {
            use_type_invariant(self);
        }
        self.state.pending(&self.cfg)
    }

    /// The pending entries, head first.
    pub fn entries(&self) -> (entries: &Vec<QueueEntry>)
        ensures
            entry_views(entries@) == self@.entries,
    {
        &self.state.entries
    }

    /// The batch in the slot. While a recomputation is in progress this is
    /// still the batch that it will replace.
    pub fn next(&self) -> (next: &Option<Vec<B>>)
        ensures
            batch_view(*next) == self@.next,
    {
        &self.state.next
    }

    /// The correlation number that the next completed batch takes: the
    /// number of batches completed so far.
    pub fn counter(&self) -> (counter: usize)
        ensures
            counter == self@.counter,
    {
        self.state.counter
    }

    /// The configuration that the queue was made with.
    pub fn config(&self) -> (cfg: &Config)
        ensures
            cfg@ == self@.config,
    {
        proof {
            use_type_invariant(self);
        }
        &self.cfg
    }
}

} // verus!
