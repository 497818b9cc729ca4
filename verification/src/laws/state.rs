//! The invariant of the queue and what no report can change.

use crate::entry::EntryView;
use crate::model::{answers, EventView, QueueView};
use crate::source::ConfigView;
use vstd::prelude::*;

verus! {

/// A new queue satisfies the invariant, and nothing is staged in it.
pub proof fn lemma_fresh_inv<B>(config: ConfigView)
    ensures
        QueueView::<B>::fresh(config).inv(),
        !QueueView::<B>::fresh(config).staged(),
{
}

/// No mutation of the entries and no request for the batch breaks the
/// invariant: a batch in the slot is never partial.
pub proof fn lemma_mutations_keep_inv<B>(s: QueueView<B>, entry: EntryView)
    requires
        s.inv(),
    ensures
        s.select().inv(),
        s.push(entry).inv(),
        s.push_head(entry).inv(),
        s.pop().inv(),
        s.pop_head().inv(),
        s.clear().inv(),
        s.take().inv(),
{
}

/// No report of the driver breaks the invariant, whatever it reports: a batch
/// is staged only when it holds one buffer for each stream profile.
pub proof fn lemma_step_keeps_inv<B>(s: QueueView<B>, event: EventView<B>)
    requires
        s.inv(),
    ensures
        s.step(event).inv(),
{
}

/// A recomputation ends only by staging a complete batch, which takes the
/// next correlation number. No other report changes the slot or the number,
/// so the number counts the batches completed and never falls.
pub proof fn lemma_recomputation_ends_with_a_complete_batch<B>(
    s: QueueView<B>,
    event: EventView<B>,
)
    requires
        s.inv(),
    ensures
        !(s.phase is Idle) && s.step(event).phase is Idle ==> {
            &&& s.step(event).counter == s.counter + 1
            &&& s.step(event).next matches Some(batch)
            &&& batch.len() == s.config.streams
        },
        !(!(s.phase is Idle) && s.step(event).phase is Idle) ==> {
            &&& s.step(event).counter == s.counter
            &&& s.step(event).next == s.next
        },
        s.step(event).config == s.config,
{
}

/// A report that is no outcome of the pending action changes nothing; while
/// the queue is idle that is every report.
pub proof fn lemma_stray_report_is_ignored<B>(s: QueueView<B>, event: EventView<B>)
    requires
        !answers(event, s.pending()),
    ensures
        s.step(event) == s,
{
}

} // verus!
