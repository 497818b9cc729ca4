//! Handing out the staged batch.

use crate::model::QueueView;
use vstd::prelude::*;

verus! {

/// A completed recomputation leaves its batch staged: the request that
/// follows it is served and empties the slot.
pub proof fn lemma_stage_is_staged<B>(s: QueueView<B>, batch: Seq<B>)
    ensures
        s.stage(batch).staged(),
        s.stage(batch).next == Some(batch),
        s.stage(batch).take().next is None,
        s.stage(batch).counter == s.counter + 1,
{
}

/// A batch that was handed out is gone: the request that follows it finds
/// the slot empty and starts a recomputation, so that the batch it leads to
/// is a new one.
pub proof fn lemma_take_consumes<B>(s: QueueView<B>)
    requires
        s.staged(),
    ensures
        s.take().next is None,
        !s.take().staged(),
        s.take().take() == s.take().select(),
        !(s.take().take().phase is Idle),
        s.take().take().next is None,
{
}

} // verus!
