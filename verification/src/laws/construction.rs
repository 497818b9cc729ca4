//! How a batch is built from the selected source.

use crate::entry::EntryView;
use crate::laws::selection::{choice, lemma_selection_policy, selected, unresolvable_prefix};
use crate::model::{ActionView, EventView, PhaseView, QueueView};
use crate::source::SourceView;
use vstd::prelude::*;

verus! {

/// The state after the buffers of the next stream profiles have been
/// reported, in their order.
pub open spec fn delivered<B>(s: QueueView<B>, buffers: Seq<B>) -> QueueView<B>
    decreases buffers.len(),
{
    if buffers.len() == 0 {
        s
    } else {
        delivered(s.step(EventView::Transcoded(Some(buffers[0]))), buffers.drop_first())
    }
}

/// A batch is built in profile order. While it is under construction, the
/// driver is asked for the stream profile whose position is the number of
/// buffers collected, always on the selected source and under the same
/// correlation number. When the buffers of all remaining profiles have been
/// reported, the batch is staged and holds every reported buffer at the
/// position of its profile.
pub proof fn lemma_batch_in_profile_order<B>(s: QueueView<B>, buffers: Seq<B>)
    requires
        s.inv(),
        s.phase is Build,
        s.phase->partial.len() + buffers.len() <= s.config.streams,
    ensures
        forall|i: int|
            0 <= i < buffers.len() ==> (#[trigger] delivered(s, buffers.take(i))).pending() == (
            ActionView::Transcode {
                source: s.phase->source,
                stream: (s.phase->partial.len() + i) as nat,
                id: s.counter,
            }),
        s.phase->partial.len() + buffers.len() < s.config.streams ==> delivered(s, buffers) == (
        QueueView {
            phase: PhaseView::Build {
                source: s.phase->source,
                partial: s.phase->partial + buffers,
            },
            ..s
        }),
        s.phase->partial.len() + buffers.len() == s.config.streams ==> delivered(s, buffers)
            == s.stage(s.phase->partial + buffers),
    decreases buffers.len(),
{
    if buffers.len() == 0 {
        assert(s.phase->partial + buffers =~= s.phase->partial);
    } else {
        let t = s.step(EventView::Transcoded(Some(buffers[0])));
        let rest = buffers.drop_first();
        if s.phase->partial.len() + 1 < s.config.streams {
            lemma_batch_in_profile_order(t, rest);
        } else {
            assert(rest.len() == 0);
        }
        assert(s.phase->partial.push(buffers[0]) + rest =~= s.phase->partial + buffers);
        assert forall|i: int| 0 <= i < buffers.len() implies (#[trigger] delivered(
            s,
            buffers.take(i),
        )).pending() == (ActionView::Transcode {
            source: s.phase->source,
            stream: (s.phase->partial.len() + i) as nat,
            id: s.counter,
        }) by {
            if i > 0 {
                assert(buffers.take(i).drop_first() =~= rest.take(i - 1));
                assert(buffers.take(i)[0] == buffers[0]);
                assert(delivered(s, buffers.take(i)) == delivered(t, rest.take(i - 1)));
            } else {
                assert(buffers.take(0).len() == 0);
            }
        }
    }
}

/// A transcoder that fails to start discards the buffers collected so far,
/// whatever their number: selection begins again from scratch, and the slot
/// and the correlation number stay as they were.
pub proof fn lemma_failed_start_discards<B>(s: QueueView<B>)
    requires
        s.phase is Build,
    ensures
        s.step(EventView::Transcoded(None)) == s.select(),
        s.step(EventView::Transcoded(None)).next == s.next,
        s.step(EventView::Transcoded(None)).counter == s.counter,
        !(s.step(EventView::Transcoded(None)).phase is Build),
{
}

/// A whole recomputation in which every transcoder starts. Selection ends
/// with the source that the policy names; every stream profile is then
/// started on that one source, in profile order and under the correlation
/// number that the queue had; and the batch that is staged holds the buffer of
/// each profile at the position of the profile. Only the unresolvable entries
/// at the head have left the queue, and the correlation number has grown by
/// one.
pub proof fn lemma_recomputation_stages_the_chosen_source<B>(
    s: QueueView<B>,
    storage: spec_fn(Seq<char>) -> Option<SourceView>,
    remote: spec_fn(nat) -> Option<EntryView>,
    buffers: Seq<B>,
)
    requires
        s.inv(),
        buffers.len() == s.config.streams,
    ensures
        ({
            let chosen = selected(s.select(), storage, remote);
            &&& forall|i: int|
                0 <= i < buffers.len() ==> (#[trigger] delivered(
                    chosen,
                    buffers.take(i),
                )).pending() == (ActionView::Transcode {
                    source: choice(s.entries, storage, remote, s.config.fallback),
                    stream: i as nat,
                    id: s.counter,
                })
            &&& delivered(chosen, buffers) == (QueueView {
                entries: s.entries.skip(unresolvable_prefix(s.entries, storage) as int),
                next: Some(buffers),
                counter: s.counter + 1,
                phase: PhaseView::Idle,
                config: s.config,
            })
        }),
{
    lemma_selection_policy(s, storage, remote);
    let chosen = selected(s.select(), storage, remote);
    if s.config.streams == 0 {
        assert(buffers =~= Seq::empty());
    } else {
        lemma_batch_in_profile_order(chosen, buffers);
        assert(Seq::<B>::empty() + buffers =~= buffers);
    }
}

} // verus!
