//! Which source the selection ends with, and that it ends.

use crate::entry::EntryView;
use crate::model::{answers, EventView, PhaseView, QueueView, REMOTE_ATTEMPTS};
use crate::source::SourceView;
use vstd::prelude::*;

verus! {

/// How many entries at the head of `entries` the storage cannot resolve.
pub open spec fn unresolvable_prefix(
    entries: Seq<EntryView>,
    storage: spec_fn(Seq<char>) -> Option<SourceView>,
) -> nat
    decreases entries.len(),
{
    if entries.len() == 0 || storage(entries[0].path) is Some {
        0
    } else {
        1 + unresolvable_prefix(entries.drop_first(), storage)
    }
}

/// `unresolvable_prefix` counts the entries before the first one that the
/// storage resolves: none of them resolves, and the entry behind them does,
/// if there is one.
pub proof fn lemma_unresolvable_prefix(
    entries: Seq<EntryView>,
    storage: spec_fn(Seq<char>) -> Option<SourceView>,
)
    ensures
        unresolvable_prefix(entries, storage) <= entries.len(),
        forall|i: int|
            0 <= i < unresolvable_prefix(entries, storage) ==> storage(
                #[trigger] entries[i].path,
            ) is None,
        unresolvable_prefix(entries, storage) < entries.len() ==> storage(
            entries[unresolvable_prefix(entries, storage) as int].path,
        ) is Some,
    decreases entries.len(),
{
    if entries.len() > 0 && storage(entries[0].path) is None {
        let rest = entries.drop_first();
        lemma_unresolvable_prefix(rest, storage);
        let k = unresolvable_prefix(entries, storage);
        assert forall|i: int| 0 <= i < k implies storage(#[trigger] entries[i].path) is None by {
            if i > 0 {
                assert(entries[i] == rest[i - 1]);
            }
        }
        assert(k < entries.len() ==> entries[k as int] == rest[k as int - 1]);
    }
}

/// The state in which the scan of the queue ends, where the driver answers
/// each request for a path by what `storage` holds for it.
pub open spec fn scanned<B>(
    s: QueueView<B>,
    storage: spec_fn(Seq<char>) -> Option<SourceView>,
) -> QueueView<B>
    decreases s.entries.len(),
{
    if s.phase is Scan && s.entries.len() > 0 {
        let found = storage(s.entries[0].path);
        let t = s.step(EventView::Resolved(found));
        if found is None {
            scanned(t, storage)
        } else {
            t
        }
    } else {
        s
    }
}

/// The scan discards, from the head on, exactly the entries that the storage
/// cannot resolve and that stand before the first one it can. That entry
/// stays the head, with all entries behind it, and its audio is selected; if
/// there is none, the queue is empty afterwards and the remote service is
/// asked. No entry that the storage can resolve is discarded.
pub proof fn lemma_scan_discards_unresolvable_prefix<B>(
    s: QueueView<B>,
    storage: spec_fn(Seq<char>) -> Option<SourceView>,
)
    requires
        s.phase is Scan,
        s.entries.len() > 0,
    ensures
        ({
            let k = unresolvable_prefix(s.entries, storage);
            let kept = s.entries.skip(k as int);
            &&& k <= s.entries.len()
            &&& forall|i: int| 0 <= i < k ==> storage(#[trigger] s.entries[i].path) is None
            &&& k < s.entries.len() ==> storage(s.entries[k as int].path) is Some
            &&& scanned(s, storage).entries == kept
            &&& k < s.entries.len() ==> scanned(s, storage) == (QueueView {
                entries: kept,
                ..s
            }).construct(storage(kept[0].path).unwrap())
            &&& k == s.entries.len() ==> scanned(s, storage) == (QueueView {
                entries: kept,
                phase: PhaseView::Fetch { left: REMOTE_ATTEMPTS as nat },
                ..s
            })
        }),
    decreases s.entries.len(),
{
    lemma_unresolvable_prefix(s.entries, storage);
    let found = storage(s.entries[0].path);
    if found is None {
        let rest = s.step(EventView::Resolved(None));
        let k = unresolvable_prefix(s.entries, storage);
        assert(k == 1 + unresolvable_prefix(rest.entries, storage));
        if rest.entries.len() > 0 {
            lemma_scan_discards_unresolvable_prefix(rest, storage);
            assert(s.entries.skip(k as int) =~= rest.entries.skip(k as int - 1));
        } else {
            assert(s.entries.skip(k as int) =~= rest.entries);
        }
    } else {
        assert(s.entries.skip(0) =~= s.entries);
    }
}

/// The state after one failed remote attempt: the request failed, or the
/// service proposed `candidate` and the storage could not resolve it.
pub open spec fn failed_attempt<B>(s: QueueView<B>, candidate: Option<EntryView>) -> QueueView<B> {
    match candidate {
        None => s.step(EventView::Fetched(None)),
        Some(entry) => s.step(EventView::Fetched(Some(entry))).step(EventView::Resolved(None)),
    }
}

/// The state after the failed remote attempts `attempts`, in their order.
pub open spec fn failed_attempts<B>(
    s: QueueView<B>,
    attempts: Seq<Option<EntryView>>,
) -> QueueView<B>
    decreases attempts.len(),
{
    if attempts.len() == 0 {
        s
    } else {
        failed_attempts(failed_attempt(s, attempts[0]), attempts.drop_first())
    }
}

/// Failed remote attempts leave the entries, the slot and the correlation
/// number untouched and only count down; the static fallback is selected
/// when the last of the remaining attempts has failed, and not before.
pub proof fn lemma_failed_attempts_fall_back<B>(
    s: QueueView<B>,
    attempts: Seq<Option<EntryView>>,
)
    requires
        s.phase is Fetch,
        1 <= s.phase->Fetch_left,
        attempts.len() <= s.phase->Fetch_left,
    ensures
        attempts.len() < s.phase->Fetch_left ==> failed_attempts(s, attempts) == (QueueView {
            phase: PhaseView::Fetch { left: (s.phase->Fetch_left - attempts.len()) as nat },
            ..s
        }),
        attempts.len() == s.phase->Fetch_left ==> failed_attempts(s, attempts) == s.construct(
            s.config.fallback,
        ),
    decreases attempts.len(),
{
    if attempts.len() > 0 {
        let t = failed_attempt(s, attempts[0]);
        if s.phase->Fetch_left > 1 {
            lemma_failed_attempts_fall_back(t, attempts.drop_first());
        } else {
            assert(attempts.drop_first().len() == 0);
        }
    }
}

/// How many reports the selection of a source can still take in state `s`:
/// one for each entry, and two for each remote attempt.
pub open spec fn selection_bound<B>(s: QueueView<B>) -> nat {
    match s.phase {
        PhaseView::Scan => s.entries.len() + 2 * (REMOTE_ATTEMPTS as nat),
        PhaseView::Fetch { left } => 2 * left,
        PhaseView::Probe { left, .. } => (2 * left - 1) as nat,
        _ => 0,
    }
}

/// Selection always ends: each outcome that the driver reports while a
/// source is being selected either selects one or lowers `selection_bound`.
/// Whatever the storage and the remote service answer, a source is selected
/// after at most one report for each entry and two for each remote attempt.
pub proof fn lemma_selection_ends<B>(s: QueueView<B>, event: EventView<B>)
    requires
        s.inv(),
        s.phase is Scan || s.phase is Fetch || s.phase is Probe,
        answers(event, s.pending()),
    ensures
        s.step(event).phase is Build || s.step(event).staged() || selection_bound(s.step(event))
            < selection_bound(s),
        s.step(event).phase is Build ==> s.step(event).phase->partial.len() == 0,
{
}

/// The state in which selection ends, where the driver answers each request
/// for a path by what `storage` holds for it, and the remote service answers
/// the request for its `n`-th candidate, counted from 0, by `remote(n)`.
pub open spec fn selected<B>(
    s: QueueView<B>,
    storage: spec_fn(Seq<char>) -> Option<SourceView>,
    remote: spec_fn(nat) -> Option<EntryView>,
) -> QueueView<B>
    decreases selection_bound(s),
{
    match s.phase {
        PhaseView::Scan => if s.entries.len() > 0 {
            selected(s.step(EventView::Resolved(storage(s.entries[0].path))), storage, remote)
        } else {
            s
        },
        PhaseView::Fetch { left } => if 1 <= left <= REMOTE_ATTEMPTS {
            selected(
                s.step(EventView::Fetched(remote((REMOTE_ATTEMPTS - left) as nat))),
                storage,
                remote,
            )
        } else {
            s
        },
        PhaseView::Probe { left, candidate } => if 1 <= left <= REMOTE_ATTEMPTS {
            selected(s.step(EventView::Resolved(storage(candidate.path))), storage, remote)
        } else {
            s
        },
        _ => s,
    }
}

/// The audio of the first candidate that the storage resolves, among those
/// that the remote service proposes from its `from`-th answer up to its last
/// attempt; `None` if there is none.
pub open spec fn remote_choice(
    storage: spec_fn(Seq<char>) -> Option<SourceView>,
    remote: spec_fn(nat) -> Option<EntryView>,
    from: nat,
) -> Option<SourceView>
    decreases REMOTE_ATTEMPTS - from,
{
    if from >= REMOTE_ATTEMPTS {
        None
    } else {
        match remote(from) {
            Some(candidate) if storage(candidate.path) is Some => storage(candidate.path),
            _ => remote_choice(storage, remote, from + 1),
        }
    }
}

/// The source that the selection policy names: the audio of the first entry
/// that the storage resolves; without one, the audio of the first resolvable
/// candidate of the remote service; without one, the static fallback.
pub open spec fn choice(
    entries: Seq<EntryView>,
    storage: spec_fn(Seq<char>) -> Option<SourceView>,
    remote: spec_fn(nat) -> Option<EntryView>,
    fallback: SourceView,
) -> SourceView {
    let k = unresolvable_prefix(entries, storage);
    if k < entries.len() {
        storage(entries[k as int].path).unwrap()
    } else {
        match remote_choice(storage, remote, 0) {
            Some(source) => source,
            None => fallback,
        }
    }
}

/// The remote tier of the policy: with `left` attempts remaining, selection
/// ends with the first resolvable candidate among the remaining answers, or
/// with the static fallback, and the entries stay as they are.
pub proof fn lemma_remote_selection<B>(
    s: QueueView<B>,
    storage: spec_fn(Seq<char>) -> Option<SourceView>,
    remote: spec_fn(nat) -> Option<EntryView>,
)
    requires
        s.phase is Fetch,
        1 <= s.phase->Fetch_left <= REMOTE_ATTEMPTS,
    ensures
        selected(s, storage, remote) == s.construct(
            match remote_choice(storage, remote, (REMOTE_ATTEMPTS - s.phase->Fetch_left) as nat) {
                Some(source) => source,
                None => s.config.fallback,
            },
        ),
    decreases s.phase->Fetch_left,
{
    let left = s.phase->Fetch_left;
    let from = (REMOTE_ATTEMPTS - left) as nat;
    let fetched = s.step(EventView::Fetched(remote(from)));
    assert(selected(s, storage, remote) == selected(fetched, storage, remote));
    let found = match remote(from) {
        Some(candidate) => storage(candidate.path),
        None => None,
    };
    let probed = match remote(from) {
        Some(candidate) => fetched.step(EventView::Resolved(storage(candidate.path))),
        None => fetched,
    };
    assert(selected(fetched, storage, remote) == selected(probed, storage, remote));
    match found {
        Some(source) => {
            assert(probed == s.construct(source));
        },
        None => {
            assert(probed == s.miss(left));
            if left > 1 {
                lemma_remote_selection(probed, storage, remote);
                assert(forall|source: SourceView| probed.construct(source) == s.construct(source));
            } else {
                assert(remote_choice(storage, remote, from + 1) is None);
            }
        },
    }
}

/// The selection policy. Whatever the queue holds when selection starts, it
/// ends with the source that `choice` names: the unresolvable entries at the
/// head are gone, the first resolvable entry is selected and stays the head;
/// where no entry resolves the queue is empty and the remote service
/// decides, and where it proposes nothing resolvable in all its attempts,
/// the static fallback is selected.
pub proof fn lemma_selection_policy<B>(
    s: QueueView<B>,
    storage: spec_fn(Seq<char>) -> Option<SourceView>,
    remote: spec_fn(nat) -> Option<EntryView>,
)
    ensures
        selected(s.select(), storage, remote) == (QueueView {
            entries: s.entries.skip(unresolvable_prefix(s.entries, storage) as int),
            ..s
        }).construct(choice(s.entries, storage, remote, s.config.fallback)),
    decreases s.entries.len(),
{
    let k = unresolvable_prefix(s.entries, storage);
    let start = s.select();
    if s.entries.len() == 0 {
        assert(s.entries.skip(0) =~= s.entries);
        lemma_remote_selection(start, storage, remote);
        assert(forall|source: SourceView| start.construct(source) == s.construct(source));
    } else {
        let found = storage(s.entries[0].path);
        let t = start.step(EventView::Resolved(found));
        assert(selected(start, storage, remote) == selected(t, storage, remote));
        match found {
            Some(source) => {
                assert(s.entries.skip(0) =~= s.entries);
                assert(t == s.construct(source));
            },
            None => {
                let rest = QueueView { entries: s.entries.drop_first(), ..s };
                assert(t == rest.select());
                lemma_selection_policy(rest, storage, remote);
                lemma_unresolvable_prefix(s.entries, storage);
                assert(k == 1 + unresolvable_prefix(rest.entries, storage));
                assert(s.entries.skip(k as int) =~= rest.entries.skip(k as int - 1));
                assert(k < s.entries.len() ==> s.entries[k as int] == rest.entries[k as int - 1]);
                assert(forall|source: SourceView|
                    (QueueView { entries: rest.entries.skip(k as int - 1), ..rest }).construct(
                        source,
                    ) == (QueueView { entries: s.entries.skip(k as int), ..s }).construct(source));
            },
        }
    }
}

} // verus!
