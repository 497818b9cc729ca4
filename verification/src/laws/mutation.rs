//! When a mutation of the entries recomputes the batch.

use crate::entry::EntryView;
use crate::model::{head_of, QueueView};
use vstd::prelude::*;

verus! {

/// A mutation of the entries.
pub enum Op {
    Push(EntryView),
    PushHead(EntryView),
    Pop,
    PopHead,
    Clear,
}

impl Op {
    /// The entries after the mutation of `before`.
    pub open spec fn entries(self, before: Seq<EntryView>) -> Seq<EntryView> {
        match self {
            Op::Push(entry) => before.push(entry),
            Op::PushHead(entry) => seq![entry] + before,
            Op::Pop => if before.len() > 0 {
                before.drop_last()
            } else {
                before
            },
            Op::PopHead => if before.len() > 0 {
                before.drop_first()
            } else {
                before
            },
            Op::Clear => Seq::empty(),
        }
    }

    /// Whether the mutation of `before` starts a recomputation of the batch:
    /// an append does so on an empty queue, a removal at the tail when it
    /// leaves the queue empty, every other mutation always.
    pub open spec fn recomputes(self, before: Seq<EntryView>) -> bool {
        match self {
            Op::Push(_) => before.len() == 0,
            Op::Pop => before.len() <= 1,
            _ => true,
        }
    }
}

/// The state after the mutation `op`.
pub open spec fn apply<B>(s: QueueView<B>, op: Op) -> QueueView<B> {
    match op {
        Op::Push(entry) => s.push(entry),
        Op::PushHead(entry) => s.push_head(entry),
        Op::Pop => s.pop(),
        Op::PopHead => s.pop_head(),
        Op::Clear => s.clear(),
    }
}

/// The state after the mutations `ops`, in their order, with no report of the
/// driver between them.
pub open spec fn run<B>(s: QueueView<B>, ops: Seq<Op>) -> QueueView<B>
    decreases ops.len(),
{
    if ops.len() == 0 {
        s
    } else {
        run(apply(s, ops[0]), ops.drop_first())
    }
}

/// The entries after the mutations `ops` of `before`.
pub open spec fn entries_after(before: Seq<EntryView>, ops: Seq<Op>) -> Seq<EntryView>
    decreases ops.len(),
{
    if ops.len() == 0 {
        before
    } else {
        entries_after(ops[0].entries(before), ops.drop_first())
    }
}

/// None of the mutations `ops` of `before` starts a recomputation.
pub open spec fn quiet(before: Seq<EntryView>, ops: Seq<Op>) -> bool
    decreases ops.len(),
{
    ops.len() == 0 || (!ops[0].recomputes(before) && quiet(
        ops[0].entries(before),
        ops.drop_first(),
    ))
}

/// A mutation starts a recomputation exactly where `Op::recomputes` says so,
/// and that is wherever the head changes: if the head after the mutation
/// differs from the head before it, the batch is recomputed, and an append
/// recomputes in no other case. A mutation that recomputes starts selection
/// from scratch on the new entries; one that does not changes the entries and
/// nothing else.
pub proof fn lemma_recomputes_on_head_change<B>(s: QueueView<B>, op: Op)
    ensures
        apply(s, op) == s.mutate(op.entries(s.entries), op.recomputes(s.entries)),
        head_of(op.entries(s.entries)) != head_of(s.entries) ==> op.recomputes(s.entries),
        op is Push ==> (op.recomputes(s.entries) <==> head_of(op.entries(s.entries)) != head_of(
            s.entries,
        )),
        op is Pop ==> (op.recomputes(s.entries) <==> op.entries(s.entries).len() == 0),
        op.recomputes(s.entries) ==> apply(s, op) == (QueueView {
            entries: op.entries(s.entries),
            ..s
        }).select() && !(apply(s, op).phase is Idle),
        !op.recomputes(s.entries) ==> apply(s, op) == (QueueView {
            entries: op.entries(s.entries),
            ..s
        }),
{
}

/// Over any sequence of mutations the slot and the correlation number stay
/// as they are, and the queue is idle afterwards if and only if it was idle
/// before and none of the mutations started a recomputation.
pub proof fn lemma_run_recomputes<B>(s: QueueView<B>, ops: Seq<Op>)
    ensures
        run(s, ops).entries == entries_after(s.entries, ops),
        run(s, ops).next == s.next,
        run(s, ops).counter == s.counter,
        run(s, ops).config == s.config,
        run(s, ops).phase is Idle <==> s.phase is Idle && quiet(s.entries, ops),
        quiet(s.entries, ops) ==> run(s, ops).phase == s.phase,
        s.inv() ==> run(s, ops).inv(),
    decreases ops.len(),
{
    if ops.len() > 0 {
        lemma_recomputes_on_head_change(s, ops[0]);
        lemma_run_recomputes(apply(s, ops[0]), ops.drop_first());
    }
}

} // verus!
