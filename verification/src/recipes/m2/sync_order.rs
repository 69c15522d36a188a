//! The order of the phases in the plans of a push and of a pull.

use crate::context::ContextView;
use crate::paths;
use crate::recipes::m2::sync::{
    pull_batch, pull_plan, pull_tasks, push_batch, push_plan, push_tasks, PullPhase, PushPhase,
};
use crate::snapshot::LocalEntryView;
use crate::task::TaskView;
use vstd::prelude::*;

verus! {

/// How many of the paths have more than one component.
pub open spec fn nested_count(trailing: Seq<Seq<char>>) -> nat
    decreases trailing.len(),
{
    if trailing.len() == 0 {
        0
    } else {
        nested_count(trailing.drop_last()) + if paths::component_count(trailing.last()) > 1 {
            1nat
        } else {
            0nat
        }
    }
}

/// A push phase that plans one task for each path yields a batch with the
/// task of the k-th path at place k.
pub proof fn lemma_push_singles(phase: PushPhase, ctx: ContextView, trailing: Seq<Seq<char>>)
    requires
        phase == PushPhase::Exists,
    ensures
        push_batch(phase, ctx, trailing).len() == trailing.len(),
        forall|k: int|
            0 <= k < trailing.len() ==> #[trigger] push_batch(phase, ctx, trailing)[k]
                == push_tasks(phase, ctx, trailing[k])[0],
    decreases trailing.len(),
{
    if trailing.len() > 0 {
        lemma_push_singles(phase, ctx, trailing.drop_last());
    }
}

/// A push phase that plans two tasks for each path yields a batch with
/// the tasks of the k-th path at places 2k and 2k + 1.
pub proof fn lemma_push_pairs(phase: PushPhase, ctx: ContextView, trailing: Seq<Seq<char>>)
    requires
        phase == PushPhase::Delete || phase == PushPhase::Copy,
    ensures
        push_batch(phase, ctx, trailing).len() == 2 * trailing.len(),
        forall|k: int|
            0 <= k < trailing.len() ==> {
                &&& push_batch(phase, ctx, trailing)[2 * k] == push_tasks(
                    phase,
                    ctx,
                    #[trigger] trailing[k],
                )[0]
                &&& push_batch(phase, ctx, trailing)[2 * k + 1] == push_tasks(
                    phase,
                    ctx,
                    trailing[k],
                )[1]
            },
    decreases trailing.len(),
{
    if trailing.len() > 0 {
        let front = trailing.drop_last();
        lemma_push_pairs(phase, ctx, front);
        assert forall|k: int| 0 <= k < trailing.len() implies {
            &&& push_batch(phase, ctx, trailing)[2 * k] == push_tasks(
                phase,
                ctx,
                #[trigger] trailing[k],
            )[0]
            &&& push_batch(phase, ctx, trailing)[2 * k + 1] == push_tasks(
                phase,
                ctx,
                trailing[k],
            )[1]
        } by {
            if k < front.len() {
                assert(front[k] == trailing[k]);
            }
        }
    }
}

/// The batch that makes the parent directories holds one command for each
/// path with more than one component, and nothing else.
pub proof fn lemma_push_recreates(ctx: ContextView, trailing: Seq<Seq<char>>)
    ensures
        push_batch(PushPhase::Recreate, ctx, trailing).len() == nested_count(trailing),
        forall|j: int|
            0 <= j < nested_count(trailing) ==> #[trigger] push_batch(
                PushPhase::Recreate,
                ctx,
                trailing,
            )[j] is SimpleCommand,
    decreases trailing.len(),
{
    if trailing.len() > 0 {
        lemma_push_recreates(ctx, trailing.drop_last());
    }
}

/// A push plans its tasks in the fixed order of the phases: first the
/// check of every source, then the deletion of every target with its
/// notice, then the parent directory of every path that has more than one
/// component, then the copy of every path with its notice. The number of
/// directory commands is the number of paths with more than one component.
pub proof fn lemma_push_phase_order(ctx: ContextView, trailing: Seq<Seq<char>>)
    ensures
        ({
            let n = trailing.len() as int;
            let m = nested_count(trailing) as int;
            let plan = push_plan(ctx, trailing);
            &&& plan.len() == 5 * n + m
            &&& plan.subrange(0, n) == push_batch(PushPhase::Exists, ctx, trailing)
            &&& plan.subrange(n, 3 * n) == push_batch(PushPhase::Delete, ctx, trailing)
            &&& plan.subrange(3 * n, 3 * n + m) == push_batch(PushPhase::Recreate, ctx, trailing)
            &&& plan.subrange(3 * n + m, 5 * n + m) == push_batch(PushPhase::Copy, ctx, trailing)
            &&& forall|k: int|
                0 <= k < n ==> {
                    &&& plan[k] == push_tasks(PushPhase::Exists, ctx, #[trigger] trailing[k])[0]
                    &&& plan[k] is FileExists
                    &&& plan[n + 2 * k] == push_tasks(PushPhase::Delete, ctx, trailing[k])[0]
                    &&& plan[n + 2 * k] is SimpleCommand
                    &&& plan[n + 2 * k + 1] == push_tasks(PushPhase::Delete, ctx, trailing[k])[1]
                    &&& plan[n + 2 * k + 1] is Notify
                    &&& plan[3 * n + m + 2 * k] == push_tasks(
                        PushPhase::Copy,
                        ctx,
                        trailing[k],
                    )[0]
                    &&& plan[3 * n + m + 2 * k] is SimpleCommand
                    &&& plan[3 * n + m + 2 * k + 1] == push_tasks(
                        PushPhase::Copy,
                        ctx,
                        trailing[k],
                    )[1]
                    &&& plan[3 * n + m + 2 * k + 1] is Notify
                }
            &&& forall|j: int| 3 * n <= j < 3 * n + m ==> #[trigger] plan[j] is SimpleCommand
        }),
{
    lemma_push_singles(PushPhase::Exists, ctx, trailing);
    lemma_push_pairs(PushPhase::Delete, ctx, trailing);
    lemma_push_recreates(ctx, trailing);
    lemma_push_pairs(PushPhase::Copy, ctx, trailing);
}

/// A pull phase that plans one task for each path yields a batch with the
/// task of the k-th path at place k.
pub proof fn lemma_pull_singles(
    phase: PullPhase,
    ctx: ContextView,
    snapshot: Seq<LocalEntryView>,
    trailing: Seq<Seq<char>>,
)
    requires
        phase == PullPhase::Exists || phase == PullPhase::Copy,
    ensures
        pull_batch(phase, ctx, snapshot, trailing).len() == trailing.len(),
        forall|k: int|
            0 <= k < trailing.len() ==> #[trigger] pull_batch(phase, ctx, snapshot, trailing)[k]
                == pull_tasks(phase, ctx, snapshot, trailing[k])[0],
    decreases trailing.len(),
{
    if trailing.len() > 0 {
        lemma_pull_singles(phase, ctx, snapshot, trailing.drop_last());
    }
}

/// The batch that makes the local targets ready holds at most three tasks
/// for each path.
pub proof fn lemma_pull_reconcile_len(
    ctx: ContextView,
    snapshot: Seq<LocalEntryView>,
    trailing: Seq<Seq<char>>,
)
    ensures
        pull_batch(PullPhase::Reconcile, ctx, snapshot, trailing).len() <= 3 * trailing.len(),
    decreases trailing.len(),
{
    if trailing.len() > 0 {
        lemma_pull_reconcile_len(ctx, snapshot, trailing.drop_last());
    }
}

/// A pull plans its tasks in the fixed order of the phases: first the
/// check of every source in the container, then what makes the local
/// targets ready (for each path no task, one task or three, as the
/// snapshot has it), then for every path one group of exactly two tasks,
/// the copy and its notice.
pub proof fn lemma_pull_phase_order(
    ctx: ContextView,
    snapshot: Seq<LocalEntryView>,
    trailing: Seq<Seq<char>>,
)
    ensures
        ({
            let n = trailing.len() as int;
            let r = pull_batch(PullPhase::Reconcile, ctx, snapshot, trailing).len() as int;
            let plan = pull_plan(ctx, snapshot, trailing);
            &&& 0 <= r <= 3 * n
            &&& plan.len() == 2 * n + r
            &&& plan.subrange(0, n) == pull_batch(PullPhase::Exists, ctx, snapshot, trailing)
            &&& plan.subrange(n, n + r) == pull_batch(
                PullPhase::Reconcile,
                ctx,
                snapshot,
                trailing,
            )
            &&& plan.subrange(n + r, 2 * n + r) == pull_batch(
                PullPhase::Copy,
                ctx,
                snapshot,
                trailing,
            )
            &&& forall|k: int|
                0 <= k < n ==> {
                    &&& plan[k] == pull_tasks(
                        PullPhase::Exists,
                        ctx,
                        snapshot,
                        #[trigger] trailing[k],
                    )[0]
                    &&& plan[k] is SimpleCommand
                    &&& plan[n + r + k] == pull_tasks(PullPhase::Copy, ctx, snapshot, trailing[k])[0]
                    &&& plan[n + r + k] matches TaskView::Sequence(pair) && pair.len() == 2
                        && pair[0] is SimpleCommand && pair[1] is Notify
                }
        }),
{
    lemma_pull_singles(PullPhase::Exists, ctx, snapshot, trailing);
    lemma_pull_singles(PullPhase::Copy, ctx, snapshot, trailing);
    lemma_pull_reconcile_len(ctx, snapshot, trailing);
}

} // verus!
