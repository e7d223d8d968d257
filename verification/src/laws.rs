//! Laws of the synchronizer, proved from the step relations alone: what a
//! reader may rely on for every event sequence, independent of any one run.

use vstd::prelude::*;

use crate::event::DELETE_CONCURRENCY;
use crate::event::Event;
use crate::event::ObjectVersion;
use crate::event::RepairIdleness;
use crate::item::RepairItem;
use crate::item::lemma_stale_prefix;
use crate::item::lemma_stale_prefix_step;
use crate::item::stale_prefix;
use crate::synchronizer::Action;
use crate::synchronizer::Synchronizer;
use crate::synchronizer::ingest_rel;
use crate::synchronizer::lni_after_wake;
use crate::synchronizer::poll_rel;
use crate::synchronizer::task_after_wake;

verus! {

/// Ingesting `Deleted(v)` ends `v`'s repair candidacy and queues `v` for
/// deletion.
pub proof fn lemma_deleted_cancels_candidate(
    pre: Synchronizer,
    post: Synchronizer,
    v: ObjectVersion,
    now: u64,
)
    requires
        !pre.metadata,
        ingest_rel(pre, post, Event::Deleted { version: v }, now),
    ensures
        !post.has_candidate(v),
        post.pending_delete(v),
{
}

/// A version without candidacy can only regain it through a `Putted` for
/// that very version.
pub proof fn lemma_candidate_needs_put(
    pre: Synchronizer,
    post: Synchronizer,
    event: Event,
    now: u64,
    v: ObjectVersion,
)
    requires
        ingest_rel(pre, post, event, now),
        !pre.has_candidate(v),
        event matches Event::Putted { version, .. } ==> version != v,
    ensures
        !post.has_candidate(v),
{
}

/// A delete observed after a put and before the repair is dispatched cancels
/// that repair for good: no poll from a state without `v`'s candidacy ever
/// starts a repair of `v`, and the candidacy stays gone.
pub proof fn lemma_cancelled_repair_never_dispatched(
    pre: Synchronizer,
    post: Synchronizer,
    now: u64,
    task_completed: bool,
    a: Action,
    v: ObjectVersion,
)
    requires
        poll_rel(pre, post, now, task_completed, a),
        !pre.has_candidate(v),
    ensures
        a matches Action::StartRepair { version } ==> version != v,
        !post.has_candidate(v),
{
    lemma_stale_prefix(pre.todo_repair@, pre.repair_candidates@);
}

/// No single delete batch ever holds more than `DELETE_CONCURRENCY`
/// versions.
pub proof fn lemma_delete_batch_bounded(s: Synchronizer, i: int)
    requires
        s.wf(),
        0 <= i < s.todo_delete@.len(),
    ensures
        1 <= s.todo_delete@[i]@.len() <= DELETE_CONCURRENCY,
{
}

/// The enqueue/dequeue counters of each work class differ by exactly the
/// population of its queue, a dispatched item counting as dequeued whether
/// it was executed or discarded as stale.
pub proof fn lemma_counter_balance(s: Synchronizer)
    requires
        s.wf(),
    ensures
        s.enqueued_repair - s.dequeued_repair == s.todo_repair@.len(),
        s.enqueued_delete - s.dequeued_delete == s.todo_delete@.len(),
{
}

/// With repair disabled, a poll never starts a repair, whatever the queues
/// hold, and never leaves a repair running that was not running before.
pub proof fn lemma_disabled_no_repair(
    pre: Synchronizer,
    post: Synchronizer,
    now: u64,
    task_completed: bool,
    a: Action,
)
    requires
        poll_rel(pre, post, now, task_completed, a),
        pre.repair_idleness_threshold is Disabled,
    ensures
        !(a is StartRepair),
        post.task is Repair ==> pre.task is Repair,
{
    lemma_stale_prefix(pre.todo_repair@, pre.repair_candidates@);
}

/// A repair put up at `t0` with timeout `t` is dispatched no earlier than
/// `t0 + t`: the interval between ingest and repair start covers the full
/// `put_content_timeout`.  (Stated for a version with no older queued
/// repair; an older item for the same version may of course be due sooner.)
pub proof fn lemma_repair_honors_timeout(
    s0: Synchronizer,
    s1: Synchronizer,
    s2: Synchronizer,
    v: ObjectVersion,
    t: u64,
    t0: u64,
    t1: u64,
    task_completed: bool,
    a: Action,
)
    requires
        !s0.metadata,
        t0 + t <= u64::MAX,
        ingest_rel(s0, s1, Event::Putted { version: v, put_content_timeout: t }, t0),
        forall|i: int|
            0 <= i < s0.todo_repair@.len() ==> (#[trigger] s0.todo_repair@[i]).version != v,
        poll_rel(s1, s2, t1, task_completed, a),
        a == (Action::StartRepair { version: v }),
    ensures
        t1 >= t0 + t,
{
    let q0 = s0.todo_repair@;
    let q1 = s1.todo_repair@;
    let item = RepairItem { start_time: (t0 + t) as u64, version: v };
    let pos = choose|pos: int| 0 <= pos <= q0.len() && q1 == #[trigger] q0.insert(pos, item);
    q0.insert_ensures(pos, item);
    lemma_stale_prefix(q1, s1.repair_candidates@);
    let k = stale_prefix(q1, s1.repair_candidates@);
    assert(q1[k].version == v);
    if k < pos {
        assert(q1[k] == q0[k]);
        assert(false);
    }
    if k > pos {
        assert(q1[k] == q0[k - 1]);
        assert(false);
    }
    assert(q1[k] == item);
}

/// A repair starts only under the strictest conditions: its version is
/// queued with a start time that has passed, it is still a candidate, and
/// the node has been idle for at least the configured threshold.  Dispatch
/// can therefore never come earlier than `start_time`, and never interrupt
/// recent activity.
pub proof fn lemma_repair_dispatch_conditions(
    pre: Synchronizer,
    post: Synchronizer,
    now: u64,
    task_completed: bool,
    a: Action,
    v: ObjectVersion,
)
    requires
        poll_rel(pre, post, now, task_completed, a),
        a == (Action::StartRepair { version: v }),
    ensures
        exists|i: int|
            0 <= i < pre.todo_repair@.len() && (#[trigger] pre.todo_repair@[i]).version == v
                && pre.todo_repair@[i].start_time <= now,
        pre.has_candidate(v),
        pre.repair_idleness_threshold matches RepairIdleness::Threshold(d) && now
            >= lni_after_wake(pre, now) + d,
{
    let q = pre.todo_repair@;
    let c = pre.repair_candidates@;
    lemma_stale_prefix(q, c);
    let k = stale_prefix(q, c);
    assert(0 <= k < q.len() && q[k].version == v && q[k].start_time <= now);
}

/// The `full_sync_remaining` gauge is exact: zero without a sweep, and the
/// distance left to the sweep bound while one runs.
pub proof fn lemma_gauge_tracks_sweep(s: Synchronizer)
    requires
        s.wf(),
    ensures
        s.full_sync is None ==> s.full_sync_remaining == 0,
        s.full_sync matches Some(fs) ==> s.full_sync_remaining == fs.next_commit - fs.current,
{
}

/// At most one full-sync job exists: a `FullSync` event arriving while one
/// is running is dropped, not queued.
pub proof fn lemma_full_sync_does_not_stack(
    pre: Synchronizer,
    post: Synchronizer,
    machine: Vec<ObjectVersion>,
    next_commit: u64,
    now: u64,
)
    requires
        ingest_rel(pre, post, Event::FullSync { machine, next_commit }, now),
        pre.full_sync is Some,
    ensures
        post.full_sync == pre.full_sync,
{
}

/// Ingesting the same `Deleted(v)` twice leaves the same candidacies and
/// the same set of versions pending deletion as ingesting it once.  (The
/// batch sequence itself may differ: the repeated version is appended
/// again.)
pub proof fn lemma_deleted_idempotent(
    s0: Synchronizer,
    s1: Synchronizer,
    s2: Synchronizer,
    v: ObjectVersion,
    n1: u64,
    n2: u64,
)
    requires
        !s0.metadata,
        ingest_rel(s0, s1, Event::Deleted { version: v }, n1),
        ingest_rel(s1, s2, Event::Deleted { version: v }, n2),
    ensures
        forall|w: ObjectVersion| s2.has_candidate(w) <==> s1.has_candidate(w),
        forall|w: ObjectVersion| s2.pending_delete(w) <==> s1.pending_delete(w),
{
}

/// Dispatching over a stale repair head discards it: the poll counts at
/// least one `dequeued_repair`, shrinks the repair queue, and whatever
/// repair it may start is for a different version.  No action ever targets
/// the stale version itself.
pub proof fn lemma_stale_head_discarded(
    pre: Synchronizer,
    post: Synchronizer,
    now: u64,
    task_completed: bool,
    a: Action,
)
    requires
        poll_rel(pre, post, now, task_completed, a),
        task_after_wake(pre, task_completed) is Idle,
        pre.repair_idleness_threshold is Threshold,
        pre.todo_repair@.len() > 0,
        !pre.has_candidate(pre.todo_repair@[0].version),
    ensures
        post.dequeued_repair >= pre.dequeued_repair + 1,
        post.todo_repair@.len() < pre.todo_repair@.len(),
        a matches Action::StartRepair { version } ==> version != pre.todo_repair@[0].version,
{
    let q = pre.todo_repair@;
    let c = pre.repair_candidates@;
    lemma_stale_prefix(q, c);
    lemma_stale_prefix_step(q, c);
    lemma_stale_prefix(q.subrange(1, q.len() as int), c);
}

} // verus!
