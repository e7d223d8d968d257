//! The synchronizer itself: ingest of lifecycle events, the dual work
//! queues with delete coalescing and stale-repair filtering, the idleness
//! gate on repair dispatch, and the full-sync slot.
//!
//! Every mutation is a step of a state machine over plain values.  The
//! embedding process supplies the wall clock (whole seconds), performs the
//! device and network I/O an [`Action`] asks for, and reports completion on
//! the next [`Synchronizer::poll`].

use vstd::prelude::*;

use crate::event::DELETE_CONCURRENCY;
use crate::event::Event;
use crate::event::MAX_TIMEOUT_SECONDS;
use crate::event::ObjectVersion;
use crate::event::RepairIdleness;
use crate::full_sync::FullSync;
use crate::full_sync::sweep_targets;
use crate::full_sync::sweep_window;
use crate::full_sync::versions_contain;
use crate::item::RepairItem;
use crate::item::TodoItem;
use crate::item::item_le;
use crate::item::lemma_sorted_subrange;
use crate::item::lemma_stale_prefix;
use crate::item::lemma_stale_prefix_step;
use crate::item::repair_sorted;
use crate::item::stale_prefix;

verus! {

/// What the scheduler is currently occupied with.  `Idle` and `Wait` are
/// sleeping; a delete batch or a repair is active work.
#[derive(Debug, PartialEq, Eq)]
pub enum Task {
    Idle,
    Wait { deadline: u64 },
    Delete { versions: Vec<ObjectVersion> },
    Repair { version: ObjectVersion },
}

impl Task {
    /// Sleeping states do not count as activity for the idleness gate.
    pub open spec fn spec_sleeping(self) -> bool {
        self is Idle || self is Wait
    }

    pub fn is_sleeping(&self) -> (r: bool)
        ensures
            r == self.spec_sleeping(),
    {
        match self {
            Task::Idle => true,
            Task::Wait { .. } => true,
            Task::Delete { .. } => false,
            Task::Repair { .. } => false,
        }
    }
}

/// What the embedding process must do after a poll: nothing, arm a one-shot
/// timer, delete a batch of versions from the device, or repair one object.
#[derive(Debug, PartialEq, Eq)]
pub enum Action {
    Sleep,
    WaitUntil { deadline: u64 },
    StartDelete { versions: Vec<ObjectVersion> },
    StartRepair { version: ObjectVersion },
}

/// A version set held as a duplicate-free vector.
pub open spec fn unique_versions(s: Seq<ObjectVersion>) -> bool {
    forall|i: int, j: int| 0 <= i < j < s.len() ==> s[i] != s[j]
}

/// Adds a version to a duplicate-free version set.
fn set_insert(set: &mut Vec<ObjectVersion>, v: ObjectVersion)
    requires
        unique_versions(old(set)@),
    ensures
        unique_versions(final(set)@),
        forall|w: ObjectVersion| final(set)@.contains(w) <==> old(set)@.contains(w) || w == v,
{
    if !versions_contain(set, v) {
        set.push(v);
        proof {
            let s0 = old(set)@;
            assert forall|w: ObjectVersion| set@.contains(w) <==> s0.contains(w) || w == v by {
                if set@.contains(w) {
                    let i = choose|i: int| 0 <= i < set@.len() && set@[i] == w;
                    if i < s0.len() {
                        assert(s0[i] == w);
                    }
                }
                if s0.contains(w) {
                    let i = choose|i: int| 0 <= i < s0.len() && s0[i] == w;
                    assert(set@[i] == w);
                }
                assert(set@[s0.len() as int] == v);
            }
            assert forall|i: int, j: int| 0 <= i < j < set@.len() implies set@[i] != set@[j] by {
                if j < s0.len() {
                    assert(s0[i] == set@[i] && s0[j] == set@[j]);
                } else {
                    assert(set@[j] == v);
                    assert(set@[i] == s0[i]);
                    assert(s0.contains(s0[i]));
                }
            }
        }
    }
}

/// Removes a version from a duplicate-free version set.
fn set_remove(set: &mut Vec<ObjectVersion>, v: ObjectVersion)
    requires
        unique_versions(old(set)@),
    ensures
        unique_versions(final(set)@),
        forall|w: ObjectVersion| final(set)@.contains(w) <==> old(set)@.contains(w) && w != v,
{
    let ghost s0 = set@;
    let mut i: usize = 0;
    while i < set.len()
        invariant
            set@ == s0,
            s0 == old(set)@,
            unique_versions(s0),
            0 <= i <= s0.len(),
            forall|j: int| 0 <= j < i ==> s0[j] != v,
        decreases s0.len() - i,
    {
        if set[i] == v {
            set.remove(i);
            proof {
                s0.remove_ensures(i as int);
                assert forall|w: ObjectVersion| set@.contains(w) <==> s0.contains(w) && w != v by {
                    if set@.contains(w) {
                        let a = choose|a: int| 0 <= a < set@.len() && set@[a] == w;
                        if a < i {
                            assert(s0[a] == w);
                            assert(w != v);
                        } else {
                            assert(s0[a + 1] == w);
                            assert(s0[i as int] == v);
                            assert(i < a + 1 < s0.len());
                            assert(s0[i as int] != s0[a + 1]);
                            assert(w != v);
                        }
                    }
                    if s0.contains(w) && w != v {
                        let a = choose|a: int| 0 <= a < s0.len() && s0[a] == w;
                        if a < i {
                            assert(set@[a] == w);
                        } else {
                            assert(a != i);
                            assert(set@[a - 1] == s0[a]);
                        }
                    }
                }
                assert forall|a: int, b: int| 0 <= a < b < set@.len() implies set@[a] != set@[b] by {
                    let a0 = if a < i { a } else { a + 1 };
                    let b0 = if b < i { b } else { b + 1 };
                    assert(0 <= a0 < b0 < s0.len());
                    assert(set@[a] == s0[a0]);
                    assert(set@[b] == s0[b0]);
                    assert(s0[a0] != s0[b0]);
                }
            }
            return;
        }
        i = i + 1;
    }
    proof {
        assert forall|w: ObjectVersion| set@.contains(w) implies s0.contains(w) && w != v by {
            let a = choose|a: int| 0 <= a < set@.len() && set@[a] == w;
        }
    }
}

/// Inserts a repair item into the queue, keeping dispatch order.
fn repair_push(q: &mut Vec<RepairItem>, it: RepairItem)
    requires
        repair_sorted(old(q)@),
    ensures
        repair_sorted(final(q)@),
        exists|pos: int|
            0 <= pos <= old(q)@.len() && final(q)@ == #[trigger] old(q)@.insert(pos, it),
{
    let ghost q0 = q@;
    let mut i: usize = 0;
    while i < q.len() && (q[i].start_time < it.start_time || (q[i].start_time == it.start_time
        && q[i].version <= it.version))
        invariant
            q@ == q0,
            0 <= i <= q0.len(),
            forall|j: int| 0 <= j < i ==> item_le(#[trigger] q0[j], it),
        decreases q0.len() - i,
    {
        i = i + 1;
    }
    q.insert(i, it);
    proof {
        let pos = i as int;
        q0.insert_ensures(pos, it);
        assert(q@ == q0.insert(pos, it));
        assert forall|a: int, b: int| 0 <= a < b < q@.len() implies #[trigger] item_le(
            q@[a],
            q@[b],
        ) by {
            if a < pos && b < pos {
                assert(q@[a] == q0[a] && q@[b] == q0[b]);
                assert(item_le(q0[a], q0[b]));
            } else if a < pos && b == pos {
                assert(q@[a] == q0[a] && q@[b] == it);
                assert(item_le(q0[a], it));
            } else if a < pos && b > pos {
                assert(q@[a] == q0[a] && q@[b] == q0[b - 1]);
                if a < b - 1 {
                    assert(item_le(q0[a], q0[b - 1]));
                } else {
                    assert(item_le(q0[a], it));
                    assert(q0[b - 1] == q0[a]);
                }
            } else if a == pos && b > pos {
                assert(q@[a] == it && q@[b] == q0[b - 1]);
                assert(pos <= b - 1 < q0.len());
                assert(!item_le(q0[pos], it));
                assert(item_le(it, q0[pos]));
                if pos < b - 1 {
                    assert(item_le(q0[pos], q0[b - 1]));
                }
                assert(item_le(it, q0[b - 1]));
            } else {
                assert(pos < a < b);
                assert(q@[a] == q0[a - 1] && q@[b] == q0[b - 1]);
                assert(item_le(q0[a - 1], q0[b - 1]));
            }
        }
    }
}

/// Copies a version list.
fn copy_versions(src: &Vec<ObjectVersion>) -> (r: Vec<ObjectVersion>)
    ensures
        r@ == src@,
{
    let mut r: Vec<ObjectVersion> = Vec::new();
    let mut i: usize = 0;
    while i < src.len()
        invariant
            0 <= i <= src@.len(),
            r@ == src@.take(i as int),
        decreases src@.len() - i,
    {
        r.push(src[i]);
        proof {
            assert(src@.take(i + 1) =~= src@.take(i as int).push(src@[i as int]));
        }
        i = i + 1;
    }
    proof {
        assert(src@.take(src@.len() as int) =~= src@);
    }
    r
}

/// The per-node synchronizer.
///
/// The embedding process owns the clock and the device: it calls
/// [`handle_event`](Self::handle_event) when the consensus layer emits an
/// event, [`poll`](Self::poll) whenever the scheduler wakes, and
/// [`full_sync_advance`](Self::full_sync_advance) with the device listing of
/// the window reported by [`full_sync_window`](Self::full_sync_window).
pub struct Synchronizer {
    /// Metadata nodes skip all synchronization; every event is a no-op.
    pub metadata: bool,
    /// What the scheduler is currently occupied with.
    pub task: Task,
    /// Pending delete batches, oldest first; the youngest batch coalesces
    /// further deletions until it holds `DELETE_CONCURRENCY` versions.
    pub todo_delete: Vec<Vec<ObjectVersion>>,
    /// Pending repairs in dispatch order (earliest `start_time` first).
    pub todo_repair: Vec<RepairItem>,
    /// Versions still eligible for repair; a later delete removes its
    /// version here, which cancels the queued repair on pop.
    pub repair_candidates: Vec<ObjectVersion>,
    pub enqueued_repair: u64,
    pub enqueued_delete: u64,
    pub dequeued_repair: u64,
    pub dequeued_delete: u64,
    pub full_sync_count: u64,
    pub full_sync_deleted_objects: u64,
    /// How many versions are still to be swept before the running full sync
    /// completes; zero whenever no sweep is running.
    pub full_sync_remaining: u64,
    /// The at-most-one running full-sync job.
    pub full_sync: Option<FullSync>,
    /// Window size of full-sync sweeps started by this synchronizer.
    pub full_sync_step: u64,
    /// Admission policy for repair work.
    pub repair_idleness_threshold: RepairIdleness,
    /// The last wall-clock second at which the scheduler was not sleeping.
    pub last_not_idle: u64,
}

impl Synchronizer {
    /// Whether `v` is still eligible for repair.
    pub open spec fn has_candidate(self, v: ObjectVersion) -> bool {
        self.repair_candidates@.contains(v)
    }

    /// Whether some queued delete batch holds `v`.
    pub open spec fn pending_delete(self, v: ObjectVersion) -> bool {
        exists|i: int|
            0 <= i < self.todo_delete@.len() && (#[trigger] self.todo_delete@[i])@.contains(v)
    }

    /// Every queued delete batch is non-empty and bounded by
    /// `DELETE_CONCURRENCY`.
    pub open spec fn batches_ok(self) -> bool {
        forall|i: int|
            0 <= i < self.todo_delete@.len() ==> 1 <= (#[trigger] self.todo_delete@[i])@.len()
                <= DELETE_CONCURRENCY
    }

    /// The enqueue/dequeue counters always balance against the queue
    /// populations.
    pub open spec fn counters_ok(self) -> bool {
        &&& self.enqueued_repair == self.dequeued_repair + self.todo_repair@.len()
        &&& self.enqueued_delete == self.dequeued_delete + self.todo_delete@.len()
    }

    /// The `full_sync_remaining` gauge tracks the running sweep and is zero
    /// without one.
    pub open spec fn gauge_ok(self) -> bool {
        &&& self.full_sync matches Some(fs) ==> fs.wf() && self.full_sync_remaining
            == fs.next_commit - fs.current
        &&& self.full_sync is None ==> self.full_sync_remaining == 0
    }

    /// Structural well-formedness: ordered repair queue, bounded batches,
    /// duplicate-free candidate set, consistent gauge.
    pub open spec fn wf_basic(self) -> bool {
        &&& repair_sorted(self.todo_repair@)
        &&& self.batches_ok()
        &&& unique_versions(self.repair_candidates@)
        &&& self.gauge_ok()
    }

    /// Full well-formedness, established by `new` and preserved by every
    /// operation.
    pub open spec fn wf(self) -> bool {
        self.wf_basic() && self.counters_ok()
    }

    /// Creates an idle synchronizer with empty queues and repair disabled.
    pub fn new(metadata: bool, full_sync_step: u64, now: u64) -> (s: Synchronizer)
        ensures
            s.wf(),
            s.metadata == metadata,
            s.task is Idle,
            s.todo_delete@.len() == 0,
            s.todo_repair@.len() == 0,
            s.repair_candidates@.len() == 0,
            s.enqueued_repair == 0 && s.enqueued_delete == 0,
            s.dequeued_repair == 0 && s.dequeued_delete == 0,
            s.full_sync_count == 0 && s.full_sync_deleted_objects == 0 && s.full_sync_remaining
                == 0,
            s.full_sync is None,
            s.full_sync_step == full_sync_step,
            s.repair_idleness_threshold is Disabled,
            s.last_not_idle == now,
    {
        Synchronizer {
            metadata,
            task: Task::Idle,
            todo_delete: Vec::new(),
            todo_repair: Vec::new(),
            repair_candidates: Vec::new(),
            enqueued_repair: 0,
            enqueued_delete: 0,
            dequeued_repair: 0,
            dequeued_delete: 0,
            full_sync_count: 0,
            full_sync_deleted_objects: 0,
            full_sync_remaining: 0,
            full_sync: None,
            full_sync_step,
            repair_idleness_threshold: RepairIdleness::Disabled,
            last_not_idle: now,
        }
    }

    /// Reconfigures the repair admission policy; effective on the next poll.
    pub fn set_repair_idleness_threshold(
        &mut self,
        repair_idleness_threshold: RepairIdleness,
    )
        requires
            old(self).wf(),
        ensures
            final(self).wf(),
            final(self).repair_idleness_threshold == repair_idleness_threshold,
            *final(self) == (Synchronizer { repair_idleness_threshold, ..*old(self) }),
    {
        self.repair_idleness_threshold = repair_idleness_threshold;
    }

    /// Repairs are dispatched at all only under a `Threshold` policy.
    pub fn is_repair_enabled(&self) -> (r: bool)
        ensures
            r == self.repair_idleness_threshold.spec_enabled(),
    {
        match self.repair_idleness_threshold {
            RepairIdleness::Threshold(_) => true,
            RepairIdleness::Disabled => false,
        }
    }
}

/// Fields a step never touches: node role, sweep window size, admission
/// policy.
pub open spec fn same_config(a: Synchronizer, b: Synchronizer) -> bool {
    &&& b.metadata == a.metadata
    &&& b.full_sync_step == a.full_sync_step
    &&& b.repair_idleness_threshold == a.repair_idleness_threshold
}

/// The full-sync slot and its metrics are untouched.
pub open spec fn same_full_sync(a: Synchronizer, b: Synchronizer) -> bool {
    &&& b.full_sync == a.full_sync
    &&& b.full_sync_count == a.full_sync_count
    &&& b.full_sync_deleted_objects == a.full_sync_deleted_objects
    &&& b.full_sync_remaining == a.full_sync_remaining
}

/// The scheduler position is untouched.
pub open spec fn same_sched(a: Synchronizer, b: Synchronizer) -> bool {
    &&& b.task == a.task
    &&& b.last_not_idle == a.last_not_idle
}

/// Repair queue, candidates and repair counters are untouched.
pub open spec fn same_repair_state(a: Synchronizer, b: Synchronizer) -> bool {
    &&& b.todo_repair == a.todo_repair
    &&& b.repair_candidates == a.repair_candidates
    &&& b.enqueued_repair == a.enqueued_repair
    &&& b.dequeued_repair == a.dequeued_repair
}

/// Delete queue and delete counters are untouched.
pub open spec fn same_delete_state(a: Synchronizer, b: Synchronizer) -> bool {
    &&& b.todo_delete == a.todo_delete
    &&& b.enqueued_delete == a.enqueued_delete
    &&& b.dequeued_delete == a.dequeued_delete
}

/// Counter headroom that ingest needs on a non-metadata node: each arm
/// increments at most one counter by one, and a put must not push its
/// eligibility time past the clock's range.
pub open spec fn ingest_pre(pre: Synchronizer, event: Event, now: u64) -> bool {
    &&& event matches Event::Putted { put_content_timeout, .. } ==> pre.enqueued_repair
        < u64::MAX && now + put_content_timeout <= u64::MAX
    &&& event is Deleted ==> pre.enqueued_delete < u64::MAX
    &&& event is FullSync ==> pre.full_sync_count < u64::MAX
}

/// What one call of [`Synchronizer::handle_event`] does, as a relation
/// between the state before (`pre`) and after (`post`).
///
/// On a metadata node ingest is a no-op.  Otherwise a put registers a repair
/// candidate and queues a repair that becomes eligible `put_content_timeout`
/// seconds from `now`; a delete cancels the candidate and coalesces into the
/// youngest delete batch when that batch has room, else opens a new batch; a
/// full-sync request starts a sweep only when none is running.
pub open spec fn ingest_rel(pre: Synchronizer, post: Synchronizer, event: Event, now: u64) -> bool {
    if pre.metadata {
        post == pre
    } else {
        match event {
            Event::Putted { version, put_content_timeout } => {
                &&& post.enqueued_repair == pre.enqueued_repair + 1
                &&& post.dequeued_repair == pre.dequeued_repair
                &&& (forall|w: ObjectVersion|
                    post.has_candidate(w) <==> pre.has_candidate(w) || w == version)
                &&& (exists|pos: int|
                    0 <= pos <= pre.todo_repair@.len() && post.todo_repair@
                        == #[trigger] pre.todo_repair@.insert(
                        pos,
                        RepairItem { start_time: (now + put_content_timeout) as u64, version },
                    ))
                &&& post.todo_repair@.len() == pre.todo_repair@.len() + 1
                &&& same_delete_state(pre, post)
                &&& same_sched(pre, post)
                &&& same_full_sync(pre, post)
                &&& same_config(pre, post)
            },
            Event::Deleted { version } => {
                &&& (forall|w: ObjectVersion|
                    post.has_candidate(w) <==> pre.has_candidate(w) && w != version)
                &&& (forall|w: ObjectVersion|
                    post.pending_delete(w) <==> pre.pending_delete(w) || w == version)
                &&& if pre.todo_delete@.len() > 0 && pre.todo_delete@.last()@.len()
                    < DELETE_CONCURRENCY {
                    // coalesced into the youngest batch
                    &&& post.todo_delete@.len() == pre.todo_delete@.len()
                    &&& post.todo_delete@.last()@ == pre.todo_delete@.last()@.push(version)
                    &&& (forall|i: int|
                        0 <= i < pre.todo_delete@.len() - 1 ==> #[trigger] post.todo_delete@[i]
                            == pre.todo_delete@[i])
                    &&& post.enqueued_delete == pre.enqueued_delete
                } else {
                    // a new singleton batch
                    &&& post.todo_delete@.len() == pre.todo_delete@.len() + 1
                    &&& post.todo_delete@.last()@ == seq![version]
                    &&& (forall|i: int|
                        0 <= i < pre.todo_delete@.len() ==> #[trigger] post.todo_delete@[i]
                            == pre.todo_delete@[i])
                    &&& post.enqueued_delete == pre.enqueued_delete + 1
                }
                &&& post.dequeued_delete == pre.dequeued_delete
                &&& post.todo_repair == pre.todo_repair
                &&& post.enqueued_repair == pre.enqueued_repair
                &&& post.dequeued_repair == pre.dequeued_repair
                &&& same_sched(pre, post)
                &&& same_full_sync(pre, post)
                &&& same_config(pre, post)
            },
            Event::FullSync { machine, next_commit } => {
                &&& (pre.full_sync is Some ==> same_full_sync(pre, post))
                &&& (pre.full_sync is None ==> {
                    &&& post.full_sync matches Some(fs) && fs.machine@ == machine@
                        && fs.next_commit == next_commit && fs.step == pre.full_sync_step
                        && fs.current == 0
                    &&& post.full_sync_count == pre.full_sync_count + 1
                    &&& post.full_sync_remaining == next_commit
                    &&& post.full_sync_deleted_objects == pre.full_sync_deleted_objects
                })
                &&& same_repair_state(pre, post)
                &&& same_delete_state(pre, post)
                &&& same_sched(pre, post)
                &&& same_config(pre, post)
            },
        }
    }
}

impl Synchronizer {
    /// Ingests one consensus event.  Synchronous, never blocks, and touches
    /// neither the running task nor the running sweep (except to start one).
    pub fn handle_event(&mut self, event: &Event, now: u64)
        requires
            old(self).wf(),
            !old(self).metadata ==> ingest_pre(*old(self), *event, now),
        ensures
            final(self).wf(),
            ingest_rel(*old(self), *final(self), *event, now),
    {
        if self.metadata {
            return ;
        }
        match event {
            Event::Putted { version, put_content_timeout } => {
                self.enqueued_repair = self.enqueued_repair + 1;
                set_insert(&mut self.repair_candidates, *version);
                let item = RepairItem { start_time: now + *put_content_timeout, version: *version };
                repair_push(&mut self.todo_repair, item);
            },
            Event::Deleted { version } => {
                let ghost pre = *old(self);
                set_remove(&mut self.repair_candidates, *version);
                let n = self.todo_delete.len();
                if n > 0 && self.todo_delete[n - 1].len() < DELETE_CONCURRENCY {
                    let batch_opt = self.todo_delete.pop();
                    match batch_opt {
                        Some(mut batch) => {
                            batch.push(*version);
                            self.todo_delete.push(batch);
                        },
                        None => {
                            proof {
                                assert(false);
                            }
                        },
                    }
                    proof {
                        let d0 = pre.todo_delete@;
                        let d1 = self.todo_delete@;
                        assert(d1.len() == d0.len());
                        assert forall|i: int| 0 <= i < d0.len() - 1 implies #[trigger] d1[i]
                            == d0[i] by {
                            assert(d1[i] == d0.subrange(0, d0.len() - 1)[i]);
                        }
                        assert(d1.last()@ == d0.last()@.push(*version));
                        assert forall|w: ObjectVersion|
                            self.pending_delete(w) <==> (pre.pending_delete(w) || w
                                == *version) by {
                            if self.pending_delete(w) {
                                let i = choose|i: int|
                                    0 <= i < d1.len() && (#[trigger] d1[i])@.contains(w);
                                if i < d0.len() - 1 {
                                    assert(d0[i]@.contains(w));
                                } else {
                                    let j = choose|j: int|
                                        0 <= j < d1[i]@.len() && d1[i]@[j] == w;
                                    if j < d0.last()@.len() {
                                        assert(d0.last()@[j] == w);
                                        assert(d0[d0.len() - 1]@.contains(w));
                                    } else {
                                        assert(w == *version);
                                    }
                                }
                            }
                            if pre.pending_delete(w) {
                                let i = choose|i: int|
                                    0 <= i < d0.len() && (#[trigger] d0[i])@.contains(w);
                                if i < d0.len() - 1 {
                                    assert(d1[i]@.contains(w));
                                } else {
                                    let j = choose|j: int|
                                        0 <= j < d0[i]@.len() && d0[i]@[j] == w;
                                    assert(d1.last()@[j] == w);
                                    assert(d1[d1.len() - 1]@.contains(w));
                                }
                            }
                            if w == *version {
                                assert(d1.last()@[d1.last()@.len() - 1] == w);
                                assert(d1[d1.len() - 1]@.contains(w));
                            }
                        }
                    }
                } else {
                    self.enqueued_delete = self.enqueued_delete + 1;
                    let batch = vec![*version];
                    self.todo_delete.push(batch);
                    proof {
                        let d0 = pre.todo_delete@;
                        let d1 = self.todo_delete@;
                        assert(d1.last()@ =~= seq![*version]);
                        assert forall|w: ObjectVersion|
                            self.pending_delete(w) <==> (pre.pending_delete(w) || w
                                == *version) by {
                            if self.pending_delete(w) {
                                let i = choose|i: int|
                                    0 <= i < d1.len() && (#[trigger] d1[i])@.contains(w);
                                if i < d0.len() {
                                    assert(d0[i]@.contains(w));
                                } else {
                                    assert(d1[i]@ == seq![*version]);
                                    assert(w == *version);
                                }
                            }
                            if pre.pending_delete(w) {
                                let i = choose|i: int|
                                    0 <= i < d0.len() && (#[trigger] d0[i])@.contains(w);
                                assert(d1[i]@.contains(w));
                            }
                            if w == *version {
                                assert(d1[d1.len() - 1]@.contains(w));
                            }
                        }
                    }
                }
            },
            Event::FullSync { machine, next_commit } => {
                if self.full_sync.is_none() {
                    let snapshot = copy_versions(machine);
                    self.full_sync = Some(
                        FullSync::new(snapshot, *next_commit, self.full_sync_step),
                    );
                    self.full_sync_count = self.full_sync_count + 1;
                    self.full_sync_remaining = *next_commit;
                }
            },
        }
    }
}

/// The deadline armed for a repair that is not yet due: its start time,
/// clamped to at most `MAX_TIMEOUT_SECONDS` seconds from now.  A pending
/// wait is never preempted by a later, earlier-due item; the clamp bounds
/// the extra delay that policy can cause.
pub open spec fn wait_deadline(now: u64, start_time: u64) -> u64
    recommends
        now < start_time,
        now + MAX_TIMEOUT_SECONDS <= u64::MAX,
{
    if start_time - now >= MAX_TIMEOUT_SECONDS {
        (now + MAX_TIMEOUT_SECONDS) as u64
    } else {
        start_time
    }
}

/// Fields the stale-discard scan never touches.
spec fn stale_scan_frame(a: Synchronizer, b: Synchronizer) -> bool {
    &&& b.task == a.task
    &&& b.todo_delete == a.todo_delete
    &&& b.repair_candidates == a.repair_candidates
    &&& b.enqueued_repair == a.enqueued_repair
    &&& b.enqueued_delete == a.enqueued_delete
    &&& b.dequeued_delete == a.dequeued_delete
    &&& b.last_not_idle == a.last_not_idle
    &&& same_full_sync(a, b)
    &&& same_config(a, b)
}

/// What one call of [`Synchronizer::next_todo_item`] does.
///
/// With repair enabled the repair queue is examined first: its stale prefix
/// is discarded (each discard counted in `dequeued_repair`), and the first
/// live item is dispatched if due, else a clamped timer is armed and the
/// item stays queued.  Without a live repair item the oldest delete batch is
/// dispatched.  Deletes are never delayed and never stale.
pub open spec fn next_rel(
    pre: Synchronizer,
    post: Synchronizer,
    now: u64,
    item: Option<TodoItem>,
) -> bool {
    let q = pre.todo_repair@;
    let c = pre.repair_candidates@;
    let k = stale_prefix(q, c);
    let enabled = pre.repair_idleness_threshold.spec_enabled();
    &&& same_config(pre, post)
    &&& same_full_sync(pre, post)
    &&& post.last_not_idle == pre.last_not_idle
    &&& post.enqueued_repair == pre.enqueued_repair
    &&& post.enqueued_delete == pre.enqueued_delete
    &&& post.dequeued_delete == pre.dequeued_delete
    &&& if enabled && k < q.len() {
        let it = q[k];
        &&& pre.has_candidate(it.version)
        &&& post.todo_delete == pre.todo_delete
        &&& post.dequeued_repair == pre.dequeued_repair + k
        &&& if it.start_time <= now {
            &&& item == Some(
                TodoItem::RepairContent { start_time: it.start_time, version: it.version },
            )
            &&& post.todo_repair@ == q.subrange(k + 1, q.len() as int)
            &&& (forall|w: ObjectVersion|
                post.has_candidate(w) <==> pre.has_candidate(w) && w != it.version)
            &&& post.task == pre.task
        } else {
            &&& item is None
            &&& post.todo_repair@ == q.subrange(k, q.len() as int)
            &&& post.repair_candidates == pre.repair_candidates
            &&& post.task == Task::Wait { deadline: wait_deadline(now, it.start_time) }
        }
    } else {
        &&& post.todo_repair@ == if enabled {
            q.subrange(k, q.len() as int)
        } else {
            q
        }
        &&& post.dequeued_repair == pre.dequeued_repair + if enabled {
            k
        } else {
            0
        }
        &&& post.repair_candidates == pre.repair_candidates
        &&& post.task == pre.task
        &&& if pre.todo_delete@.len() > 0 {
            &&& item matches Some(TodoItem::DeleteContent { versions }) && versions
                == pre.todo_delete@[0]
            &&& post.todo_delete@ == pre.todo_delete@.subrange(
                1,
                pre.todo_delete@.len() as int,
            )
        } else {
            &&& item is None
            &&& post.todo_delete == pre.todo_delete
        }
    }
}

impl Synchronizer {
    /// Whether the head of the repair queue has been superseded by a delete.
    fn head_stale(&self) -> (r: bool)
        ensures
            r == (self.todo_repair@.len() > 0 && !self.has_candidate(
                self.todo_repair@[0].version,
            )),
    {
        if self.todo_repair.len() == 0 {
            false
        } else {
            let v = self.todo_repair[0].version;
            !versions_contain(&self.repair_candidates, v)
        }
    }

    /// Picks the next ready work item, discarding stale repairs on the way;
    /// arms a clamped timed wait instead when the first live repair is not
    /// yet due.
    pub fn next_todo_item(&mut self, now: u64) -> (item: Option<TodoItem>)
        requires
            old(self).wf(),
            old(self).task is Idle,
            now + MAX_TIMEOUT_SECONDS <= u64::MAX,
        ensures
            final(self).wf_basic(),
            next_rel(*old(self), *final(self), now, item),
    {
        let ghost pre = *self;
        let ghost q0 = self.todo_repair@;
        let ghost c0 = self.repair_candidates@;
        let ghost k = stale_prefix(q0, c0);
        proof {
            lemma_stale_prefix(q0, c0);
        }
        if self.is_repair_enabled() {
            let ghost mut j: int = 0;
            while self.head_stale()
                invariant
                    pre.wf(),
                    stale_scan_frame(pre, *self),
                    q0 == pre.todo_repair@,
                    c0 == pre.repair_candidates@,
                    k == stale_prefix(q0, c0),
                    0 <= j <= k <= q0.len(),
                    self.todo_repair@ == q0.subrange(j, q0.len() as int),
                    k == j + stale_prefix(self.todo_repair@, c0),
                    self.dequeued_repair == pre.dequeued_repair + j,
                    self.task is Idle,
                    repair_sorted(q0),
                decreases q0.len() - j,
            {
                let ghost cur = self.todo_repair@;
                let it = self.todo_repair.remove(0);
                proof {
                    lemma_stale_prefix_step(cur, c0);
                    lemma_stale_prefix(cur.subrange(1, cur.len() as int), c0);
                    assert(cur.remove(0) =~= q0.subrange(j + 1, q0.len() as int));
                    assert(cur.subrange(1, cur.len() as int) =~= cur.remove(0));
                    j = j + 1;
                }
                self.dequeued_repair = self.dequeued_repair + 1;
            }
            proof {
                assert(k == j);
            }
            if self.todo_repair.len() > 0 {
                let st = self.todo_repair[0].start_time;
                let ver = self.todo_repair[0].version;
                proof {
                    assert(self.todo_repair@[0] == q0[k]);
                }
                if st > now {
                    let wait = st - now;
                    let clamped = if wait >= MAX_TIMEOUT_SECONDS {
                        MAX_TIMEOUT_SECONDS
                    } else {
                        wait
                    };
                    self.task = Task::Wait { deadline: now + clamped };
                    proof {
                        assert(now + clamped == wait_deadline(now, st));
                        lemma_sorted_subrange(q0, k);
                    }
                    return None;
                } else {
                    let it = self.todo_repair.remove(0);
                    set_remove(&mut self.repair_candidates, it.version);
                    proof {
                        assert(q0.subrange(k, q0.len() as int).remove(0) =~= q0.subrange(
                            k + 1,
                            q0.len() as int,
                        ));
                        lemma_sorted_subrange(q0, k + 1);
                    }
                    return Some(
                        TodoItem::RepairContent { start_time: it.start_time, version: it.version },
                    );
                }
            }
            proof {
                lemma_sorted_subrange(q0, k);
            }
        }
        if self.todo_delete.len() > 0 {
            let ghost d0 = self.todo_delete@;
            let versions = self.todo_delete.remove(0);
            proof {
                assert(d0.remove(0) =~= d0.subrange(1, d0.len() as int));
                assert forall|i: int|
                    0 <= i < self.todo_delete@.len() implies 1 <= (
                    #[trigger] self.todo_delete@[i])@.len() <= DELETE_CONCURRENCY by {
                    assert(self.todo_delete@[i] == d0[i + 1]);
                }
            }
            Some(TodoItem::DeleteContent { versions })
        } else {
            None
        }
    }
}

/// The scheduler's activity mark right after waking: polling while the task
/// is active re-stamps `last_not_idle`.
pub open spec fn lni_after_wake(pre: Synchronizer, now: u64) -> u64 {
    if !pre.task.spec_sleeping() {
        now
    } else {
        pre.last_not_idle
    }
}

/// The task right after waking: a reported completion resets it to idle.
pub open spec fn task_after_wake(pre: Synchronizer, task_completed: bool) -> Task {
    if task_completed {
        Task::Idle
    } else {
        pre.task
    }
}

/// What one call of [`Synchronizer::poll`] does.
///
/// While the task is still running or waiting, nothing is dispatched.  Once
/// idle, the next work item is selected as in [`next_rel`]; a delete batch
/// is always started, while a live, due repair additionally needs the node
/// to have been idle for the configured threshold, and is otherwise put
/// back for a later poll.  With repair disabled no repair is ever started.
pub open spec fn poll_rel(
    pre: Synchronizer,
    post: Synchronizer,
    now: u64,
    task_completed: bool,
    action: Action,
) -> bool {
    let lni = lni_after_wake(pre, now);
    let t1 = task_after_wake(pre, task_completed);
    let q = pre.todo_repair@;
    let c = pre.repair_candidates@;
    let k = stale_prefix(q, c);
    let enabled = pre.repair_idleness_threshold.spec_enabled();
    &&& same_config(pre, post)
    &&& same_full_sync(pre, post)
    &&& post.enqueued_repair == pre.enqueued_repair
    &&& post.enqueued_delete == pre.enqueued_delete
    &&& (forall|w: ObjectVersion| post.has_candidate(w) ==> pre.has_candidate(w))
    &&& if !(t1 is Idle) {
        &&& action is Sleep
        &&& post.task == t1
        &&& post.last_not_idle == lni
        &&& post.todo_repair == pre.todo_repair
        &&& post.todo_delete == pre.todo_delete
        &&& post.repair_candidates == pre.repair_candidates
        &&& post.dequeued_repair == pre.dequeued_repair
        &&& post.dequeued_delete == pre.dequeued_delete
    } else if enabled && k < q.len() {
        let it = q[k];
        let d = pre.repair_idleness_threshold->0;
        &&& pre.has_candidate(it.version)
        &&& post.todo_delete == pre.todo_delete
        &&& post.dequeued_delete == pre.dequeued_delete
        &&& if it.start_time > now {
            &&& action == Action::WaitUntil { deadline: wait_deadline(now, it.start_time) }
            &&& post.task == Task::Wait { deadline: wait_deadline(now, it.start_time) }
            &&& post.todo_repair@ == q.subrange(k, q.len() as int)
            &&& post.repair_candidates == pre.repair_candidates
            &&& post.dequeued_repair == pre.dequeued_repair + k
            &&& post.last_not_idle == lni
        } else if now < lni + d {
            &&& action is Sleep
            &&& post.task == t1
            &&& post.todo_repair@ == q.subrange(k, q.len() as int)
            &&& (forall|w: ObjectVersion| post.has_candidate(w) <==> pre.has_candidate(w))
            &&& post.dequeued_repair == pre.dequeued_repair + k
            &&& post.last_not_idle == lni
        } else {
            &&& action == Action::StartRepair { version: it.version }
            &&& post.task == Task::Repair { version: it.version }
            &&& post.todo_repair@ == q.subrange(k + 1, q.len() as int)
            &&& (forall|w: ObjectVersion|
                post.has_candidate(w) <==> pre.has_candidate(w) && w != it.version)
            &&& post.dequeued_repair == pre.dequeued_repair + k + 1
            &&& post.last_not_idle == now
        }
    } else {
        &&& post.todo_repair@ == if enabled {
            q.subrange(k, q.len() as int)
        } else {
            q
        }
        &&& post.dequeued_repair == pre.dequeued_repair + if enabled {
            k
        } else {
            0
        }
        &&& (forall|w: ObjectVersion| post.has_candidate(w) <==> pre.has_candidate(w))
        &&& if pre.todo_delete@.len() > 0 {
            &&& action matches Action::StartDelete { versions } && versions
                == pre.todo_delete@[0]
            &&& post.task matches Task::Delete { versions: held } && held@
                == pre.todo_delete@[0]@
            &&& post.todo_delete@ == pre.todo_delete@.subrange(
                1,
                pre.todo_delete@.len() as int,
            )
            &&& post.dequeued_delete == pre.dequeued_delete + 1
            &&& post.last_not_idle == now
        } else {
            &&& action is Sleep
            &&& post.task == t1
            &&& post.todo_delete == pre.todo_delete
            &&& post.dequeued_delete == pre.dequeued_delete
            &&& post.last_not_idle == lni
        }
    }
}

impl Synchronizer {
    /// One scheduler wake.  `task_completed` reports that the running task
    /// (or armed timer) has finished; the returned action is what the caller
    /// must start next.  The scheduler itself never fails: task failures are
    /// the caller's to log, and it simply reports completion afterwards.
    pub fn poll(&mut self, now: u64, task_completed: bool) -> (action: Action)
        requires
            old(self).wf(),
            now >= old(self).last_not_idle,
            now + MAX_TIMEOUT_SECONDS <= u64::MAX,
        ensures
            final(self).wf(),
            poll_rel(*old(self), *final(self), now, task_completed, action),
    {
        let ghost pre = *self;
        if !self.task.is_sleeping() {
            self.last_not_idle = now;
        }
        if task_completed {
            self.task = Task::Idle;
        }
        let idle_now = match &self.task {
            Task::Idle => true,
            _ => false,
        };
        if !idle_now {
            return Action::Sleep;
        }
        let ghost mid = *self;
        let item = self.next_todo_item(now);
        let ghost sel = *self;
        proof {
            lemma_stale_prefix(pre.todo_repair@, pre.repair_candidates@);
            assert(next_rel(mid, sel, now, item));
        }
        match item {
            None => {
                proof {
                    let qm = mid.todo_repair@;
                    let cm = mid.repair_candidates@;
                    let km = stale_prefix(qm, cm);
                    if mid.repair_idleness_threshold.spec_enabled() && km < qm.len() {
                        assert(sel.repair_candidates == mid.repair_candidates);
                    } else {
                        assert(sel.repair_candidates == mid.repair_candidates);
                    }
                    assert(self.repair_candidates == pre.repair_candidates);
                }
                match &self.task {
                    Task::Wait { deadline } => Action::WaitUntil { deadline: *deadline },
                    _ => Action::Sleep,
                }
            },
            Some(TodoItem::DeleteContent { versions }) => {
                self.dequeued_delete = self.dequeued_delete + 1;
                let held = copy_versions(&versions);
                self.task = Task::Delete { versions: held };
                self.last_not_idle = now;
                proof {
                    assert(sel.repair_candidates == mid.repair_candidates);
                    assert(self.repair_candidates == pre.repair_candidates);
                }
                Action::StartDelete { versions }
            },
            Some(TodoItem::RepairContent { start_time, version }) => {
                match self.repair_idleness_threshold {
                    RepairIdleness::Threshold(d) => {
                        if now - self.last_not_idle < d {
                            let ghost afterq = self.todo_repair@;
                            set_insert(&mut self.repair_candidates, version);
                            self.todo_repair.insert(0, RepairItem { start_time, version });
                            proof {
                                let q = pre.todo_repair@;
                                let c = pre.repair_candidates@;
                                let k = stale_prefix(q, c);
                                lemma_stale_prefix(q, c);
                                if !(mid.repair_idleness_threshold.spec_enabled() && k
                                    < q.len()) {
                                    assert(false);
                                }
                                assert(0 <= k < q.len());
                                assert(version == q[k].version && start_time
                                    == q[k].start_time);
                                assert(afterq == q.subrange(k + 1, q.len() as int));
                                assert(afterq.insert(0, q[k]) =~= q.subrange(
                                    k,
                                    q.len() as int,
                                ));
                                lemma_sorted_subrange(q, k);
                                assert(pre.has_candidate(version));
                                assert forall|w: ObjectVersion|
                                    self.has_candidate(w) <==> pre.has_candidate(w) by {
                                    assert(sel.has_candidate(w) <==> pre.has_candidate(w)
                                        && w != version);
                                    assert(self.repair_candidates@.contains(w)
                                        <==> sel.repair_candidates@.contains(w) || w
                                        == version);
                                }
                            }
                            Action::Sleep
                        } else {
                            self.dequeued_repair = self.dequeued_repair + 1;
                            self.task = Task::Repair { version };
                            self.last_not_idle = now;
                            proof {
                                assert(self.repair_candidates == sel.repair_candidates);
                                assert forall|w: ObjectVersion|
                                    self.has_candidate(w) <==> (pre.has_candidate(w) && w
                                    != version) by {
                                    assert(sel.has_candidate(w) <==> mid.has_candidate(w)
                                        && w != version);
                                }
                            }
                            Action::StartRepair { version }
                        }
                    },
                    RepairIdleness::Disabled => {
                        proof {
                            assert(false);
                        }
                        Action::Sleep
                    },
                }
            },
        }
    }

    /// The window `[lo, hi)` the device must list for the next sweep step,
    /// or nothing when no sweep is running.
    pub fn full_sync_window(&self) -> (w: Option<(u64, u64)>)
        requires
            self.wf(),
        ensures
            self.full_sync matches Some(fs) ==> w == Some((fs.current, fs.spec_window_end())),
            self.full_sync is None ==> w is None,
    {
        match &self.full_sync {
            Some(fs) => Some((fs.current, fs.window_end())),
            None => None,
        }
    }
}

/// What one call of [`Synchronizer::full_sync_advance`] does: the sweep
/// deletes every listed version the snapshot no longer holds (below the
/// sweep bound), advances by one window, updates its metrics, and clears
/// the slot (zeroing the gauge) when the bound is reached.
pub open spec fn sweep_rel(
    pre: Synchronizer,
    post: Synchronizer,
    local: Seq<ObjectVersion>,
    targets: Seq<ObjectVersion>,
) -> bool {
    pre.full_sync matches Some(fs) ==> {
        let hi = fs.spec_window_end();
        &&& targets == sweep_targets(local, fs.machine@, fs.next_commit)
        &&& post.full_sync_deleted_objects == pre.full_sync_deleted_objects + targets.len()
        &&& post.full_sync_remaining == fs.next_commit - hi
        &&& if hi == fs.next_commit {
            post.full_sync is None
        } else {
            post.full_sync matches Some(g) && g.machine == fs.machine && g.next_commit
                == fs.next_commit && g.step == fs.step && g.current == hi
        }
        &&& post.full_sync_count == pre.full_sync_count
        &&& same_repair_state(pre, post)
        &&& same_delete_state(pre, post)
        &&& same_sched(pre, post)
        &&& same_config(pre, post)
    }
}

impl Synchronizer {
    /// Advances the running sweep by one window.  `local` is what the device
    /// listed in the window reported by [`full_sync_window`](Self::full_sync_window);
    /// the returned versions are the ones the caller must delete from the
    /// device.  The sweep runs concurrently with the short-task pipeline: it
    /// never touches the queues or the scheduler position.
    pub fn full_sync_advance(&mut self, local: &Vec<ObjectVersion>) -> (targets: Vec<
        ObjectVersion,
    >)
        requires
            old(self).wf(),
            old(self).full_sync is Some,
            old(self).full_sync_deleted_objects + local@.len() <= u64::MAX,
        ensures
            final(self).wf(),
            sweep_rel(*old(self), *final(self), local@, targets@),
    {
        let fs_opt = self.full_sync.take();
        match fs_opt {
            Some(fs) => {
                let hi = fs.window_end();
                let targets = sweep_window(local, &fs.machine, fs.next_commit);
                self.full_sync_deleted_objects = self.full_sync_deleted_objects + (
                targets.len() as u64);
                if hi >= fs.next_commit {
                    self.full_sync = None;
                    self.full_sync_remaining = 0;
                } else {
                    self.full_sync_remaining = fs.next_commit - hi;
                    self.full_sync = Some(
                        FullSync {
                            machine: fs.machine,
                            next_commit: fs.next_commit,
                            step: fs.step,
                            current: hi,
                        },
                    );
                }
                targets
            },
            None => {
                proof {
                    assert(false);
                }
                Vec::new()
            },
        }
    }
}

} // verus!
