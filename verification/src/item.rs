//! The work item model: a tagged variant unifying repair and delete work,
//! with the deterministic order that drives the repair queue.

use vstd::prelude::*;

use crate::event::Event;
use crate::event::ObjectVersion;

verus! {

/// One pending repair: `start_time` is the absolute wall-clock second at
/// which the repair becomes eligible.
#[derive(Clone, Copy, PartialEq, Eq, Structural, Debug)]
pub struct RepairItem {
    pub start_time: u64,
    pub version: ObjectVersion,
}

/// The order of the repair queue: earlier `start_time` first, ties broken by
/// `version` ascending.
pub open spec fn item_le(a: RepairItem, b: RepairItem) -> bool {
    a.start_time < b.start_time || (a.start_time == b.start_time && a.version <= b.version)
}

/// A sequence of repair items in dispatch order.
pub open spec fn repair_sorted(q: Seq<RepairItem>) -> bool {
    forall|i: int, j: int| 0 <= i < j < q.len() ==> #[trigger] item_le(q[i], q[j])
}

/// A sorted queue stays sorted when a prefix is dropped.
pub proof fn lemma_sorted_subrange(q: Seq<RepairItem>, k: int)
    requires
        repair_sorted(q),
        0 <= k <= q.len(),
    ensures
        repair_sorted(q.subrange(k, q.len() as int)),
{
    let s = q.subrange(k, q.len() as int);
    assert forall|i: int, j: int| 0 <= i < j < s.len() implies #[trigger] item_le(s[i], s[j]) by {
        assert(s[i] == q[k + i]);
        assert(s[j] == q[k + j]);
    }
}

/// How many items at the front of the repair queue are stale, that is, their
/// version is no longer a repair candidate.  The scheduler discards exactly
/// this prefix before it finds work.
pub open spec fn stale_prefix(q: Seq<RepairItem>, cands: Seq<ObjectVersion>) -> int
    decreases q.len(),
{
    if q.len() == 0 {
        0
    } else if cands.contains(q[0].version) {
        0
    } else {
        1 + stale_prefix(q.subrange(1, q.len() as int), cands)
    }
}

/// The stale prefix is a genuine prefix: it is in bounds, every item in it is
/// stale, and the item right after it (if any) is live.
pub proof fn lemma_stale_prefix(q: Seq<RepairItem>, cands: Seq<ObjectVersion>)
    ensures
        0 <= stale_prefix(q, cands) <= q.len(),
        forall|i: int| 0 <= i < stale_prefix(q, cands) ==> !cands.contains(#[trigger] q[i].version),
        stale_prefix(q, cands) < q.len() ==> cands.contains(q[stale_prefix(q, cands)].version),
    decreases q.len(),
{
    if q.len() == 0 {
    } else if cands.contains(q[0].version) {
    } else {
        let rest = q.subrange(1, q.len() as int);
        lemma_stale_prefix(rest, cands);
        let k = stale_prefix(q, cands);
        assert forall|i: int| 0 <= i < k implies !cands.contains(#[trigger] q[i].version) by {
            if i > 0 {
                assert(rest[i - 1] == q[i]);
            }
        }
        if k < q.len() {
            assert(rest[k - 1] == q[k]);
        }
    }
}

/// Dropping one stale head item shortens the stale prefix by exactly one.
pub proof fn lemma_stale_prefix_step(q: Seq<RepairItem>, cands: Seq<ObjectVersion>)
    requires
        q.len() > 0,
        !cands.contains(q[0].version),
    ensures
        stale_prefix(q, cands) == 1 + stale_prefix(q.subrange(1, q.len() as int), cands),
{
}

/// An internal work item of the synchronizer: either one delayed repair or
/// one batch of deletions, executed as a unit.
pub enum TodoItem {
    RepairContent { start_time: u64, version: ObjectVersion },
    DeleteContent { versions: Vec<ObjectVersion> },
}

impl TodoItem {
    /// Classifies a lifecycle event as work: a put becomes a repair eligible
    /// `put_content_timeout` seconds from `now`, a delete becomes a
    /// single-version delete batch.  Full-sync events are routed separately
    /// and must not reach this constructor.
    pub fn new(event: &Event, now: u64) -> (item: TodoItem)
        requires
            !(event is FullSync),
            *event matches Event::Putted { put_content_timeout, .. }
                ==> now + put_content_timeout <= u64::MAX,
        ensures
            *event matches Event::Putted { version, put_content_timeout }
                ==> item == (TodoItem::RepairContent {
                    start_time: (now + put_content_timeout) as u64,
                    version,
                }),
            *event matches Event::Deleted { version }
                ==> item matches TodoItem::DeleteContent { versions }
                    && versions@ == seq![version],
    {
        match event {
            Event::Deleted { version } => {
                let versions = vec![*version];
                TodoItem::DeleteContent { versions }
            },
            Event::Putted { version, put_content_timeout } => {
                TodoItem::RepairContent {
                    start_time: now + *put_content_timeout,
                    version: *version,
                }
            },
            Event::FullSync { .. } => {
                proof {
                    assert(false);
                }
                TodoItem::DeleteContent { versions: Vec::new() }
            },
        }
    }

    /// The remaining delay before the item may run: deletes are always
    /// immediate, a repair waits until its `start_time` has passed.
    pub fn wait_time(&self, now: u64) -> (wait: Option<u64>)
        ensures
            self is DeleteContent ==> wait is None,
            self matches TodoItem::RepairContent { start_time, .. } ==> {
                &&& start_time > now ==> wait == Some((start_time - now) as u64)
                &&& start_time <= now ==> wait is None
            },
    {
        match self {
            TodoItem::DeleteContent { .. } => None,
            TodoItem::RepairContent { start_time, .. } => {
                if *start_time > now {
                    Some(*start_time - now)
                } else {
                    None
                }
            },
        }
    }
}

} // verus!
