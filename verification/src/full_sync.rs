//! The full-sync sweep: a long-running job that walks the version space up
//! to `next_commit` in windows of at most `step` versions and deletes every
//! locally stored version that the authoritative snapshot no longer lists.

use vstd::prelude::*;

use crate::event::ObjectVersion;

verus! {

/// State of one sweep.  `machine` is the snapshot of live versions captured
/// when the sweep started; `current` is the lower end of the next window.
pub struct FullSync {
    pub machine: Vec<ObjectVersion>,
    pub next_commit: u64,
    pub step: u64,
    pub current: u64,
}

/// A locally stored version must be swept away exactly when the snapshot no
/// longer lists it and it lies below the sweep bound.
pub open spec fn sweep_pred(machine: Seq<ObjectVersion>, next_commit: u64) -> spec_fn(u64) -> bool {
    |v: u64| !machine.contains(v) && v < next_commit
}

/// The versions a sweep window deletes, in the order the device listed them.
pub open spec fn sweep_targets(
    local: Seq<ObjectVersion>,
    machine: Seq<ObjectVersion>,
    next_commit: u64,
) -> Seq<ObjectVersion> {
    local.filter(sweep_pred(machine, next_commit))
}

impl FullSync {
    /// A sweep is well formed while its position has not passed the bound.
    pub open spec fn wf(self) -> bool {
        self.current <= self.next_commit
    }

    /// Starts a sweep over `[0, next_commit)`.
    pub fn new(machine: Vec<ObjectVersion>, next_commit: u64, step: u64) -> (fs: FullSync)
        ensures
            fs == (FullSync { machine, next_commit, step, current: 0 }),
            fs.wf(),
    {
        FullSync { machine, next_commit, step, current: 0 }
    }

    /// The upper end of the next window: `current + step`, capped at the
    /// sweep bound.
    pub fn window_end(&self) -> (hi: u64)
        requires
            self.wf(),
        ensures
            hi == self.spec_window_end(),
    {
        if self.step >= self.next_commit - self.current {
            self.next_commit
        } else {
            self.current + self.step
        }
    }

    /// `window_end` as a mathematical value.
    pub open spec fn spec_window_end(self) -> u64 {
        if self.current + self.step >= self.next_commit {
            self.next_commit
        } else {
            (self.current + self.step) as u64
        }
    }
}

/// Whether a vector holds a given version.
pub fn versions_contain(versions: &Vec<ObjectVersion>, v: ObjectVersion) -> (found: bool)
    ensures
        found == versions@.contains(v),
{
    let mut i: usize = 0;
    while i < versions.len()
        invariant
            0 <= i <= versions@.len(),
            forall|j: int| 0 <= j < i ==> versions@[j] != v,
        decreases versions@.len() - i,
    {
        if versions[i] == v {
            return true;
        }
        i = i + 1;
    }
    false
}

/// Computes the delete targets of one sweep window from the versions the
/// device listed in that window.
pub fn sweep_window(
    local: &Vec<ObjectVersion>,
    machine: &Vec<ObjectVersion>,
    next_commit: u64,
) -> (targets: Vec<ObjectVersion>)
    ensures
        targets@ == sweep_targets(local@, machine@, next_commit),
        targets@.len() <= local@.len(),
{
    let pred = Ghost(sweep_pred(machine@, next_commit));
    let mut targets: Vec<ObjectVersion> = Vec::new();
    let mut i: usize = 0;
    proof {
        assert(local@.take(0int) =~= Seq::<u64>::empty());
        reveal(Seq::filter);
    }
    while i < local.len()
        invariant
            0 <= i <= local@.len(),
            pred@ == sweep_pred(machine@, next_commit),
            targets@ == local@.take(i as int).filter(pred@),
            targets@.len() <= i,
        decreases local@.len() - i,
    {
        let v = local[i];
        proof {
            assert(local@.take(i + 1).drop_last() =~= local@.take(i as int));
            assert(local@.take(i + 1).last() == v);
            reveal(Seq::filter);
        }
        if !versions_contain(machine, v) && v < next_commit {
            targets.push(v);
            proof {
                assert(pred@(v));
            }
        } else {
            proof {
                assert(!pred@(v));
            }
        }
        i = i + 1;
    }
    proof {
        assert(local@.take(local@.len() as int) =~= local@);
    }
    targets
}

} // verus!
