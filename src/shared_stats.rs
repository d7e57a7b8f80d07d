use vstd::prelude::*;

use crate::stats::Stats;

verus! {

/// Scoped write access to the snapshot held by a [`SharedStats`].
pub struct SharedStatsGuard {
    stats: Stats,
}

impl View for SharedStatsGuard {
    type V = Stats;

    closed spec fn view(&self) -> Stats {
        self.stats
    }
}

impl SharedStatsGuard {
    /// Replaces the whole snapshot.
    pub fn replace(&mut self, other: Stats)
        ensures
            final(self)@ == other,
    {
        self.stats = other;
    }

    /// Sets the server count of the snapshot.
    pub fn set_server_count(&mut self, server_count: usize)
        ensures
            final(self)@ == (Stats { server_count: Some(server_count) }),
    {
        self.stats.server_count = Some(server_count);
    }

    /// Shard counts are no longer reported: the snapshot is left as it is.
    pub fn set_shard_count(&mut self, _shard_count: usize)
        ensures
            final(self)@ == old(self)@,
    {
    }

    /// The snapshot as it stands.
    pub fn get(&self) -> (r: Stats)
        ensures
            r == self@,
    {
        self.stats
    }
}

/// The abstract state of a [`SharedStats`]: the latest snapshot, and whether a
/// change is waiting to be flushed (the single pending permit).
pub struct SharedStatsView {
    pub stats: Stats,
    pub pending: bool,
}

/// The state after a write that left `stats` as the snapshot: the permit is
/// set, whether or not it was set before.
pub open spec fn written(v: SharedStatsView, stats: Stats) -> SharedStatsView {
    SharedStatsView { stats, pending: true }
}

/// One wait on the signal: whether a permit was consumed, and the state after.
pub open spec fn waited(v: SharedStatsView) -> (bool, SharedStatsView) {
    (v.pending, SharedStatsView { stats: v.stats, pending: false })
}

/// The state after a run of writes, one per snapshot, in order.
pub open spec fn after_writes(v: SharedStatsView, snapshots: Seq<Stats>) -> SharedStatsView
    decreases snapshots.len(),
{
    if snapshots.len() == 0 {
        v
    } else {
        written(after_writes(v, snapshots.drop_last()), snapshots.last())
    }
}

/// The statistics snapshot together with a one-permit "update pending" signal.
///
/// Every write sets the permit; a wait consumes it. Since at most one permit
/// exists, any number of writes before a wait wake the waiter once.
pub struct SharedStats {
    guard: SharedStatsGuard,
    pending: bool,
}

impl View for SharedStats {
    type V = SharedStatsView;

    closed spec fn view(&self) -> SharedStatsView {
        SharedStatsView { stats: self.guard.stats, pending: self.pending }
    }
}

impl SharedStats {
    /// A holder with a zero server count and no pending permit.
    pub fn new() -> (r: SharedStats)
        ensures
            r@ == (SharedStatsView { stats: Stats { server_count: Some(0) }, pending: false }),
    {
        SharedStats { guard: SharedStatsGuard { stats: Stats::from_count(0, None) }, pending: false }
    }

    /// Exclusive access to the snapshot. The write counts as a change: once the
    /// guard is released the permit is set.
    pub fn write(&mut self) -> (g: &mut SharedStatsGuard)
        ensures
            g@ == old(self)@.stats,
            final(self)@ == written(old(self)@, final(g)@),
    {
        self.pending = true;
        &mut self.guard
    }

    /// The current snapshot.
    pub fn stats(&self) -> (r: Stats)
        ensures
            r == self@.stats,
    {
        self.guard.stats
    }

    /// Whether a change is waiting to be flushed.
    pub fn is_pending(&self) -> (r: bool)
        ensures
            r == self@.pending,
    {
        self.pending
    }

    /// Consumes the pending permit if there is one, and says whether there was.
    /// A waiter that gets `false` suspends until the next write.
    pub fn try_wait(&mut self) -> (r: bool)
        ensures
            (r, final(self)@) == waited(old(self)@),
    {
        let had = self.pending;
        self.pending = false;
        had
    }
}

/// Any run of one or more writes before a wait leaves exactly one permit: the
/// first wait consumes it, and a second wait finds none.
pub proof fn lemma_writes_coalesce(v: SharedStatsView, snapshots: Seq<Stats>)
    requires
        snapshots.len() >= 1,
    ensures
        waited(after_writes(v, snapshots)).0,
        waited(after_writes(v, snapshots)).1.stats == snapshots.last(),
        !waited(waited(after_writes(v, snapshots)).1).0,
{
}

} // verus!
