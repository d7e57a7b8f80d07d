use vstd::prelude::*;

use std::collections::HashSet;

use crate::shared_stats::{written, SharedStats, SharedStatsView};
use crate::stats::Stats;

verus! {

broadcast use vstd::std_specs::hash::group_hash_axioms;

/// The membership events of a gateway that bear on the server count.
pub enum GuildEvent {
    /// The full list of guilds the bot is in, sent when a session is ready.
    Ready { guilds: Vec<u64> },
    /// The bot was added to a guild (or a guild became available).
    GuildCreate { id: u64 },
    /// The bot was removed from a guild.
    GuildDelete { id: u64 },
    /// Any other event: it leaves the count alone.
    Other,
}

/// One incremental change of membership, as the count logic sees it.
pub enum Membership {
    Added(u64),
    Removed(u64),
}

impl Membership {
    pub open spec fn id(self) -> u64 {
        match self {
            Membership::Added(id) => id,
            Membership::Removed(id) => id,
        }
    }
}

/// The abstract state of a [`GuildTracker`]: the known guilds and the shared
/// statistics.
pub struct TrackerView {
    pub guilds: Set<u64>,
    pub stats: SharedStatsView,
}

/// The snapshot that reports `guilds` as the membership.
pub open spec fn count_of(guilds: Set<u64>) -> Stats {
    Stats { server_count: Some(guilds.len() as usize) }
}

/// The count always matches the cache, and the cache is finite.
pub open spec fn tracker_wf(v: TrackerView) -> bool {
    &&& v.guilds.finite()
    &&& v.guilds.len() <= usize::MAX
    &&& v.stats.stats == count_of(v.guilds)
}

/// A full resync: the cache becomes the listed guilds and the count is written.
pub open spec fn resynced(v: TrackerView, guilds: Seq<u64>) -> TrackerView {
    TrackerView { guilds: guilds.to_set(), stats: written(v.stats, count_of(guilds.to_set())) }
}

/// One membership change. Only a change of the cache writes the count, so a
/// duplicate add or remove leaves the whole state as it was.
pub open spec fn changed(v: TrackerView, m: Membership) -> TrackerView {
    match m {
        Membership::Added(id) => if v.guilds.contains(id) {
            v
        } else {
            TrackerView {
                guilds: v.guilds.insert(id),
                stats: written(v.stats, count_of(v.guilds.insert(id))),
            }
        },
        Membership::Removed(id) => if !v.guilds.contains(id) {
            v
        } else {
            TrackerView {
                guilds: v.guilds.remove(id),
                stats: written(v.stats, count_of(v.guilds.remove(id))),
            }
        },
    }
}

/// The state after a run of membership changes, in order.
pub open spec fn after_changes(v: TrackerView, ms: Seq<Membership>) -> TrackerView
    decreases ms.len(),
{
    if ms.len() == 0 {
        v
    } else {
        changed(after_changes(v, ms.drop_last()), ms.last())
    }
}

/// Whether the last change that names `id` added it (`Some(true)`), removed it
/// (`Some(false)`), or no change names it (`None`).
pub open spec fn last_change(ms: Seq<Membership>, id: u64) -> Option<bool>
    decreases ms.len(),
{
    if ms.len() == 0 {
        None
    } else if ms.last().id() == id {
        Some(ms.last() is Added)
    } else {
        last_change(ms.drop_last(), id)
    }
}

/// The guilds that are members after `ms`, starting from the resync list
/// `start`: those added and not removed since, and those of `start` that no
/// change names.
pub open spec fn live_guilds(start: Set<u64>, ms: Seq<Membership>) -> Set<u64> {
    Set::new(
        |id: u64|
            match last_change(ms, id) {
                Some(added) => added,
                None => start.contains(id),
            },
    )
}

/// A duplicate change (adding a guild already in the cache, or removing one
/// that is absent) leaves the count and the signal exactly as they were.
pub proof fn lemma_duplicate_change_is_no_op(v: TrackerView, m: Membership)
    requires
        match m {
            Membership::Added(id) => v.guilds.contains(id),
            Membership::Removed(id) => !v.guilds.contains(id),
        },
    ensures
        changed(v, m) == v,
        changed(v, m).stats.stats == v.stats.stats,
        changed(v, m).stats.pending == v.stats.pending,
{
}

/// After a resync to `start` and any run of additions and removals, the cache
/// is the set of guilds added and not removed since (with the untouched part of
/// `start`), and the reported count is its size.
pub proof fn lemma_count_is_live_membership(v: TrackerView, start: Seq<u64>, ms: Seq<Membership>)
    ensures
        after_changes(resynced(v, start), ms).guilds == live_guilds(start.to_set(), ms),
        after_changes(resynced(v, start), ms).stats.stats.server_count == Some(
            live_guilds(start.to_set(), ms).len() as usize,
        ),
{
    lemma_changes_track_live(resynced(v, start), start.to_set(), ms);
}

proof fn lemma_changes_track_live(v: TrackerView, start: Set<u64>, ms: Seq<Membership>)
    requires
        v.guilds == start,
        v.stats.stats == count_of(start),
    ensures
        after_changes(v, ms).guilds == live_guilds(start, ms),
        after_changes(v, ms).stats.stats == count_of(after_changes(v, ms).guilds),
    decreases ms.len(),
{
    if ms.len() == 0 {
        assert(live_guilds(start, ms) =~= start);
    } else {
        let prev = ms.drop_last();
        lemma_changes_track_live(v, start, prev);
        let p = after_changes(v, prev);
        let m = ms.last();
        assert forall|id: u64| #[trigger]
            live_guilds(start, ms).contains(id) == changed(p, m).guilds.contains(id) by {
            assert(last_change(ms, id) == if m.id() == id {
                Some(m is Added)
            } else {
                last_change(prev, id)
            });
        }
        assert(live_guilds(start, ms) =~= changed(p, m).guilds);
    }
}

/// The guild-ID cache of a gateway adapter, with the statistics it feeds.
pub struct GuildTracker {
    guilds: HashSet<u64>,
    stats: SharedStats,
}

impl View for GuildTracker {
    type V = TrackerView;

    closed spec fn view(&self) -> TrackerView {
        TrackerView { guilds: self.guilds@, stats: self.stats@ }
    }
}

impl GuildTracker {
    /// An empty cache, a zero count, and no pending permit.
    pub fn new() -> (r: GuildTracker)
        ensures
            tracker_wf(r@),
            r@.guilds == Set::<u64>::empty(),
            r@.stats == (SharedStatsView { stats: Stats { server_count: Some(0) }, pending: false }),
    {
        GuildTracker { guilds: HashSet::new(), stats: SharedStats::new() }
    }

    /// The shared statistics that this cache feeds.
    pub fn stats(&self) -> (r: &SharedStats)
        ensures
            r@ == self@.stats,
    {
        &self.stats
    }

    /// Mutable access to the shared statistics, for the waiter on the signal.
    pub fn stats_mut(&mut self) -> (r: &mut SharedStats)
        ensures
            r@ == old(self)@.stats,
            final(self)@ == (TrackerView { guilds: old(self)@.guilds, stats: final(r)@ }),
    {
        &mut self.stats
    }

    /// The number of guilds in the cache.
    pub fn len(&self) -> (r: usize)
        ensures
            r == self@.guilds.len(),
    {
        self.guilds.len()
    }

    /// Whether `id` is in the cache.
    pub fn contains(&self, id: u64) -> (r: bool)
        ensures
            r == self@.guilds.contains(id),
    {
        self.guilds.contains(&id)
    }

    /// Replaces the cache with the listed guilds and writes their number.
    pub fn resync(&mut self, guilds: &Vec<u64>)
        ensures
            final(self)@ == resynced(old(self)@, guilds@),
            tracker_wf(final(self)@),
    {
        let mut cache: HashSet<u64> = HashSet::new();
        let mut i: usize = 0;
        while i < guilds.len()
            invariant
                i <= guilds@.len(),
                cache@ == guilds@.subrange(0, i as int).to_set(),
            decreases guilds@.len() - i,
        {
            proof {
                let s = guilds@.subrange(0, i as int + 1);
                assert(s.drop_last() =~= guilds@.subrange(0, i as int));
                Seq::lemma_to_set_insert_commutes(s.drop_last(), s.last());
                assert(s.drop_last() + seq![s.last()] =~= s);
            }
            cache.insert(guilds[i]);
            i = i + 1;
        }
        proof {
            assert(guilds@.subrange(0, i as int) =~= guilds@);
            guilds@.lemma_cardinality_of_set();
            vstd::seq_lib::seq_to_set_is_finite(guilds@);
        }
        self.guilds = cache;
        let n = self.guilds.len();
        self.stats.write().set_server_count(n);
    }

    /// Records that the bot joined `id`. Says whether the cache changed; only
    /// then is the count written (and the permit set).
    pub fn add(&mut self, id: u64) -> (r: bool)
        requires
            tracker_wf(old(self)@),
        ensures
            r == !old(self)@.guilds.contains(id),
            final(self)@ == changed(old(self)@, Membership::Added(id)),
            tracker_wf(final(self)@),
    {
        if self.guilds.contains(&id) {
            return false;
        }
        self.guilds.insert(id);
        let n = self.guilds.len();
        self.stats.write().set_server_count(n);
        true
    }

    /// Records that the bot left `id`. Says whether the cache changed; only
    /// then is the count written (and the permit set).
    pub fn remove(&mut self, id: u64) -> (r: bool)
        requires
            tracker_wf(old(self)@),
        ensures
            r == old(self)@.guilds.contains(id),
            final(self)@ == changed(old(self)@, Membership::Removed(id)),
            tracker_wf(final(self)@),
    {
        if !self.guilds.contains(&id) {
            return false;
        }
        self.guilds.remove(&id);
        let n = self.guilds.len();
        self.stats.write().set_server_count(n);
        true
    }

    /// Applies one gateway event: a ready event resyncs, a guild create adds,
    /// a guild delete removes, and anything else is ignored.
    pub fn handle(&mut self, event: &GuildEvent)
        requires
            tracker_wf(old(self)@),
        ensures
            tracker_wf(final(self)@),
            final(self)@ == match *event {
                GuildEvent::Ready { guilds } => resynced(old(self)@, guilds@),
                GuildEvent::GuildCreate { id } => changed(old(self)@, Membership::Added(id)),
                GuildEvent::GuildDelete { id } => changed(old(self)@, Membership::Removed(id)),
                GuildEvent::Other => old(self)@,
            },
    {
        match event {
            GuildEvent::Ready { guilds } => self.resync(guilds),
            GuildEvent::GuildCreate { id } => {
                self.add(*id);
            },
            GuildEvent::GuildDelete { id } => {
                self.remove(*id);
            },
            GuildEvent::Other => {},
        }
    }
}

} // verus!
