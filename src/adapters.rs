use vstd::prelude::*;

use crate::membership::{
    changed, resynced, tracker_wf, GuildEvent, GuildTracker, Membership, TrackerView,
};
use crate::shared_stats::{written, SharedStats, SharedStatsView};
use crate::stats::Stats;

verus! {

/// The built-in handler for the twilight gateway: it keeps its own guild-ID
/// cache and reports the cache's size.
pub struct Twilight {
    tracker: GuildTracker,
}

impl View for Twilight {
    type V = TrackerView;

    closed spec fn view(&self) -> TrackerView {
        self.tracker@
    }
}

impl Twilight {
    /// A handler with an empty cache and a zero count.
    pub fn new() -> (r: Twilight)
        ensures
            tracker_wf(r@),
            r@.guilds == Set::<u64>::empty(),
            r@.stats == (SharedStatsView { stats: Stats { server_count: Some(0) }, pending: false }),
    {
        Twilight { tracker: GuildTracker::new() }
    }

    /// Handles one gateway event.
    pub fn handle(&mut self, event: &GuildEvent)
        requires
            tracker_wf(old(self)@),
        ensures
            tracker_wf(final(self)@),
            final(self)@ == match *event {
                GuildEvent::Ready { guilds } => resynced(old(self)@, guilds@),
                GuildEvent::GuildCreate { id } => changed(old(self)@, Membership::Added(id)),
                GuildEvent::GuildDelete { id } => changed(old(self)@, Membership::Removed(id)),
                GuildEvent::Other => old(self)@,
            },
    {
        self.tracker.handle(event);
    }

    /// The server count last written.
    pub fn server_count(&self) -> (r: Option<usize>)
        ensures
            r == self@.stats.stats.server_count,
    {
        self.tracker.stats().stats().server_count
    }

    /// The shared statistics that this handler feeds.
    pub fn stats(&self) -> (r: &SharedStats)
        ensures
            r@ == self@.stats,
    {
        self.tracker.stats()
    }

    /// Mutable access to the shared statistics, for the waiter on the signal.
    pub fn stats_mut(&mut self) -> (r: &mut SharedStats)
        ensures
            r@ == old(self)@.stats,
            final(self)@ == (TrackerView { guilds: old(self)@.guilds, stats: final(r)@ }),
    {
        self.tracker.stats_mut()
    }
}

/// The membership events of the serenity gateway that bear on the count. The
/// host's own guild count rides along; it is read only in cached mode.
pub enum SerenityEvent {
    /// The session is ready, with the guilds the bot is in.
    Ready { guilds: Vec<u64> },
    /// The host's guild cache is filled (cached mode).
    CacheReady { guild_count: usize },
    /// A guild was created or became available. `is_new` is the host's own
    /// verdict, given when it caches guilds.
    GuildCreate { id: u64, guild_count: usize, is_new: Option<bool> },
    /// The bot left a guild.
    GuildDelete { id: u64, guild_count: usize },
    /// Any other event.
    Other,
}

/// The abstract state of a [`Serenity`] handler.
pub struct SerenityView {
    /// Whether the host's guild cache is the source of truth.
    pub cached: bool,
    pub tracker: TrackerView,
}

/// In tracking mode the count matches the local cache.
pub open spec fn serenity_wf(v: SerenityView) -> bool {
    !v.cached ==> tracker_wf(v.tracker)
}

/// The state after the host's own count is written, the local cache untouched.
pub open spec fn host_counted(v: SerenityView, count: usize) -> SerenityView {
    SerenityView {
        cached: v.cached,
        tracker: TrackerView {
            guilds: v.tracker.guilds,
            stats: written(v.tracker.stats, Stats { server_count: Some(count) }),
        },
    }
}

/// The state with the tracker replaced.
pub open spec fn with_tracker(v: SerenityView, t: TrackerView) -> SerenityView {
    SerenityView { cached: v.cached, tracker: t }
}

/// What one event does to a [`Serenity`] handler.
pub open spec fn serenity_step(v: SerenityView, e: SerenityEvent) -> SerenityView {
    if v.cached {
        match e {
            SerenityEvent::Ready { guilds } => host_counted(v, guilds@.len() as usize),
            SerenityEvent::CacheReady { guild_count } => host_counted(v, guild_count),
            SerenityEvent::GuildCreate { guild_count, is_new, .. } => if is_new == Some(true) {
                host_counted(v, guild_count)
            } else {
                v
            },
            SerenityEvent::GuildDelete { guild_count, .. } => host_counted(v, guild_count),
            SerenityEvent::Other => v,
        }
    } else {
        match e {
            SerenityEvent::Ready { guilds } => with_tracker(v, resynced(v.tracker, guilds@)),
            SerenityEvent::GuildCreate { id, .. } => with_tracker(
                v,
                changed(v.tracker, Membership::Added(id)),
            ),
            SerenityEvent::GuildDelete { id, .. } => with_tracker(
                v,
                changed(v.tracker, Membership::Removed(id)),
            ),
            _ => v,
        }
    }
}

/// The built-in handler for the serenity gateway. In tracking mode it keeps its
/// own guild-ID cache; in cached mode it trusts the host's guild cache.
pub struct Serenity {
    cached: bool,
    tracker: GuildTracker,
}

impl View for Serenity {
    type V = SerenityView;

    closed spec fn view(&self) -> SerenityView {
        SerenityView { cached: self.cached, tracker: self.tracker@ }
    }
}

impl Serenity {
    /// A handler in tracking mode, with an empty cache and a zero count.
    pub fn new() -> (r: Serenity)
        ensures
            serenity_wf(r@),
            !r@.cached,
            r@.tracker.guilds == Set::<u64>::empty(),
            r@.tracker.stats == (SharedStatsView {
                stats: Stats { server_count: Some(0) },
                pending: false,
            }),
    {
        Serenity { cached: false, tracker: GuildTracker::new() }
    }

    /// A handler in cached mode, for a host that caches guilds itself.
    pub fn cached() -> (r: Serenity)
        ensures
            serenity_wf(r@),
            r@.cached,
            r@.tracker.guilds == Set::<u64>::empty(),
            r@.tracker.stats == (SharedStatsView {
                stats: Stats { server_count: Some(0) },
                pending: false,
            }),
    {
        Serenity { cached: true, tracker: GuildTracker::new() }
    }

    /// Whether the host's guild cache is the source of truth.
    pub fn is_cached(&self) -> (r: bool)
        ensures
            r == self@.cached,
    {
        self.cached
    }

    fn write_count(&mut self, count: usize)
        ensures
            final(self)@ == host_counted(old(self)@, count),
    {
        self.tracker.stats_mut().write().set_server_count(count);
    }

    /// Handles one gateway event. In cached mode a guild create is counted only
    /// when the host says the guild is new, which the host always says there.
    pub fn handle(&mut self, event: &SerenityEvent)
        requires
            serenity_wf(old(self)@),
            old(self)@.cached && event is GuildCreate ==> event->is_new is Some,
        ensures
            serenity_wf(final(self)@),
            final(self)@ == serenity_step(old(self)@, *event),
    {
        if self.cached {
            match event {
                SerenityEvent::Ready { guilds } => self.write_count(guilds.len()),
                SerenityEvent::CacheReady { guild_count } => self.write_count(*guild_count),
                SerenityEvent::GuildCreate { guild_count, is_new, .. } => {
                    if *is_new == Some(true) {
                        self.write_count(*guild_count);
                    }
                },
                SerenityEvent::GuildDelete { guild_count, .. } => self.write_count(*guild_count),
                SerenityEvent::Other => {},
            }
        } else {
            match event {
                SerenityEvent::Ready { guilds } => self.tracker.resync(guilds),
                SerenityEvent::GuildCreate { id, .. } => {
                    self.tracker.add(*id);
                },
                SerenityEvent::GuildDelete { id, .. } => {
                    self.tracker.remove(*id);
                },
                _ => {},
            }
        }
    }

    /// The server count last written.
    pub fn server_count(&self) -> (r: Option<usize>)
        ensures
            r == self@.tracker.stats.stats.server_count,
    {
        self.tracker.stats().stats().server_count
    }

    /// The shared statistics that this handler feeds.
    pub fn stats(&self) -> (r: &SharedStats)
        ensures
            r@ == self@.tracker.stats,
    {
        self.tracker.stats()
    }

    /// Mutable access to the shared statistics, for the waiter on the signal.
    pub fn stats_mut(&mut self) -> (r: &mut SharedStats)
        ensures
            r@ == old(self)@.tracker.stats,
            final(self)@ == with_tracker(
                old(self)@,
                TrackerView { guilds: old(self)@.tracker.guilds, stats: final(r)@ },
            ),
    {
        self.tracker.stats_mut()
    }
}

} // verus!
