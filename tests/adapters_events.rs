use topgg::adapters::{Serenity, SerenityEvent, Twilight};
use topgg::membership::{GuildEvent, GuildTracker};
use topgg::Handler;

#[test]
fn twilight_scenario_resync_add_duplicate_remove() {
    let mut t = Twilight::new();
    t.handle(&GuildEvent::Ready { guilds: vec![1, 2, 3] });
    assert_eq!(t.server_count(), Some(3));
    assert!(t.stats_mut().try_wait());

    t.handle(&GuildEvent::GuildCreate { id: 4 });
    assert_eq!(t.server_count(), Some(4));
    assert!(t.stats().is_pending());
    assert!(t.stats_mut().try_wait());

    t.handle(&GuildEvent::GuildCreate { id: 4 });
    assert_eq!(t.server_count(), Some(4));
    assert!(!t.stats().is_pending());

    t.handle(&GuildEvent::GuildDelete { id: 2 });
    assert_eq!(t.server_count(), Some(3));
    assert!(t.stats().is_pending());
}

#[test]
fn removing_absent_guild_changes_nothing() {
    let mut tracker = GuildTracker::new();
    tracker.resync(&vec![10, 20]);
    assert!(tracker.stats_mut().try_wait());
    assert!(!tracker.remove(30));
    assert_eq!(tracker.stats().stats().server_count(), Some(2));
    assert!(!tracker.stats().is_pending());
    assert!(tracker.remove(10));
    assert!(!tracker.contains(10));
    assert_eq!(tracker.len(), 1);
}

#[test]
fn resync_counts_distinct_guilds() {
    let mut t = Twilight::new();
    t.handle(&GuildEvent::Ready { guilds: vec![5, 5, 6] });
    assert_eq!(t.server_count(), Some(2));
    t.handle(&GuildEvent::Ready { guilds: vec![] });
    assert_eq!(t.server_count(), Some(0));
}

#[test]
fn other_events_are_ignored() {
    let mut t = Twilight::new();
    t.handle(&GuildEvent::Other);
    assert_eq!(t.server_count(), Some(0));
    assert!(!t.stats().is_pending());
}

#[test]
fn count_follows_interleaved_membership() {
    let mut tracker = GuildTracker::new();
    tracker.resync(&vec![1, 2]);
    assert!(tracker.add(3));
    assert!(tracker.remove(1));
    assert!(!tracker.add(3));
    assert!(tracker.add(1));
    assert!(tracker.remove(2));
    assert!(!tracker.remove(2));
    assert_eq!(tracker.stats().stats().server_count(), Some(2));
    assert!(tracker.contains(1) && tracker.contains(3));
}

#[test]
fn serenity_tracking_mode_uses_local_cache() {
    let mut s = Serenity::new();
    assert!(!s.is_cached());
    s.handle(&SerenityEvent::Ready { guilds: vec![1, 2, 3] });
    assert_eq!(s.server_count(), Some(3));
    s.handle(&SerenityEvent::GuildCreate { id: 3, guild_count: 99, is_new: None });
    assert_eq!(s.server_count(), Some(3));
    s.handle(&SerenityEvent::GuildDelete { id: 1, guild_count: 99 });
    assert_eq!(s.server_count(), Some(2));
    s.handle(&SerenityEvent::CacheReady { guild_count: 50 });
    assert_eq!(s.server_count(), Some(2));
}

#[test]
fn serenity_cached_mode_trusts_host_count() {
    let mut s = Serenity::cached();
    assert!(s.is_cached());
    s.handle(&SerenityEvent::CacheReady { guild_count: 7 });
    assert_eq!(s.server_count(), Some(7));
    assert!(s.stats_mut().try_wait());
    s.handle(&SerenityEvent::GuildCreate { id: 1, guild_count: 8, is_new: Some(false) });
    assert_eq!(s.server_count(), Some(7));
    assert!(!s.stats().is_pending());
    s.handle(&SerenityEvent::GuildCreate { id: 2, guild_count: 8, is_new: Some(true) });
    assert_eq!(s.server_count(), Some(8));
    s.handle(&SerenityEvent::GuildDelete { id: 2, guild_count: 7 });
    assert_eq!(s.server_count(), Some(7));
    s.handle(&SerenityEvent::Ready { guilds: vec![4, 4] });
    assert_eq!(s.server_count(), Some(2));
}

fn consume_signal<H: Handler>(handler: &mut H) -> bool {
    handler.stats_mut().try_wait()
}

#[test]
fn handlers_expose_their_shared_stats() {
    let mut t = Twilight::new();
    t.handle(&GuildEvent::GuildCreate { id: 8 });
    assert!(consume_signal(&mut t));
    assert!(!consume_signal(&mut t));
    assert_eq!(Handler::stats(&t).stats().server_count(), Some(1));

    let mut s = Serenity::new();
    s.handle(&SerenityEvent::GuildCreate { id: 8, guild_count: 0, is_new: None });
    assert!(consume_signal(&mut s));
    assert_eq!(Handler::stats(&s).stats().server_count(), Some(1));
}
