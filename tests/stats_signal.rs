use topgg::stats::Stats;
use topgg::SharedStats;

#[test]
fn from_count_sets_server_count() {
    let s = Stats::from_count(42, Some(3));
    assert_eq!(s.server_count(), Some(42));
    assert_eq!(s.shard_count(), 0);
    assert!(s.shards().is_empty());
}

#[test]
fn from_shards_sums_counts() {
    let s = Stats::from_shards(vec![10, 20, 30], Some(1));
    assert_eq!(s.server_count(), Some(60));
    let empty = Stats::from_shards(Vec::new(), None);
    assert_eq!(empty.server_count(), Some(0));
}

#[test]
fn from_usize_matches_from_count() {
    let s: Stats = Stats::from(7usize);
    assert_eq!(s, Stats::from_count(7, None));
}

#[test]
fn new_shared_stats_is_zero_and_quiet() {
    let mut shared = SharedStats::new();
    assert_eq!(shared.stats().server_count(), Some(0));
    assert!(!shared.is_pending());
    assert!(!shared.try_wait());
}

#[test]
fn write_sets_the_signal_once() {
    let mut shared = SharedStats::new();
    shared.write().set_server_count(5);
    assert!(shared.is_pending());
    assert_eq!(shared.stats().server_count(), Some(5));
    assert!(shared.try_wait());
    assert!(!shared.try_wait());
}

#[test]
fn rapid_writes_coalesce_into_one_wakeup() {
    let mut shared = SharedStats::new();
    for n in 1..=25usize {
        shared.write().set_server_count(n);
    }
    assert!(shared.try_wait());
    assert_eq!(shared.stats().server_count(), Some(25));
    assert!(!shared.try_wait());
    shared.write().replace(Stats::from_count(3, None));
    assert!(shared.try_wait());
    assert_eq!(shared.stats().server_count(), Some(3));
}

#[test]
fn guard_operations_edit_the_snapshot() {
    let mut shared = SharedStats::new();
    {
        let guard = shared.write();
        guard.set_server_count(9);
        guard.set_shard_count(4);
        assert_eq!(guard.get().server_count(), Some(9));
        guard.replace(Stats::from_count(11, None));
    }
    assert_eq!(shared.stats().server_count(), Some(11));
}
