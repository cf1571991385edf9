use std::sync::Arc;

use awr::cache::{Cached, CachedMap, Freshness};

#[test]
fn single_get_after_refresh_within_ttl() {
    let mut c: Cached<u32> = Cached::new(10);
    assert!(matches!(c.lookup(0), Freshness::Stale));
    let stored = c.commit(Arc::new(7), 100);
    assert_eq!(*stored, 7);
    match c.lookup(105) {
        Freshness::Fresh(v) => assert_eq!(*v, 7),
        Freshness::Stale => panic!("a value committed within the TTL window must be served"),
    }
}

#[test]
fn single_entry_expires_at_ttl_boundary() {
    let mut c: Cached<u32> = Cached::new(10);
    c.commit(Arc::new(7), 100);
    assert!(matches!(c.lookup(109), Freshness::Fresh(_)));
    assert!(matches!(c.lookup(110), Freshness::Stale));
    assert!(matches!(c.lookup(99), Freshness::Stale));
}

#[test]
fn single_dirty_forces_one_fetch() {
    let mut c: Cached<u32> = Cached::new(100);
    c.commit(Arc::new(7), 0);
    c.make_dirty();
    assert!(matches!(c.lookup(1), Freshness::Stale));
    c.commit(Arc::new(8), 2);
    match c.lookup(3) {
        Freshness::Fresh(v) => assert_eq!(*v, 8),
        Freshness::Stale => panic!("one commit after a dirty mark must refresh the cache"),
    }
}

#[test]
fn single_set_cache_time_applies_to_later_reads() {
    let mut c: Cached<u32> = Cached::new(100);
    c.commit(Arc::new(7), 0);
    assert!(matches!(c.lookup(50), Freshness::Fresh(_)));
    c.set_cache_time(10);
    assert!(matches!(c.lookup(50), Freshness::Stale));
    assert!(matches!(c.lookup(5), Freshness::Fresh(_)));
}

#[test]
fn map_get_after_refresh_within_ttl() {
    let mut c: CachedMap<String> = CachedMap::new(10);
    assert!(matches!(c.lookup(1, 0), Freshness::Stale));
    c.commit(1, Some(Arc::new("one".to_string())), 100);
    match c.lookup(1, 105) {
        Freshness::Fresh(Some(v)) => assert_eq!(*v, "one"),
        _ => panic!("a value committed within the TTL window must be served"),
    }
}

#[test]
fn map_remembers_absence() {
    let mut c: CachedMap<String> = CachedMap::new(10);
    c.commit(5, None, 100);
    match c.lookup(5, 105) {
        Freshness::Fresh(None) => {}
        _ => panic!("a fresh absent answer must be served without a new fetch"),
    }
    assert!(matches!(c.lookup(5, 200), Freshness::Stale));
}

#[test]
fn map_dirty_forces_one_fetch() {
    let mut c: CachedMap<String> = CachedMap::new(100);
    c.commit(1, Some(Arc::new("one".to_string())), 0);
    c.make_dirty(1);
    assert!(matches!(c.lookup(1, 1), Freshness::Stale));
    c.commit(1, Some(Arc::new("newer".to_string())), 2);
    match c.lookup(1, 3) {
        Freshness::Fresh(Some(v)) => assert_eq!(*v, "newer"),
        _ => panic!("one commit after a dirty mark must refresh the key"),
    }
}

#[test]
fn map_dirty_batch_and_all() {
    let mut c: CachedMap<u32> = CachedMap::new(100);
    c.commit(1, Some(Arc::new(1)), 0);
    c.commit(2, Some(Arc::new(2)), 0);
    c.commit(3, Some(Arc::new(3)), 0);
    c.make_dirty_batch(&vec![1, 2]);
    assert!(matches!(c.lookup(1, 1), Freshness::Stale));
    assert!(matches!(c.lookup(2, 1), Freshness::Stale));
    assert!(matches!(c.lookup(3, 1), Freshness::Fresh(Some(_))));
    c.make_dirty_all();
    assert!(matches!(c.lookup(3, 1), Freshness::Stale));
}

#[test]
fn batch_fetches_only_the_stale_half() {
    let mut c: CachedMap<u32> = CachedMap::new(100);
    c.commit(1, Some(Arc::new(10)), 0);
    c.commit(2, Some(Arc::new(20)), 0);
    let keys = vec![1, 2, 3, 4];
    let (fresh, stale) = c.plan_batch(&keys, 50);
    let fresh_keys: Vec<i64> = fresh.iter().map(|p| p.0).collect();
    assert_eq!(fresh_keys, vec![1, 2]);
    assert_eq!(stale, vec![3, 4]);

    // the remote call covers only the stale half; key 4 does not exist there
    c.commit_batch(&vec![(3, Arc::new(30))], 50);
    let merged = c.collect_fresh(&keys, 50);
    let got: Vec<(i64, u32)> = merged.iter().map(|p| (p.0, *p.1)).collect();
    assert_eq!(got, vec![(1, 10), (2, 20), (3, 30)]);
}

#[test]
fn refresh_all_drops_absent_keys() {
    let mut c: CachedMap<u32> = CachedMap::new(100);
    c.commit(1, Some(Arc::new(10)), 0);
    c.commit(2, Some(Arc::new(20)), 0);
    assert!(matches!(c.lookup(1, 1), Freshness::Fresh(Some(_))));
    c.commit_all(&vec![(2, Arc::new(21)), (3, Arc::new(30))], 1);
    assert!(matches!(c.lookup(1, 1), Freshness::Stale));
    match c.lookup(2, 1) {
        Freshness::Fresh(Some(v)) => assert_eq!(*v, 21),
        _ => panic!("the refreshed key must carry the new value"),
    }
    assert!(matches!(c.lookup(3, 1), Freshness::Fresh(Some(_))));
}
