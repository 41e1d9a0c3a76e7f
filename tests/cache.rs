use std::sync::Arc;

use fn_gateway::cache::{CacheError, InstanceCache};

#[test]
fn cold_start_installs_one_instance() {
    let mut cache: InstanceCache<String> = InstanceCache::new();
    assert!(cache.lookup(7).is_none());
    assert!(cache.needs_initialization(7));
    let first = cache.complete::<()>(7, Ok(Arc::new(String::from("first")))).unwrap();
    assert!(!cache.needs_initialization(7));
    let again = cache.complete::<()>(7, Ok(Arc::new(String::from("second")))).unwrap();
    assert!(Arc::ptr_eq(&first, &again));
    assert_eq!(*again, "first");
    assert_eq!(cache.len(), 1);
}

#[test]
fn instance_is_reused() {
    let mut cache: InstanceCache<u32> = InstanceCache::new();
    let a = cache.complete::<()>(1, Ok(Arc::new(10))).unwrap();
    cache.complete::<()>(2, Ok(Arc::new(20))).unwrap();
    for _ in 0..5 {
        let b = cache.lookup(1).unwrap();
        assert!(Arc::ptr_eq(&a, &b));
        let c = cache.fetch(1).unwrap();
        assert!(Arc::ptr_eq(&a, &c));
    }
}

#[test]
fn failed_initialization_leaves_cache_unchanged() {
    let mut cache: InstanceCache<u32> = InstanceCache::new();
    let r = cache.complete(3, Err("spawn failed"));
    assert_eq!(r.err(), Some("spawn failed"));
    assert_eq!(cache.len(), 0);
    assert!(cache.needs_initialization(3));
    let ok = cache.complete::<&str>(3, Ok(Arc::new(30))).unwrap();
    assert_eq!(*ok, 30);
}

#[test]
fn fetch_of_missing_entry_is_a_race_error() {
    let cache: InstanceCache<u32> = InstanceCache::new();
    assert_eq!(cache.fetch(9).err(), Some(CacheError::RaceError));
}

#[test]
fn thirty_two_cold_requests_initialize_once() {
    let lock = parking_lot::RwLock::new(InstanceCache::<u32>::new());
    let mut initializations = 0;
    let mut served = Vec::new();
    for _ in 0..32 {
        let hit = lock.read().lookup(42);
        let instance = match hit {
            Some(i) => i,
            None => {
                let mut w = lock.write();
                if w.needs_initialization(42) {
                    initializations += 1;
                    w.complete::<()>(42, Ok(Arc::new(1))).unwrap();
                }
                drop(w);
                lock.read().fetch(42).unwrap()
            }
        };
        served.push(instance);
    }
    assert_eq!(initializations, 1);
    assert_eq!(served.len(), 32);
    assert!(served.iter().all(|s| Arc::ptr_eq(s, &served[0])));
}

#[test]
fn initialize_runs_only_for_a_missing_instance() {
    let mut cache: InstanceCache<u32> = InstanceCache::new();
    let mut runs = 0;
    let first = cache
        .initialize_if_missing::<(), _>(4, || {
            runs += 1;
            Ok(Arc::new(40))
        })
        .unwrap();
    let second = cache
        .initialize_if_missing::<(), _>(4, || {
            runs += 1;
            Ok(Arc::new(41))
        })
        .unwrap();
    assert_eq!(runs, 1);
    assert!(Arc::ptr_eq(&first, &second));
    let failed = cache.initialize_if_missing(5, || Err("compile failed"));
    assert_eq!(failed.err(), Some("compile failed"));
    assert!(cache.lookup(5).is_none());
}
