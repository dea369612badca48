use std::sync::Arc;

use bounded_cache::cache::Cache;
use bounded_cache::config::CacheConfig;
use parking_lot::Mutex;

fn insert_from_many_threads(max_entries: usize, writers: usize) -> Cache {
    let cache = Arc::new(Mutex::new(Cache::new(CacheConfig { max_item_size: 64, max_entries })));
    let runtime = tokio::runtime::Builder::new_multi_thread().worker_threads(4).build().unwrap();
    runtime.block_on(async {
        let mut handles = Vec::new();
        for i in 0..writers {
            let cache = Arc::clone(&cache);
            handles.push(tokio::task::spawn_blocking(move || {
                cache.lock().insert(format!("key-{}", i), format!("payload-{}", i));
            }));
        }
        for handle in handles {
            handle.await.unwrap();
        }
    });
    drop(runtime);
    match Arc::try_unwrap(cache) {
        Ok(lock) => lock.into_inner(),
        Err(_) => panic!("a writer still holds the cache"),
    }
}

#[test]
fn concurrent_inserts_within_the_limit_are_all_kept() {
    let mut cache = insert_from_many_threads(32, 32);
    assert_eq!(cache.len(), 32);
    for i in 0..32 {
        assert_eq!(cache.get(&format!("key-{}", i)).unwrap().get(), &format!("payload-{}", i));
    }
}

#[test]
fn concurrent_inserts_beyond_the_limit_stop_at_it() {
    let mut cache = insert_from_many_threads(8, 40);
    assert_eq!(cache.len(), 8);
    let mut present = 0;
    for i in 0..40 {
        if let Some(mut found) = cache.get(&format!("key-{}", i)) {
            assert_eq!(found.get(), &format!("payload-{}", i));
            present += 1;
        }
    }
    assert_eq!(present, 8);
}
