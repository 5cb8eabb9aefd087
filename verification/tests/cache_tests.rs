use risk_engine::cache::{MarketSnapshotStore, SNAPSHOT_TTL_SECONDS};
use risk_engine::compound::CompoundClient;
use risk_engine::config::Config;
use risk_engine::models::Address;

fn snapshot_source() -> CompoundClient {
    CompoundClient::new(Config::default()).unwrap()
}

#[test]
fn test_cache_ttl_boundaries() {
    let client = snapshot_source();
    let key = Address { hi: 1, lo: 2 };
    let snapshot = client.create_mock_market();
    let mut store = MarketSnapshotStore::new();
    assert_eq!(store.ttl_seconds, SNAPSHOT_TTL_SECONDS);

    let now: i64 = 1_000;
    store.put(key, snapshot, now);

    // one second before the time-to-live elapses: still served
    let hit = store.get(key, now + SNAPSHOT_TTL_SECONDS - 1);
    assert!(hit.is_some());
    assert_eq!(hit.unwrap().name, "USDC");

    // at the time-to-live: treated as absent
    assert!(store.get(key, now + SNAPSHOT_TTL_SECONDS).is_none());

    // one second after: absent
    assert!(store.get(key, now + SNAPSHOT_TTL_SECONDS + 1).is_none());
}

#[test]
fn test_cache_get_fresh_entry() {
    let client = snapshot_source();
    let key = Address { hi: 7, lo: 9 };
    let mut store = MarketSnapshotStore::new();
    assert!(store.get(key, 0).is_none());

    store.put(key, client.create_mock_market(), 50);
    let hit = store.get(key, 50).unwrap();
    assert_eq!(hit.utilization_rate, 750_000);
    assert!(store.get(key, 109).is_some());
}

#[test]
fn test_cache_put_replaces_entry() {
    let client = snapshot_source();
    let key = Address { hi: 3, lo: 4 };
    let mut store = MarketSnapshotStore::new();

    store.put(key, client.create_mock_market(), 100);
    // a later put renews the entry unconditionally
    store.put(key, client.create_mock_market(), 130);

    // by the old insertion time the entry would have expired; the renewed one is live
    assert!(store.get(key, 100 + SNAPSHOT_TTL_SECONDS + 1).is_some());
    assert!(store.get(key, 130 + SNAPSHOT_TTL_SECONDS + 1).is_none());
}

#[test]
fn test_cache_entries_are_per_key() {
    let client = snapshot_source();
    let mut store = MarketSnapshotStore::new();
    store.put(Address { hi: 1, lo: 1 }, client.create_mock_market(), 10);
    assert!(store.get(Address { hi: 1, lo: 1 }, 10).is_some());
    assert!(store.get(Address { hi: 1, lo: 2 }, 10).is_none());
}
