use openlogi::inventory::persist::{
    is_persistable, persistable, runtime_key, CacheKey, Cached, PersistedKey, ProbeCacheError, ProbeCacheSnapshot,
    SCHEMA_VERSION,
};

#[derive(Debug, Clone, Copy, PartialEq, Eq)]
struct Probe {
    model_id: u16,
    battery_feature: Option<u8>,
}

#[derive(Debug, Clone, Copy, PartialEq, Eq)]
struct Reading {
    percentage: u8,
}

#[test]
fn a_snapshot_keeps_bolt_identity_and_drops_the_volatile_reading() {
    let probe = Probe { model_id: 0xb042, battery_feature: Some(9) };
    let cache = vec![
        (
            CacheKey::Bolt { unit_id: [0xaa, 0xbb, 0xcc, 0xdd] },
            // A live reading at snapshot time.
            Cached { probe, battery_reading: Some(Reading { percentage: 55 }) },
        ),
        (
            CacheKey::UnifyingSlot { receiver_uid: "DA2699E1".into(), slot: 2 },
            Cached { probe: Probe { model_id: 1, battery_feature: None }, battery_reading: None },
        ),
    ];

    let snapshot = ProbeCacheSnapshot::of(&cache);
    assert_eq!(snapshot.version, SCHEMA_VERSION);
    let restored: Vec<(CacheKey, Cached<Probe, Reading>)> = snapshot.into_entries();

    assert_eq!(restored.len(), 1, "unifying entries are slot-keyed and never persisted");
    assert!(matches!(restored[0].0, CacheKey::Bolt { unit_id: [0xaa, 0xbb, 0xcc, 0xdd] }));
    let (_, entry) = &restored[0];
    assert_eq!(entry.probe.model_id, 0xb042);
    assert_eq!(entry.probe.battery_feature, Some(9), "the battery feature index is immutable and kept");
    assert_eq!(entry.battery_reading, None, "the volatile reading must not survive a restart");
}

#[test]
fn a_foreign_schema_yields_a_cold_start() {
    let mut snapshot = ProbeCacheSnapshot::<Probe>::of::<Reading>(&[]);
    snapshot.version = SCHEMA_VERSION + 1;

    assert!(snapshot.into_entries::<Reading>().is_empty());
}

#[test]
fn only_bolt_keys_are_persistable() {
    assert!(is_persistable(&CacheKey::Bolt { unit_id: [1, 2, 3, 4] }));
    assert!(!is_persistable(&CacheKey::Direct("id:1".to_string().into())));
    assert!(!is_persistable(&CacheKey::UnifyingSlot { receiver_uid: "A".into(), slot: 1 }));
    assert_eq!(
        persistable(&CacheKey::Bolt { unit_id: [1, 2, 3, 4] }),
        Some(PersistedKey::Bolt { unit_id: [1, 2, 3, 4] })
    );
    assert!(matches!(runtime_key(PersistedKey::Bolt { unit_id: [5, 6, 7, 8] }), CacheKey::Bolt { unit_id: [5, 6, 7, 8] }));
    let empty = ProbeCacheSnapshot::<Probe>::empty();
    assert!(empty.is_empty());
    assert_eq!(ProbeCacheError::new("disk full").to_string(), "disk full");
}
