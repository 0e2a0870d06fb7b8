use openlogi::device_order::{DeviceIdentity, DeviceStableId, PhysicalDeviceKey};
use openlogi::hid::route::DeviceRoute;

#[test]
fn unifying_route_maps_to_bolt_stable_id() {
    let route = DeviceRoute::Unifying { receiver_uid: "DA2699E1".into(), slot: 2 };
    let id = DeviceStableId::from_parts(Some(&route), 2, None, [0; 4]);
    assert!(
        matches!(id, DeviceStableId::Bolt { ref receiver_uid, slot: 2 } if receiver_uid == "da2699e1"),
        "Unifying route should map to DeviceStableId::Bolt with case-folded uid"
    );
}

#[test]
fn bolt_and_unifying_same_uid_slot_produce_identical_stable_id() {
    let bolt = DeviceRoute::Bolt { receiver_uid: "AABB".into(), slot: 1 };
    let unifying = DeviceRoute::Unifying { receiver_uid: "AABB".into(), slot: 1 };
    assert_eq!(
        DeviceStableId::from_parts(Some(&bolt), 1, None, [0; 4]),
        DeviceStableId::from_parts(Some(&unifying), 1, None, [0; 4]),
    );
}

#[test]
fn config_key_is_physical_not_model_scoped() {
    let route = DeviceRoute::Bolt { receiver_uid: "AABB".into(), slot: 2 };

    assert_eq!(
        DeviceStableId::from_parts(Some(&route), 2, Some("SERIAL"), [1, 2, 3, 4])
            .physical_key()
            .map(PhysicalDeviceKey::into_string),
        Some("receiver:aabb:slot:2".to_string())
    );
}

#[test]
fn zero_unit_direct_identity_is_transient() {
    let route = DeviceRoute::Direct { vendor_id: 0x046d, product_id: 0xb023 };
    let id = DeviceStableId::from_parts(Some(&route), 0xff, None, [0; 4]);

    assert!(id.physical_key().is_none());
    assert_eq!(id.runtime_key(), "direct:046d:b023:unit:00000000");
    assert!(PhysicalDeviceKey::is_transient(&id.runtime_key()));
    assert!(PhysicalDeviceKey::parse(&id.runtime_key()).is_none());
}

#[test]
fn serial_identity_is_physical_when_unit_is_zero() {
    let route = DeviceRoute::Direct { vendor_id: 0x046d, product_id: 0xb023 };
    let key = DeviceStableId::from_parts(Some(&route), 0xff, Some("ABCDEF"), [0; 4])
        .physical_key()
        .map(PhysicalDeviceKey::into_string);

    assert_eq!(key, Some("direct:046d:b023:serial:abcdef".to_string()));
}

#[test]
fn nonzero_unit_identity_is_physical_without_serial() {
    let route = DeviceRoute::Direct { vendor_id: 0x046d, product_id: 0xb023 };
    let key = DeviceStableId::from_parts(Some(&route), 0xff, None, [0xa3, 0x93, 0xca, 0xe0])
        .physical_key()
        .map(PhysicalDeviceKey::into_string);

    assert_eq!(key, Some("direct:046d:b023:unit:a393cae0".to_string()));
}

#[test]
fn parser_distinguishes_physical_keys_from_legacy_model_keys() {
    assert!(PhysicalDeviceKey::parse("receiver:d0289db2:slot:1").is_some());
    assert!(PhysicalDeviceKey::parse("direct:046d:b023:unit:a393cae0").is_some());
    assert!(PhysicalDeviceKey::parse("2b034").is_none());
}

#[test]
fn raw_os_identity_is_transient_across_reconnects() {
    let old = DeviceRoute::RawHid {
        vendor_id: 0x046d,
        product_id: 0xc900,
        usage_page: 0xff43,
        usage_id: 0x0202,
        identity: "id:old-node".into(),
    };
    let new = DeviceRoute::RawHid {
        vendor_id: 0x046d,
        product_id: 0xc900,
        usage_page: 0xff43,
        usage_id: 0x0202,
        identity: "id:new-node".into(),
    };
    let old_id = DeviceStableId::from_parts(Some(&old), 0xff, None, [0; 4]);
    let new_id = DeviceStableId::from_parts(Some(&new), 0xff, None, [0; 4]);
    assert_ne!(old_id.runtime_key(), new_id.runtime_key());
    assert!(old_id.physical_key().is_none());
    assert!(new_id.physical_key().is_none());
}

#[test]
fn raw_serial_identity_survives_a_changed_os_node() {
    let route = DeviceRoute::RawHid {
        vendor_id: 0x046d,
        product_id: 0xc900,
        usage_page: 0xff43,
        usage_id: 0x0202,
        identity: "serial:glow-1".into(),
    };
    let key = DeviceStableId::from_parts(Some(&route), 0xff, Some("glow-1"), [0; 4])
        .physical_key()
        .map(PhysicalDeviceKey::into_string);
    assert_eq!(key, Some("raw:046d:c900:ff43:0202:serial:glow-1".into()));
}

#[test]
fn a_direct_route_key_drops_the_device_identity() {
    let id = DeviceStableId::Direct {
        vendor_id: 0x046d,
        product_id: 0xc08d,
        identity: DeviceIdentity::Unit([0x6b, 0xe9, 0xd3, 0x00]),
    };
    assert_eq!(id.runtime_key(), "direct:046d:c08d:unit:6be9d300");
    assert_eq!(id.route_key(), "direct:046d:c08d");
}

#[test]
fn other_routes_keep_their_runtime_key() {
    let bolt = DeviceStableId::Bolt { receiver_uid: "82839805".to_string(), slot: 1 };
    assert_eq!(bolt.route_key(), bolt.runtime_key());

    let unknown = DeviceStableId::Unknown { slot: 255, identity: DeviceIdentity::Unit([1, 2, 3, 4]) };
    assert_eq!(unknown.route_key(), unknown.runtime_key());
}

#[test]
fn every_emitted_physical_key_parses_back() {
    let ids = [
        DeviceStableId::Bolt { receiver_uid: "ab:slot:cd".to_string(), slot: 200 },
        DeviceStableId::Direct { vendor_id: 0x046d, product_id: 0xc08d, identity: DeviceIdentity::Serial("x:y".into()) },
        DeviceStableId::Unknown { slot: 7, identity: DeviceIdentity::Unit([0, 0, 0, 1]) },
        DeviceStableId::RawHid {
            vendor_id: 1,
            product_id: 2,
            usage_page: 3,
            usage_id: 4,
            identity: "stable:a:b".into(),
        },
    ];
    for id in ids {
        let key = id.physical_key().expect("physical");
        let parsed = PhysicalDeviceKey::parse(key.as_str()).expect("parses");
        assert_eq!(parsed, key);
    }
    assert_eq!(
        DeviceStableId::Unknown { slot: 9, identity: DeviceIdentity::Unit([0; 4]) }.runtime_key(),
        "unknown:slot:9:unit:00000000"
    );
    assert!(PhysicalDeviceKey::is_transient("unknown:slot:9:unit:00000000"));
    assert!(PhysicalDeviceKey::is_transient("raw:046d:c900:ff43:0202:id:node"));
    assert!(!PhysicalDeviceKey::is_transient("raw:046d:c900:ff43:0202:serial:x"));
    assert!(PhysicalDeviceKey::parse("receiver::slot:1").is_none());
    assert!(PhysicalDeviceKey::parse("receiver:a:slot:256").is_none());
    assert!(PhysicalDeviceKey::parse("receiver:a:slot:+7").is_some());
    assert!(PhysicalDeviceKey::parse("unit:0000000g").is_none());
    assert!(PhysicalDeviceKey::parse("serial:s").is_some());
}

#[test]
fn identity_prefers_a_non_empty_serial() {
    assert_eq!(DeviceIdentity::from_parts(Some("AbC"), [1, 2, 3, 4]), DeviceIdentity::Serial("abc".into()));
    assert_eq!(DeviceIdentity::from_parts(Some(""), [1, 2, 3, 4]), DeviceIdentity::Unit([1, 2, 3, 4]));
    assert_eq!(DeviceIdentity::from_parts(None, [9, 9, 9, 9]).key(), "unit:09090909");
}

#[test]
fn transient_keys_never_parse_as_physical_keys() {
    for key in [
        "direct:046d:b023:unit:00000000",
        "unknown:slot:1:unit:00000000",
        "raw:046d:c900:ff43:0202:id:4294970000",
    ] {
        assert!(PhysicalDeviceKey::is_transient(key), "{key} should be transient");
        assert!(PhysicalDeviceKey::parse(key).is_none(), "{key} should not parse");
    }
}

#[test]
fn receiver_keys_need_a_receiver_uid() {
    let bolt = DeviceStableId::Bolt { receiver_uid: "d0289db2".into(), slot: 1 };
    let key = bolt.physical_key().expect("a receiver with a uid has a physical key");
    assert_eq!(PhysicalDeviceKey::parse(key.as_str()), Some(key));
    let nameless = DeviceStableId::Bolt { receiver_uid: String::new(), slot: 1 };
    assert!(nameless.physical_key().is_none(), "an empty uid names no receiver");
    assert!(PhysicalDeviceKey::parse("receiver::slot:1").is_none());
}
