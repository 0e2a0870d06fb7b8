use openlogi::channel::pool::reusable_entry;
use openlogi::hid::route::DeviceRoute;

fn bolt(uid: &str, slot: u8) -> DeviceRoute {
    DeviceRoute::Bolt { receiver_uid: uid.into(), slot }
}

#[test]
fn a_route_on_the_same_receiver_reuses_the_open_channel() {
    let routes = vec![bolt("AABB", 1), bolt("CCDD", 1)];
    assert_eq!(reusable_entry(&routes, &[true, true], &bolt("ccdd", 3)), Some(1));
    assert_eq!(reusable_entry(&routes, &[true, true], &bolt("aabb", 2)), Some(0));
}

#[test]
fn closed_channels_are_never_reused() {
    let routes = vec![bolt("AABB", 1), bolt("AABB", 2)];
    assert_eq!(reusable_entry(&routes, &[false, true], &bolt("AABB", 4)), Some(1));
    assert_eq!(reusable_entry(&routes, &[false, false], &bolt("AABB", 4)), None);
}

#[test]
fn direct_routes_and_other_protocols_open_their_own_channel() {
    let routes = vec![
        bolt("AABB", 1),
        DeviceRoute::Direct { vendor_id: 0x046d, product_id: 0xb023 },
    ];
    let direct = DeviceRoute::Direct { vendor_id: 0x046d, product_id: 0xb023 };
    assert_eq!(reusable_entry(&routes, &[true, true], &direct), None);
    let unifying = DeviceRoute::Unifying { receiver_uid: "AABB".into(), slot: 1 };
    assert_eq!(reusable_entry(&routes, &[true, true], &unifying), None);
    assert_eq!(reusable_entry(&[], &[], &bolt("AABB", 1)), None);
}
