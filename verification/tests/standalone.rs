use openlogi::backend::{NodeId, NodeInfo};
use openlogi::inventory::standalone::{
    standalone_device, standalone_devices, validate_no_ambiguous_nodes, InventoryError, RawDeviceAddress,
    StandaloneDevice,
};
use openlogi::registry::matches_litra;

#[test]
fn glow_fixture_matches_standalone_driver() {
    assert!(matches_litra(0x046d, 0xc900, 0xff43, 0x0202));
}

fn raw(identity: &str) -> StandaloneDevice {
    StandaloneDevice {
        address: RawDeviceAddress {
            vendor_id: 0x046d,
            product_id: 0xc900,
            usage_page: 0xff43,
            usage_id: 0x0202,
            identity: identity.into(),
        },
        display_name: "Litra Glow".into(),
        manufacturer: Some("Logi".into()),
        serial_number: identity.strip_prefix("serial:").map(str::to_string),
        unit_id: [0; 4],
        online: true,
        light_capabilities: None,
        driver_id: "litra".into(),
        registry_model_id: None,
    }
}

#[test]
fn duplicate_transient_nodes_are_rejected() {
    let devices = vec![raw("id:old"), raw("id:new")];
    assert!(matches!(
        validate_no_ambiguous_nodes(&devices),
        Err(InventoryError::AmbiguousRawDevice)
    ));
}

#[test]
fn distinct_serials_can_share_the_same_hid_tuple() {
    let devices = vec![raw("serial:one"), raw("serial:two")];
    let validation = validate_no_ambiguous_nodes(&devices);
    assert!(
        validation.is_ok(),
        "serial-backed nodes stay distinguishable: {validation:?}"
    );
}

#[test]
fn equal_serials_or_one_transient_node_are_ambiguous() {
    assert!(validate_no_ambiguous_nodes(&[raw("serial:one"), raw("serial:one")]).is_err());
    assert!(validate_no_ambiguous_nodes(&[raw("serial:one"), raw("id:two")]).is_err());
    let mut other = raw("id:two");
    other.address.product_id = 0xc901;
    assert!(validate_no_ambiguous_nodes(&[raw("id:one"), other]).is_ok());
    assert!(validate_no_ambiguous_nodes(&[raw("id:one")]).is_ok());
}

fn node(id: &str, product_id: u16, usage_page: u16, serial: Option<&str>) -> NodeInfo {
    NodeInfo {
        id: NodeId::from(id.to_string()),
        vendor_id: 0x046d,
        product_id,
        usage_page,
        usage_id: 0x0202,
        name: "Litra".into(),
        manufacturer: None,
        serial_number: serial.map(str::to_string),
    }
}

#[test]
fn only_litra_nodes_become_standalone_devices() {
    let glow = standalone_device(&node("n1", 0xc900, 0xff43, Some("ABC"))).expect("a Glow is standalone");
    assert_eq!(glow.address.identity, "serial:abc");
    assert_eq!(glow.driver_id, "litra");
    assert_eq!(glow.registry_model_id.as_deref(), Some("8c900"));
    assert!(glow.online);
    assert!(glow.light_capabilities.expect("lights have capabilities").power);
    assert!(standalone_device(&node("n2", 0xc900, 0xff00, None)).is_none());

    let devices = standalone_devices(&[
        node("n1", 0xc900, 0xff43, Some("one")),
        node("n2", 0xc52b, 0xff00, None),
        node("n3", 0xc901, 0xff43, None),
    ])
    .expect("distinct lights");
    assert_eq!(devices.len(), 2);
    assert_eq!(devices[1].address.identity, "id:n3");
    assert_eq!(devices[1].registry_model_id.as_deref(), Some("8c901"));

    assert!(matches!(
        standalone_devices(&[node("a", 0xc900, 0xff43, None), node("b", 0xc900, 0xff43, None)]),
        Err(InventoryError::AmbiguousRawDevice)
    ));
}
