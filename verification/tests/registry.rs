use openlogi::pairing::{family_for, ReceiverFamily};
use openlogi::registry::{
    find_litra, find_receiver, litra_devices, matches_litra, receivers, LitraModel, ReceiverBrand, ReceiverProtocol,
    LITRA_DRIVER_ID, LOGITECH_VENDOR_ID,
};

#[test]
fn complete_identity_selects_glow_metadata() {
    let glow = find_litra(LOGITECH_VENDOR_ID, 0xc900, 0xff43, 0x0202).expect("Litra Glow identity");

    assert_eq!(glow.model, LitraModel::Glow);
    assert_eq!(glow.driver_id, LITRA_DRIVER_ID);
    assert_eq!(glow.registry_model_id, "8c900");
    assert!(find_litra(LOGITECH_VENDOR_ID, 0xc900, 0xff43, 0x0203).is_none());
}

#[test]
fn complete_identity_selects_beam_metadata() {
    let beam = find_litra(LOGITECH_VENDOR_ID, 0xc901, 0xff43, 0x0202).expect("Litra Beam identity");

    assert_eq!(beam.model, LitraModel::Beam);
    assert_eq!(beam.registry_model_id, "8c901");
}

#[test]
fn litra_matching_needs_every_identity_field() {
    assert!(matches_litra(0x046d, 0xc900, 0xff43, 0x0202));
    assert!(!matches_litra(0x046e, 0xc900, 0xff43, 0x0202));
    assert!(!matches_litra(0x046d, 0xc902, 0xff43, 0x0202));
    assert!(!matches_litra(0x046d, 0xc901, 0xff00, 0x0202));
}

#[test]
fn superlight_dex_receiver_is_lightspeed_over_unifying_protocol() {
    let receiver = find_receiver(LOGITECH_VENDOR_ID, 0xc54d).expect("c54d receiver");

    assert_eq!(receiver.brand, ReceiverBrand::Lightspeed);
    assert_eq!(receiver.protocol, ReceiverProtocol::Unifying);
}

#[test]
fn lookup_requires_the_matching_vendor() {
    assert!(find_receiver(0xffff, 0xc54d).is_none());
}

#[test]
fn receiver_identities_are_unique() {
    let table = receivers();
    for (index, receiver) in table.iter().enumerate() {
        assert!(table[..index]
            .iter()
            .all(|other| (other.vendor_id, other.product_id) != (receiver.vendor_id, receiver.product_id)));
    }
}

#[test]
fn receiver_family_follows_the_shared_protocol_registry() {
    for receiver in receivers() {
        let expected = match receiver.protocol {
            ReceiverProtocol::Bolt => ReceiverFamily::Bolt,
            ReceiverProtocol::Unifying => ReceiverFamily::Unifying,
        };
        assert_eq!(family_for(receiver.product_id), Some(expected));
    }
    assert_eq!(family_for(0xc5ff), None);
}

#[test]
fn litra_identities_are_unique() {
    let devices = litra_devices();
    assert_eq!(devices.len(), 2);
    for (index, device) in devices.iter().enumerate() {
        assert!(
            devices[..index].iter().all(|other| {
                (other.vendor_id, other.product_id, other.usage_page, other.usage_id)
                    != (device.vendor_id, device.product_id, device.usage_page, device.usage_id)
            }),
            "duplicate Litra identity {:04x}:{:04x}/{:04x}:{:04x}",
            device.vendor_id,
            device.product_id,
            device.usage_page,
            device.usage_id
        );
    }
}
