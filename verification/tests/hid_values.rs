use openlogi::device::{DeviceInventory, LightCapabilities, LightValueRange, LightValueUnit, ReceiverInfo};
use openlogi::config::settings::LightSettings;
use openlogi::hid::dpi::{Dpi, DpiCapabilities};
use openlogi::hid::error::WriteError;
use openlogi::hid::light::{commands_for_light_settings, LightCommand};
use openlogi::hid::route::{receiver_display_name, DeviceRoute, DIRECT_DEVICE_INDEX};
use openlogi::hid::smartshift::{
    SmartShiftAutoDisengage, SmartShiftMode, SmartShiftThreshold, SmartShiftThresholdError,
};
use openlogi::registry::{receivers, ReceiverProtocol};

#[test]
fn capabilities_sort_and_deduplicate_values() -> Result<(), WriteError> {
    let caps = DpiCapabilities::new(vec![1600, 400, 800, 800])?;

    assert_eq!(caps.values(), [Dpi::new(400), Dpi::new(800), Dpi::new(1600)]);
    assert_eq!(caps.min(), Dpi::new(400));
    assert_eq!(caps.max(), Dpi::new(1600));
    Ok(())
}

#[test]
fn capabilities_reject_empty_list() {
    assert!(matches!(DpiCapabilities::new(Vec::new()), Err(WriteError::EmptyDpiList)));
}

#[test]
fn nearest_returns_closest_supported_value() -> Result<(), WriteError> {
    let caps = DpiCapabilities::new(vec![400, 800, 1600])?;

    assert_eq!(caps.nearest(Dpi::new(390)), Dpi::new(400));
    assert_eq!(caps.nearest(Dpi::new(1000)), Dpi::new(800));
    assert_eq!(caps.nearest(Dpi::new(2000)), Dpi::new(1600));
    Ok(())
}

#[test]
fn step_hint_returns_smallest_positive_gap() -> Result<(), WriteError> {
    let caps = DpiCapabilities::new(vec![400, 800, 1200, 2000])?;

    assert_eq!(caps.step_hint(), Dpi::new(400));
    Ok(())
}

#[test]
fn adjacent_test_target_prefers_next_then_previous_value() -> Result<(), WriteError> {
    let caps = DpiCapabilities::new(vec![400, 800, 1600])?;

    assert_eq!(caps.adjacent_test_target(Dpi::new(400)), Some(Dpi::new(800)));
    assert_eq!(caps.adjacent_test_target(Dpi::new(800)), Some(Dpi::new(1600)));
    assert_eq!(caps.adjacent_test_target(Dpi::new(1600)), Some(Dpi::new(800)));
    Ok(())
}

#[test]
fn adjacent_test_target_handles_current_outside_list() -> Result<(), WriteError> {
    let caps = DpiCapabilities::new(vec![400, 800, 1600])?;

    assert_eq!(caps.adjacent_test_target(Dpi::new(1000)), Some(Dpi::new(1600)));
    assert_eq!(caps.adjacent_test_target(Dpi::new(2000)), Some(Dpi::new(1600)));
    Ok(())
}

#[test]
fn dpi_contains_only_reported_values_and_single_value_has_no_target() -> Result<(), WriteError> {
    let caps = DpiCapabilities::new(vec![800, 400])?;
    assert!(caps.contains(Dpi::new(800)));
    assert!(!caps.contains(Dpi::new(600)));
    let single = DpiCapabilities::new(vec![1000])?;
    assert_eq!(single.adjacent_test_target(Dpi::new(1000)), None);
    assert_eq!(single.step_hint(), Dpi::new(1));
    Ok(())
}

#[test]
fn light_settings_expand_only_to_advertised_controls() {
    let Ok(brightness) = LightValueRange::new(0, 100, 1, LightValueUnit::Percent) else {
        panic!("valid brightness fixture");
    };
    let settings = LightSettings::new(false, 37, Some(4600));
    let commands = commands_for_light_settings(
        settings,
        LightCapabilities { brightness: Some(brightness), ..LightCapabilities::default() },
    );

    assert_eq!(commands, vec![LightCommand::BrightnessPercent(37)]);
}

#[test]
fn light_settings_cap_brightness_and_send_every_advertised_control() {
    let Ok(range) = LightValueRange::new(0, 100, 1, LightValueUnit::Percent) else {
        panic!("valid fixture");
    };
    let settings = LightSettings::new(true, 250, Some(5000));
    assert_eq!(settings.brightness_percent, 100);
    let commands = commands_for_light_settings(
        settings,
        LightCapabilities { power: true, brightness: Some(range), temperature: Some(range), color: false, zones: false },
    );
    assert_eq!(
        commands,
        vec![
            LightCommand::Power(true),
            LightCommand::BrightnessPercent(100),
            LightCommand::TemperatureKelvin(5000)
        ]
    );
}

fn inv(product_id: u16, unique_id: Option<&str>) -> DeviceInventory {
    DeviceInventory {
        receiver: ReceiverInfo {
            name: "test".into(),
            vendor_id: 0x046d,
            product_id,
            unique_id: unique_id.map(str::to_string),
        },
        paired: vec![],
    }
}

#[test]
fn device_route_for_known_receiver_follows_its_protocol() {
    for receiver in receivers() {
        let route = DeviceRoute::device_route_for(&inv(receiver.product_id, Some("A1B2")), 2);
        match receiver.protocol {
            ReceiverProtocol::Bolt => assert!(matches!(
                route,
                Some(DeviceRoute::Bolt { ref receiver_uid, slot: 2 }) if receiver_uid == "A1B2"
            )),
            ReceiverProtocol::Unifying => assert!(matches!(
                route,
                Some(DeviceRoute::Unifying { ref receiver_uid, slot: 2 }) if receiver_uid == "A1B2"
            )),
        }
    }
}

#[test]
fn lightspeed_receiver_has_its_own_display_name() {
    assert_eq!(receiver_display_name(0xc539), "Lightspeed Receiver");
    assert_eq!(receiver_display_name(0xc53f), "Lightspeed Receiver");
    assert_eq!(receiver_display_name(0xc547), "Lightspeed Receiver");
    assert_eq!(receiver_display_name(0xc54d), "Lightspeed Receiver");
    assert_eq!(receiver_display_name(0xc52b), "Unifying Receiver");
    assert_eq!(receiver_display_name(0xc532), "Unifying Receiver");
}

#[test]
fn device_route_for_unknown_receiver_defaults_to_bolt() {
    let route = DeviceRoute::device_route_for(&inv(0xc5ff, Some("UID")), 1);
    assert!(matches!(
        route,
        Some(DeviceRoute::Bolt { ref receiver_uid, slot: 1 }) if receiver_uid == "UID"
    ));
}

#[test]
fn device_route_for_direct_when_no_uid_and_direct_slot() {
    let route = DeviceRoute::device_route_for(&inv(0xb025, None), DIRECT_DEVICE_INDEX);
    assert!(matches!(route, Some(DeviceRoute::Direct { vendor_id: 0x046d, product_id: 0xb025 })));
}

#[test]
fn device_route_for_none_when_no_uid_and_non_direct_slot() {
    let route = DeviceRoute::device_route_for(&inv(0xc52b, None), 1);
    assert!(route.is_none());
}

#[test]
fn unifying_device_index_is_the_slot() {
    let route = DeviceRoute::Unifying { receiver_uid: "X".into(), slot: 4 };
    assert_eq!(route.device_index(), 4);
}

#[test]
fn unifying_display_matches_bolt_format() {
    let r = DeviceRoute::Unifying { receiver_uid: "AABBCC".into(), slot: 3 };
    assert_eq!(r.to_string(), "slot 3 on receiver AABBCC");
}

#[test]
fn flipped_is_an_involution() {
    assert_eq!(SmartShiftMode::Free.flipped(), SmartShiftMode::Ratchet);
    assert_eq!(SmartShiftMode::Ratchet.flipped(), SmartShiftMode::Free);
    assert_eq!(SmartShiftMode::Free.flipped().flipped(), SmartShiftMode::Free);
}

#[test]
fn auto_disengage_reserves_zero_and_models_permanent_ratchet() -> Result<(), SmartShiftThresholdError> {
    let Err(_) = SmartShiftAutoDisengage::try_from(0) else {
        panic!("zero is the write-only preserve sentinel");
    };
    assert_eq!(
        SmartShiftAutoDisengage::try_from(16),
        Ok(SmartShiftAutoDisengage::Threshold(SmartShiftThreshold::try_new(16)?))
    );
    assert_eq!(SmartShiftAutoDisengage::try_from(0xff), Ok(SmartShiftAutoDisengage::Permanent));
    Ok(())
}

#[test]
fn auto_disengage_bytes_round_trip_and_mode_bytes_are_fixed() {
    for byte in 1..=255u8 {
        let Ok(setting) = SmartShiftAutoDisengage::from_byte(byte) else {
            panic!("every non-zero byte is a setting");
        };
        assert_eq!(setting.to_byte(), byte);
        assert_eq!(setting.is_permanent(), byte == 255);
    }
    assert_eq!(SmartShiftMode::Free.to_byte(), 1);
    assert_eq!(SmartShiftMode::Ratchet.to_byte(), 2);
    assert!(SmartShiftMode::from_byte(3).is_err());
    assert_eq!(SmartShiftMode::from_byte(2), Ok(SmartShiftMode::Ratchet));
}

#[test]
fn fine_grained_ranges_round_trip_every_percentage() {
    let range = LightValueRange::new(20, 250, 1, LightValueUnit::Lumens).unwrap();
    for percent in 0..=100u8 {
        let native = range.native_for_percent(percent).unwrap();
        assert_eq!(range.percent_for_native(native), Some(percent));
    }
    assert_eq!(range.native_for_percent(0), Some(20));
    assert_eq!(range.native_for_percent(100), Some(250));
}
