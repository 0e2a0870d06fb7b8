use openlogi::hid::error::WriteError;
use openlogi::hid::light::LightCommand;
use openlogi::hid::route::DeviceRoute;
use openlogi::registry::LitraModel;
use openlogi::write::litra::{
    encode_command, litra_capabilities, litra_model_for_route, route_model_check, COMMAND_BRIGHTNESS,
    COMMAND_POWER, COMMAND_TEMPERATURE, REPORT_ID,
};

#[test]
fn glow_power_reports_are_fixed_width() {
    let on = encode_command(LitraModel::Glow, LightCommand::Power(true)).expect("valid");
    let off = encode_command(LitraModel::Glow, LightCommand::Power(false)).expect("valid");
    assert_eq!(&on[..5], &[REPORT_ID, 0xff, 0x04, COMMAND_POWER, 1]);
    assert_eq!(&off[..5], &[REPORT_ID, 0xff, 0x04, COMMAND_POWER, 0]);
    assert_eq!(on.len(), 20);
    assert!(on[5..].iter().all(|byte| *byte == 0));
    assert!(off[5..].iter().all(|byte| *byte == 0));
}

#[test]
fn glow_brightness_uses_big_endian_native_lumens() {
    let report = encode_command(LitraModel::Glow, LightCommand::BrightnessPercent(50)).expect("valid");
    assert_eq!(&report[3..6], &[COMMAND_BRIGHTNESS, 0, 0x87]);
}

#[test]
fn glow_brightness_maps_normalized_boundaries_to_native_range() {
    let minimum = encode_command(LitraModel::Glow, LightCommand::BrightnessPercent(0)).expect("valid");
    let maximum = encode_command(LitraModel::Glow, LightCommand::BrightnessPercent(100)).expect("valid");
    assert_eq!(&minimum[3..6], &[COMMAND_BRIGHTNESS, 0, 20]);
    assert_eq!(&maximum[3..6], &[COMMAND_BRIGHTNESS, 0, 250]);
}

#[test]
fn glow_native_brightness_preserves_the_exact_requested_lumens() {
    let report = encode_command(LitraModel::Glow, LightCommand::BrightnessNative(136)).expect("valid");
    assert_eq!(&report[3..6], &[COMMAND_BRIGHTNESS, 0, 136]);
    assert!(matches!(
        encode_command(LitraModel::Glow, LightCommand::BrightnessNative(251)),
        Err(WriteError::InvalidLightValue { .. })
    ));
}

#[test]
fn glow_temperature_uses_big_endian_kelvin() {
    let report = encode_command(LitraModel::Glow, LightCommand::TemperatureKelvin(4600)).expect("valid");
    assert_eq!(&report[3..6], &[COMMAND_TEMPERATURE, 0x11, 0xf8]);
}

#[test]
fn glow_temperature_accepts_only_aligned_inclusive_boundaries() {
    let minimum = encode_command(LitraModel::Glow, LightCommand::TemperatureKelvin(2700))
        .expect("2700 K is the inclusive lower bound");
    let maximum = encode_command(LitraModel::Glow, LightCommand::TemperatureKelvin(6500))
        .expect("6500 K is the inclusive upper bound");
    assert_eq!(&minimum[3..6], &[COMMAND_TEMPERATURE, 0x0a, 0x8c]);
    assert_eq!(&maximum[3..6], &[COMMAND_TEMPERATURE, 0x19, 0x64]);
    for invalid in [2600, 2750, 6600] {
        assert!(matches!(
            encode_command(LitraModel::Glow, LightCommand::TemperatureKelvin(invalid)),
            Err(WriteError::InvalidLightValue { .. })
        ));
    }
}

#[test]
fn invalid_values_are_rejected() {
    assert!(matches!(
        encode_command(LitraModel::Glow, LightCommand::BrightnessPercent(101)),
        Err(WriteError::InvalidLightValue { .. })
    ));
    assert!(matches!(
        encode_command(LitraModel::Glow, LightCommand::TemperatureKelvin(2750)),
        Err(WriteError::InvalidLightValue { .. })
    ));
    let Err(WriteError::InvalidLightValue { control, value }) =
        encode_command(LitraModel::Beam, LightCommand::BrightnessPercent(101))
    else {
        panic!("expected an invalid value");
    };
    assert_eq!((control.as_str(), value), ("brightness_percent", 101));
}

#[test]
fn model_resolution_requires_the_complete_raw_route_tuple() {
    let valid = DeviceRoute::RawHid {
        vendor_id: 0x046d,
        product_id: 0xc900,
        usage_page: 0xff43,
        usage_id: 0x0202,
        identity: "serial:test".into(),
    };
    let wrong_usage = DeviceRoute::RawHid {
        vendor_id: 0x046d,
        product_id: 0xc900,
        usage_page: 0xff43,
        usage_id: 0x0203,
        identity: "serial:test".into(),
    };

    assert_eq!(litra_model_for_route(&valid), Some(LitraModel::Glow));
    assert_eq!(litra_model_for_route(&wrong_usage), None);
    assert_eq!(litra_model_for_route(&DeviceRoute::Direct { vendor_id: 0x046d, product_id: 0xc900 }), None);
    assert!(route_model_check(&valid, LitraModel::Glow).is_ok());
    assert!(matches!(
        route_model_check(&valid, LitraModel::Beam),
        Err(WriteError::LightUnsupported { control }) if control == "litra_model"
    ));
    assert!(matches!(
        route_model_check(&wrong_usage, LitraModel::Glow),
        Err(WriteError::LightUnsupported { control }) if control == "raw_hid_route"
    ));
}

#[test]
fn litra_advertises_lumens_and_kelvin_ranges() {
    let caps = litra_capabilities(LitraModel::Beam);
    assert!(caps.power && !caps.color && !caps.zones);
    let brightness = caps.brightness.expect("brightness");
    assert_eq!((brightness.min(), brightness.max(), brightness.step()), (20, 250, 1));
    let temperature = caps.temperature.expect("temperature");
    assert_eq!((temperature.min(), temperature.max(), temperature.step()), (2700, 6500, 100));
}
