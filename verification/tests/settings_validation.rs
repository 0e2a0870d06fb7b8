use openlogi::config::settings::{
    parse_lighting_color, validate_brightness, SmartShift, StoredSmartShiftError, WheelMode,
    SMARTSHIFT_MIN_AUTO_DISENGAGE,
};
use openlogi::hid::smartshift::SmartShiftAutoDisengage;

#[test]
fn smartshift_rejects_values_outside_the_persisted_contract() {
    let parse = |auto_disengage: u8, tunable_torque: u8| SmartShift::from_stored(WheelMode::Ratchet, auto_disengage, tunable_torque);
    let minimum = SMARTSHIFT_MIN_AUTO_DISENGAGE;
    match parse(minimum - 1, 50) {
        Err(StoredSmartShiftError::OutOfContract(message)) => {
            assert_eq!(message, "SmartShift auto_disengage must be between 8 and 255, got 7");
        }
        other => panic!("auto_disengage below the persisted minimum must be rejected: {other:?}"),
    }
    parse(minimum, 50).expect("the minimum itself is in contract");
    let top = parse(0xff, 0xff).expect("the top of both ranges is in contract");
    assert_eq!(top.auto_disengage, SmartShiftAutoDisengage::Permanent);
    assert_eq!(
        parse(minimum, 0)
            .expect("zero torque represents unsupported hardware")
            .tunable_torque,
        None
    );
    assert!(matches!(parse(0, 10), Err(StoredSmartShiftError::AutoDisengage(_))));
}

#[test]
fn brightness_and_color_are_validated_on_load() {
    assert_eq!(validate_brightness(100), Ok(100));
    assert_eq!(validate_brightness(0), Ok(0));
    assert_eq!(validate_brightness(101), Err("brightness must be between 0 and 100, got 101".to_string()));
    let with_hash = parse_lighting_color("#FF8000").expect("older releases wrote a leading #");
    let bare = parse_lighting_color("ff8000").expect("bare hex");
    assert_eq!(with_hash, bare);
    assert_eq!(bare.to_string(), "ff8000");
    assert!(parse_lighting_color("#12345").is_err());
    assert!(parse_lighting_color("##123456").is_err());
}
