use openlogi::config::settings::ScrollResolution;
use openlogi::hid::error::{HidppOperation, WriteError};
use openlogi::write::hires_wheel::{
    WheelModeAction, WheelModeChange, WheelModeEvent, WheelModeStage,
    check_invert_support, desired_mode, mode_from_wire, resolution_to_wire, target_to_wire, validate_applied,
    ScrollReportingTarget, ScrollWheelMode,
};

#[test]
fn resolution_only_preserves_inversion_and_targets_native() {
    let current = ScrollWheelMode {
        resolution: ScrollResolution::High,
        inverted: true,
        target: ScrollReportingTarget::Diverted,
    };
    assert_eq!(
        desired_mode(current, Some(ScrollResolution::Low), None),
        ScrollWheelMode::native(ScrollResolution::Low, true)
    );
}

#[test]
fn inversion_only_preserves_resolution_and_targets_native() {
    let current = ScrollWheelMode {
        resolution: ScrollResolution::Low,
        inverted: false,
        target: ScrollReportingTarget::Diverted,
    };
    assert_eq!(
        desired_mode(current, None, Some(true)),
        ScrollWheelMode::native(ScrollResolution::Low, true)
    );
}

#[test]
fn default_non_inverted_setting_preserves_diverted_reporting() {
    let current = ScrollWheelMode {
        resolution: ScrollResolution::High,
        inverted: false,
        target: ScrollReportingTarget::Diverted,
    };
    assert_eq!(desired_mode(current, None, Some(false)), current);
}

#[test]
fn mismatched_set_or_read_back_is_rejected() {
    let desired = ScrollWheelMode::native(ScrollResolution::Low, false);
    let actual = ScrollWheelMode::native(ScrollResolution::High, false);
    assert!(matches!(
        validate_applied(actual, desired),
        Err(WriteError::UnsupportedResponse { operation: HidppOperation::WriteWheelMode, feature_hex: 0x2121 })
    ));
    assert!(validate_applied(desired, desired).is_ok());
}

#[test]
fn mode_value_conversions_preserve_known_wire_values() -> Result<(), WriteError> {
    assert_eq!(mode_from_wire(false, 0, 0)?.resolution, ScrollResolution::Low);
    assert_eq!(mode_from_wire(false, 1, 0)?.resolution, ScrollResolution::High);
    assert_eq!(mode_from_wire(false, 0, 0)?.target, ScrollReportingTarget::Native);
    assert_eq!(mode_from_wire(true, 0, 1)?.target, ScrollReportingTarget::Diverted);
    assert_eq!(target_to_wire(ScrollReportingTarget::Native), 0);
    assert_eq!(target_to_wire(ScrollReportingTarget::Diverted), 1);
    assert_eq!(resolution_to_wire(ScrollResolution::High), 1);
    assert!(matches!(
        mode_from_wire(false, 2, 0),
        Err(WriteError::UnsupportedResponse { operation: HidppOperation::ReadWheelMode, feature_hex: 0x2121 })
    ));
    Ok(())
}

#[test]
fn inversion_writes_need_a_wheel_that_can_invert() {
    assert!(matches!(check_invert_support(true, false), Err(WriteError::FeatureUnsupported { feature_hex: 0x2121 })));
    assert!(check_invert_support(true, true).is_ok());
    assert!(check_invert_support(false, false).is_ok());
}

#[test]
fn an_unchanged_wheel_mode_is_not_written() {
    let current = ScrollWheelMode::native(ScrollResolution::High, false);
    let (change, action) = WheelModeChange::new(2, Some(ScrollResolution::High), None, false);
    assert!(matches!(action, WheelModeAction::Connect));
    let (change, action) = change.step(WheelModeEvent::Connected(true));
    assert!(matches!(action, WheelModeAction::OpenFeature));
    let (change, action) = change.step(WheelModeEvent::Opened(Ok(())));
    assert!(matches!(action, WheelModeAction::ReadMode));
    let (change, action) = change.step(WheelModeEvent::ModeRead(Ok(current)));
    assert!(matches!(action, WheelModeAction::Finish(Ok(m)) if m == current));
    assert_eq!(change.stage, WheelModeStage::Finished);
}

#[test]
fn a_changed_wheel_mode_is_written_and_verified() {
    let current = ScrollWheelMode { resolution: ScrollResolution::Low, inverted: false, target: ScrollReportingTarget::Diverted };
    let desired = ScrollWheelMode::native(ScrollResolution::Low, true);
    let (change, _) = WheelModeChange::new(2, None, Some(true), true);
    let (change, _) = change.step(WheelModeEvent::Connected(true));
    let (change, action) = change.step(WheelModeEvent::Opened(Ok(())));
    assert!(matches!(action, WheelModeAction::ReadCapabilities));
    let (change, action) = change.step(WheelModeEvent::Capabilities(Ok(true)));
    assert!(matches!(action, WheelModeAction::ReadMode));
    let (change, action) = change.step(WheelModeEvent::ModeRead(Ok(current)));
    assert!(matches!(action, WheelModeAction::WriteMode(m) if m == desired));
    let (change, action) = change.step(WheelModeEvent::Wrote(Ok(desired)));
    assert!(matches!(action, WheelModeAction::ReadMode));
    let (_, action) = change.step(WheelModeEvent::ModeRead(Ok(current)));
    assert!(matches!(
        action,
        WheelModeAction::Finish(Err(WriteError::UnsupportedResponse { operation: HidppOperation::WriteWheelMode, feature_hex: 0x2121 }))
    ));
}

#[test]
fn a_wheel_without_inversion_refuses_an_inverted_mode() {
    let (change, _) = WheelModeChange::new(1, None, Some(true), true);
    let (change, _) = change.step(WheelModeEvent::Connected(true));
    let (change, _) = change.step(WheelModeEvent::Opened(Ok(())));
    let (_, action) = change.step(WheelModeEvent::Capabilities(Ok(false)));
    assert!(matches!(action, WheelModeAction::Finish(Err(WriteError::FeatureUnsupported { feature_hex: 0x2121 }))));
    let (change, _) = WheelModeChange::new(9, None, None, false);
    let (_, action) = change.step(WheelModeEvent::Connected(false));
    assert!(matches!(action, WheelModeAction::Finish(Err(WriteError::DeviceUnreachable { index: 9 }))));
}
