use openlogi::hid::error::{HidppFeatureErrorKind, HidppOperation, WriteError};
use openlogi::hid::smartshift::{SmartShiftAutoDisengage, SmartShiftMode, SmartShiftStatus, TunableTorque};
use openlogi::write::smartshift::{
    after_open_probe, decode_auto_disengage, is_missing_enhanced, is_transient_smartshift_error,
    sensitivity_status, smartshift_to_wheel, status_from_wire, status_matches_desired, status_write_bytes,
    toggled_status, wheel_mode_to_smartshift, ApplyStage, OpenProbe, OpenStep, SmartShiftAction, SmartShiftApply,
    SmartShiftEvent, SmartShiftFeature, SmartShiftToggle,
};

fn threshold(value: u8) -> SmartShiftAutoDisengage {
    SmartShiftAutoDisengage::from_byte(value).expect("valid threshold")
}

fn status(mode: SmartShiftMode, disengage: u8, torque: Option<u8>) -> SmartShiftStatus {
    SmartShiftStatus {
        mode,
        auto_disengage: threshold(disengage),
        tunable_torque: torque.map(|t| TunableTorque::try_new(t).expect("non-zero torque")),
    }
}

fn feature_error(kind: HidppFeatureErrorKind) -> WriteError {
    WriteError::HidppFeature {
        operation: HidppOperation::WriteSmartShift,
        feature_hex: 0x2111,
        kind,
    }
}

#[test]
fn only_a_missing_enhanced_feature_triggers_the_fallback() {
    assert!(is_missing_enhanced(&WriteError::FeatureUnsupported { feature_hex: 0x2111 }));
    assert!(!is_missing_enhanced(&WriteError::FeatureUnsupported { feature_hex: 0x2110 }));
    assert!(!is_missing_enhanced(&WriteError::DeviceNotFound));
}

#[test]
fn transient_errors_are_the_retryable_feature_errors_and_bad_responses() {
    assert!(is_transient_smartshift_error(&feature_error(HidppFeatureErrorKind::InvalidArgument)));
    assert!(is_transient_smartshift_error(&feature_error(HidppFeatureErrorKind::Busy)));
    assert!(is_transient_smartshift_error(&feature_error(HidppFeatureErrorKind::HwError)));
    assert!(!is_transient_smartshift_error(&feature_error(HidppFeatureErrorKind::Unsupported)));
    assert!(is_transient_smartshift_error(&WriteError::UnsupportedResponse {
        operation: HidppOperation::ReadSmartShift,
        feature_hex: 0x2110,
    }));
    assert!(!is_transient_smartshift_error(&WriteError::FeatureUnsupported { feature_hex: 0x2111 }));
}

#[test]
fn an_absent_desired_torque_is_not_compared() {
    let current = status(SmartShiftMode::Ratchet, 10, Some(40));
    assert!(status_matches_desired(current, status(SmartShiftMode::Ratchet, 10, None)));
    assert!(status_matches_desired(current, status(SmartShiftMode::Ratchet, 10, Some(40))));
    assert!(!status_matches_desired(current, status(SmartShiftMode::Ratchet, 10, Some(41))));
    assert!(!status_matches_desired(current, status(SmartShiftMode::Free, 10, None)));
    assert!(!status_matches_desired(current, status(SmartShiftMode::Ratchet, 11, None)));
    assert!(!status_matches_desired(status(SmartShiftMode::Ratchet, 10, None), status(SmartShiftMode::Ratchet, 10, Some(40))));
}

#[test]
fn read_back_bytes_decode_into_a_status() {
    assert!(matches!(
        decode_auto_disengage(0, 0x2110),
        Err(WriteError::UnsupportedResponse { operation: HidppOperation::ReadSmartShift, feature_hex: 0x2110 })
    ));
    assert_eq!(decode_auto_disengage(255, 0x2110).unwrap(), SmartShiftAutoDisengage::Permanent);
    assert_eq!(
        status_from_wire(SmartShiftFeature::Enhanced, 1, 10, 40).unwrap(),
        status(SmartShiftMode::Free, 10, Some(40))
    );
    assert_eq!(
        status_from_wire(SmartShiftFeature::Enhanced, 2, 10, 0).unwrap(),
        status(SmartShiftMode::Ratchet, 10, None)
    );
    assert_eq!(
        status_from_wire(SmartShiftFeature::Legacy, 2, 10, 40).unwrap(),
        status(SmartShiftMode::Ratchet, 10, None)
    );
    assert!(matches!(
        status_from_wire(SmartShiftFeature::Enhanced, 2, 0, 40),
        Err(WriteError::UnsupportedResponse { operation: HidppOperation::ReadSmartShift, feature_hex: 0x2111 })
    ));
}

#[test]
fn wheel_mode_bytes_map_both_ways() {
    assert_eq!(wheel_mode_to_smartshift(1), SmartShiftMode::Free);
    assert_eq!(wheel_mode_to_smartshift(2), SmartShiftMode::Ratchet);
    assert_eq!(wheel_mode_to_smartshift(7), SmartShiftMode::Ratchet);
    assert_eq!(smartshift_to_wheel(SmartShiftMode::Free), 1);
    assert_eq!(smartshift_to_wheel(SmartShiftMode::Ratchet), 2);
}

#[test]
fn write_bytes_send_the_preserve_sentinel_for_missing_torque() {
    assert_eq!(status_write_bytes(SmartShiftFeature::Enhanced, status(SmartShiftMode::Free, 20, Some(30))), (1, 20, 30));
    assert_eq!(status_write_bytes(SmartShiftFeature::Enhanced, status(SmartShiftMode::Ratchet, 20, None)), (2, 20, 0));
    assert_eq!(status_write_bytes(SmartShiftFeature::Legacy, status(SmartShiftMode::Ratchet, 20, Some(30))), (2, 20, 0));
    let permanent = SmartShiftStatus { auto_disengage: SmartShiftAutoDisengage::Permanent, ..status(SmartShiftMode::Ratchet, 20, None) };
    assert_eq!(status_write_bytes(SmartShiftFeature::Legacy, permanent), (2, 255, 0));
}

#[test]
fn sensitivity_and_toggle_keep_the_other_fields() {
    let current = status(SmartShiftMode::Ratchet, 10, Some(40));
    assert_eq!(sensitivity_status(current, threshold(30)), status(SmartShiftMode::Ratchet, 30, Some(40)));
    assert_eq!(toggled_status(current), status(SmartShiftMode::Free, 10, Some(40)));
}

#[test]
fn open_tries_enhanced_twice_then_legacy() {
    let missing = || Err(WriteError::FeatureUnsupported { feature_hex: 0x2111 });
    assert!(matches!(after_open_probe(OpenProbe::Enhanced, missing()), OpenStep::Probe(OpenProbe::EnhancedAgain)));
    assert!(matches!(after_open_probe(OpenProbe::EnhancedAgain, missing()), OpenStep::Probe(OpenProbe::Legacy)));
    assert!(matches!(after_open_probe(OpenProbe::EnhancedAgain, Ok(())), OpenStep::Opened(SmartShiftFeature::Enhanced)));
    assert!(matches!(after_open_probe(OpenProbe::Legacy, Ok(())), OpenStep::Opened(SmartShiftFeature::Legacy)));
    assert!(matches!(
        after_open_probe(OpenProbe::Legacy, Err(WriteError::FeatureUnsupported { feature_hex: 0x2110 })),
        OpenStep::Failed(WriteError::FeatureUnsupported { feature_hex: 0x2110 })
    ));
    assert!(matches!(
        after_open_probe(OpenProbe::Enhanced, Err(WriteError::DeviceNotFound)),
        OpenStep::Failed(WriteError::DeviceNotFound)
    ));
}

#[test]
fn a_matching_device_skips_the_write() {
    let desired = status(SmartShiftMode::Free, 12, None);
    let (run, action) = SmartShiftApply::new(2, desired);
    assert!(matches!(action, SmartShiftAction::Connect));
    let (run, action) = run.step(SmartShiftEvent::Connected(true));
    assert!(matches!(action, SmartShiftAction::Open(SmartShiftFeature::Enhanced)));
    let (run, action) = run.step(SmartShiftEvent::Opened(Ok(())));
    assert!(matches!(action, SmartShiftAction::ReadStatus));
    let (run, action) = run.step(SmartShiftEvent::StatusRead(Ok(status(SmartShiftMode::Free, 12, Some(9)))));
    assert!(matches!(action, SmartShiftAction::Finish(Ok(()))));
    assert_eq!(run.stage, ApplyStage::Finished);
}

#[test]
fn a_transient_write_failure_is_retried_once_on_a_fresh_open() {
    let desired = status(SmartShiftMode::Ratchet, 12, None);
    let (run, _) = SmartShiftApply::new(2, desired);
    let (run, _) = run.step(SmartShiftEvent::Connected(true));
    let (run, _) = run.step(SmartShiftEvent::Opened(Err(WriteError::FeatureUnsupported { feature_hex: 0x2111 })));
    let (run, _) = run.step(SmartShiftEvent::Opened(Err(WriteError::FeatureUnsupported { feature_hex: 0x2111 })));
    let (run, action) = run.step(SmartShiftEvent::Opened(Ok(())));
    assert!(matches!(action, SmartShiftAction::ReadStatus));
    let (run, action) = run.step(SmartShiftEvent::StatusRead(Err(WriteError::DeviceNotFound)));
    assert!(matches!(action, SmartShiftAction::WriteStatus(s) if s == desired));
    let (run, action) = run.step(SmartShiftEvent::Wrote(Err(feature_error(HidppFeatureErrorKind::InvalidArgument))));
    assert!(matches!(action, SmartShiftAction::Pause));
    let (run, action) = run.step(SmartShiftEvent::Paused);
    assert!(matches!(action, SmartShiftAction::Open(SmartShiftFeature::Enhanced)));
    let (run, action) = run.step(SmartShiftEvent::Opened(Ok(())));
    assert!(matches!(action, SmartShiftAction::WriteStatus(s) if s == desired));
    let (_, action) = run.step(SmartShiftEvent::Wrote(Err(feature_error(HidppFeatureErrorKind::Busy))));
    assert!(matches!(
        action,
        SmartShiftAction::Finish(Err(WriteError::HidppFeature { kind: HidppFeatureErrorKind::Busy, feature_hex: 0x2111, .. }))
    ));
}

#[test]
fn an_unreachable_device_ends_the_write() {
    let (run, _) = SmartShiftApply::new(4, status(SmartShiftMode::Free, 1, None));
    let (_, action) = run.step(SmartShiftEvent::Connected(false));
    assert!(matches!(action, SmartShiftAction::Finish(Err(WriteError::DeviceUnreachable { index: 4 }))));
}

#[test]
fn toggle_writes_the_flipped_mode_and_reports_it() {
    let (run, _) = SmartShiftToggle::new(1);
    let (run, _) = run.step(SmartShiftEvent::Connected(true));
    let (run, _) = run.step(SmartShiftEvent::Opened(Ok(())));
    let current = status(SmartShiftMode::Ratchet, 50, Some(20));
    let (run, action) = run.step(SmartShiftEvent::StatusRead(Ok(current)));
    assert!(matches!(action, SmartShiftAction::WriteStatus(s) if s == status(SmartShiftMode::Free, 50, Some(20))));
    assert!(run.expects(&SmartShiftEvent::Wrote(Ok(()))));
    assert!(!run.expects(&SmartShiftEvent::Paused));
    let (_, action) = run.step(SmartShiftEvent::Wrote(Ok(())));
    assert!(matches!(action, SmartShiftAction::Finish(Ok(SmartShiftMode::Free))));
}

#[test]
fn toggle_restarts_once_after_a_transient_read_failure() {
    let bad_read = || Err(WriteError::UnsupportedResponse { operation: HidppOperation::ReadSmartShift, feature_hex: 0x2111 });
    let (run, _) = SmartShiftToggle::new(1);
    let (run, _) = run.step(SmartShiftEvent::Connected(true));
    let (run, _) = run.step(SmartShiftEvent::Opened(Ok(())));
    let (run, action) = run.step(SmartShiftEvent::StatusRead(bad_read()));
    assert!(matches!(action, SmartShiftAction::Pause));
    let (run, _) = run.step(SmartShiftEvent::Paused);
    let (run, _) = run.step(SmartShiftEvent::Opened(Ok(())));
    let (_, action) = run.step(SmartShiftEvent::StatusRead(bad_read()));
    assert!(matches!(action, SmartShiftAction::Finish(Err(WriteError::UnsupportedResponse { .. }))));
}
