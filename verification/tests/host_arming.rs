use openlogi::reprog_controls::{CidReporting, ControlId, CtrlIdInfo, FLAG_ANALYTICS_KEY_EVENTS, FLAG_DIVERTABLE};
use openlogi::session::host_switch::{
    arming_outcome, ArmedControl, ArmingAction, ArmingEvent, ArmingOutcome, ArmingStage, HostArming, HostSwitchError,
    ReportingMode,
};

fn reporting(cid: u16) -> CidReporting {
    CidReporting {
        cid: ControlId(cid),
        diverted: false,
        persistently_diverted: false,
        force_raw_xy: false,
        raw_xy: false,
        remap: None,
        analytics_key_events: false,
        raw_wheel: false,
    }
}

#[test]
fn host_controls_are_recorded_before_they_are_taken_over() {
    let (mut arming, action) = HostArming::new();
    assert!(matches!(action, ArmingAction::ReadCount));
    assert!(matches!(arming.step(ArmingEvent::Count(Ok(3))), ArmingAction::ReadInfo(0)));

    // An ordinary control is skipped.
    let ordinary = CtrlIdInfo { cid: 0x0050, task_id: 0x0038, flags: FLAG_DIVERTABLE };
    assert!(matches!(arming.step(ArmingEvent::Info(Ok(ordinary))), ArmingAction::ReadInfo(1)));

    // A divertable host control is diverted, after being recorded.
    let host1 = CtrlIdInfo { cid: 0x00d1, task_id: 0x00ae, flags: FLAG_DIVERTABLE };
    assert!(matches!(arming.step(ArmingEvent::Info(Ok(host1))), ArmingAction::ReadReporting(0x00d1)));
    let action = arming.step(ArmingEvent::Reporting(Ok(reporting(0x00d1))));
    assert!(matches!(action, ArmingAction::Divert(0x00d1)));
    assert_eq!(arming.armed.len(), 1);
    assert_eq!(arming.armed[0].host, 0);
    assert!(matches!(arming.step(ArmingEvent::Written(Ok(()))), ArmingAction::ReadInfo(2)));

    // A host control known only by its task reports through analytics.
    let host3 = CtrlIdInfo { cid: 0x0123, task_id: 0x00b0, flags: FLAG_ANALYTICS_KEY_EVENTS };
    assert!(matches!(arming.step(ArmingEvent::Info(Ok(host3))), ArmingAction::ReadReporting(0x0123)));
    let action = arming.step(ArmingEvent::Reporting(Ok(reporting(0x0123))));
    match action {
        ArmingAction::SetReporting(cid, change) => {
            assert_eq!(cid, 0x0123);
            assert_eq!(change.analytics_key_events, Some(true));
            assert_eq!(change.diverted, None);
        }
        other => panic!("expected an analytics write, got {other:?}"),
    }
    assert!(matches!(arming.step(ArmingEvent::Written(Ok(()))), ArmingAction::Finish(Ok(()))));
    assert_eq!(arming.stage, ArmingStage::Finished);
    let armed = arming.into_armed();
    assert_eq!(armed.len(), 2);
    assert_eq!(armed[1], ArmedControl { cid: 0x0123, host: 2, mode: ReportingMode::Analytics, original: reporting(0x0123) });
}

#[test]
fn a_failed_takeover_write_still_leaves_the_control_to_restore() {
    let (mut arming, _) = HostArming::new();
    arming.step(ArmingEvent::Count(Ok(1)));
    let host2 = CtrlIdInfo { cid: 0x00d2, task_id: 0x00af, flags: FLAG_DIVERTABLE };
    arming.step(ArmingEvent::Info(Ok(host2)));
    arming.step(ArmingEvent::Reporting(Ok(reporting(0x00d2))));
    let action = arming.step(ArmingEvent::Written(Err(HostSwitchError::TimedOut { operation: "diverting host control" })));
    assert!(matches!(action, ArmingAction::Finish(Err(HostSwitchError::TimedOut { .. }))));
    let armed = arming.into_armed();
    assert_eq!(armed.len(), 1);
    match arming_outcome(Err(HostSwitchError::KeyboardNotFound), armed) {
        ArmingOutcome::Failed { error: HostSwitchError::KeyboardNotFound, restore } => assert_eq!(restore.len(), 1),
        other => panic!("expected a failure with one control to restore, got {other:?}"),
    }
}

#[test]
fn a_keyboard_without_host_controls_is_unsupported() {
    let (mut arming, _) = HostArming::new();
    assert!(matches!(arming.step(ArmingEvent::Count(Ok(0))), ArmingAction::Finish(Ok(()))));
    assert!(matches!(
        arming_outcome(Ok(()), arming.into_armed()),
        ArmingOutcome::Failed { error: HostSwitchError::UnsupportedKeyboard, .. }
    ));
    let (mut arming, _) = HostArming::new();
    arming.step(ArmingEvent::Count(Ok(1)));
    let not_divertable = CtrlIdInfo { cid: 0x00d1, task_id: 0x00ae, flags: 0 };
    assert!(matches!(arming.step(ArmingEvent::Info(Ok(not_divertable))), ArmingAction::Finish(Ok(()))));
    assert!(arming.armed.is_empty());
}
