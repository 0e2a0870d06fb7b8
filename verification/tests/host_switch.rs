use openlogi::hid::route::DeviceRoute;
use openlogi::reprog_controls::{
    AnalyticsKeyEvent, CidReporting, ControlId, CtrlIdInfo, ReprogControlsEvent, FLAG_ANALYTICS_KEY_EVENTS,
    FLAG_DIVERTABLE,
};
use openlogi::session::host_switch::{
    arming_mode, event_host, host_change_required, host_channel, restoration_change, session_outcome,
    shares_channel, ArmedControl, HostSwitchError, HostSwitchStopReason, LinkedHostSwitch, LinkedSwitchAction,
    LinkedSwitchEvent, ReportingMode, SessionEvent,
};

fn noisy_reporting() -> CidReporting {
    CidReporting {
        cid: ControlId(0x00d3),
        diverted: false,
        persistently_diverted: true,
        force_raw_xy: true,
        raw_xy: false,
        remap: Some(ControlId(0x1234)),
        analytics_key_events: false,
        raw_wheel: true,
    }
}

#[test]
fn receiver_slots_share_one_channel() {
    let keyboard = DeviceRoute::Bolt { receiver_uid: "AABB".into(), slot: 1 };
    let mouse = DeviceRoute::Bolt { receiver_uid: "aabb".into(), slot: 2 };
    assert!(shares_channel(&keyboard, &mouse));
}

#[test]
fn direct_devices_do_not_share_channels() {
    let route = DeviceRoute::Direct { vendor_id: 0x046d, product_id: 0xb025 };
    assert!(!shares_channel(&route, &route));
}

#[test]
fn host_controls_are_recognized_by_task_when_cid_varies() {
    let info = CtrlIdInfo { cid: 0x1234, task_id: 0x00af, flags: 0 };
    assert_eq!(host_channel(info), Some(1));
}

#[test]
fn host_controls_prefer_their_cid_and_ignore_other_keys() {
    assert_eq!(host_channel(CtrlIdInfo { cid: 0x00d1, task_id: 0x00b0, flags: 0 }), Some(0));
    assert_eq!(host_channel(CtrlIdInfo { cid: 0x0050, task_id: 0x0038, flags: 0 }), None);
}

#[test]
fn analytics_event_selects_the_matching_host() {
    let controls = [ArmedControl { cid: 0x00d3, host: 2, mode: ReportingMode::Analytics, original: noisy_reporting() }];
    let mut events = [AnalyticsKeyEvent::default(); 5];
    events[0] = AnalyticsKeyEvent { cid: ControlId(0x00d3), event: 1 };
    assert_eq!(event_host(&controls, ReprogControlsEvent::AnalyticsKeyEvents(events)), Some(2));
}

#[test]
fn diverted_buttons_select_the_first_armed_control_and_motion_selects_nothing() {
    let controls = [
        ArmedControl { cid: 0x00d1, host: 0, mode: ReportingMode::Diverted, original: noisy_reporting() },
        ArmedControl { cid: 0x00d2, host: 1, mode: ReportingMode::Diverted, original: noisy_reporting() },
    ];
    let pressed = [ControlId(0x00d2), ControlId(0x00d1), ControlId(0), ControlId(0)];
    assert_eq!(event_host(&controls, ReprogControlsEvent::DivertedButtons(pressed)), Some(0));
    assert_eq!(event_host(&controls, ReprogControlsEvent::DivertedRawMouseXy { dx: 1, dy: 2 }), None);
    let none = [ControlId(0x0050), ControlId(0), ControlId(0), ControlId(0)];
    assert_eq!(event_host(&controls, ReprogControlsEvent::DivertedButtons(none)), None);
}

#[test]
fn current_host_does_not_require_a_change() {
    assert!(matches!(host_change_required(1, 3, 1), Ok(false)));
}

#[test]
fn different_valid_host_requires_a_change() {
    assert!(matches!(host_change_required(0, 3, 2), Ok(true)));
}

#[test]
fn host_outside_device_range_is_rejected() {
    assert!(
        host_change_required(0, 2, 2).is_err(),
        "host 2 is outside a device that reports 2 hosts and must be rejected"
    );
    let Err(HostSwitchError::Hidpp(message)) = host_change_required(0, 2, 2) else {
        panic!("expected a protocol error");
    };
    assert_eq!(message, "host 2 is outside device host count 2");
}

#[test]
fn diverted_cleanup_restores_only_the_original_temporary_bits() {
    let change = restoration_change(ArmedControl {
        cid: 0x00d3,
        host: 2,
        mode: ReportingMode::Diverted,
        original: CidReporting { diverted: true, raw_xy: true, ..noisy_reporting() },
    });

    assert_eq!(change.diverted, Some(true));
    assert_eq!(change.raw_xy, Some(true));
    assert_eq!(change.analytics_key_events, None);
    assert_eq!(change.persistently_diverted, None);
    assert_eq!(change.remap, None);
}

#[test]
fn analytics_cleanup_restores_the_original_analytics_bit() {
    let change = restoration_change(ArmedControl {
        cid: 0x00d3,
        host: 2,
        mode: ReportingMode::Analytics,
        original: CidReporting { analytics_key_events: true, ..noisy_reporting() },
    });

    assert_eq!(change.analytics_key_events, Some(true));
    assert_eq!(change.diverted, None);
    assert_eq!(change.raw_xy, None);
}

#[test]
fn arming_prefers_diversion_then_analytics() {
    let info = |flags| CtrlIdInfo { cid: 0x00d1, task_id: 0x00ae, flags };
    assert_eq!(arming_mode(info(FLAG_DIVERTABLE | FLAG_ANALYTICS_KEY_EVENTS)), Some(ReportingMode::Diverted));
    assert_eq!(arming_mode(info(FLAG_ANALYTICS_KEY_EVENTS)), Some(ReportingMode::Analytics));
    assert_eq!(arming_mode(info(0)), None);
}

#[test]
fn session_outcome_restores_unless_the_keyboard_was_lost() {
    assert_eq!(session_outcome(SessionEvent::Pressed(1)), (Some(1), true));
    assert_eq!(session_outcome(SessionEvent::Stopped(Some(HostSwitchStopReason::Graceful))), (None, true));
    assert_eq!(session_outcome(SessionEvent::Stopped(Some(HostSwitchStopReason::DeviceLost))), (None, false));
    assert_eq!(session_outcome(SessionEvent::Stopped(None)), (None, false));
}

#[test]
fn linked_switch_moves_targets_then_the_keyboard() {
    let (mut switch, action) = LinkedHostSwitch::new(2);
    assert!(matches!(action, LinkedSwitchAction::PrepareKeyboard));
    let action = switch.step(LinkedSwitchEvent::KeyboardPrepared(Ok(())));
    assert!(matches!(action, LinkedSwitchAction::PrepareTarget(0)));
    let action = switch.step(LinkedSwitchEvent::TargetPrepared(Err(HostSwitchError::TargetNotFound)));
    assert!(matches!(action, LinkedSwitchAction::PrepareTarget(1)));
    let action = switch.step(LinkedSwitchEvent::TargetPrepared(Ok(())));
    assert!(matches!(action, LinkedSwitchAction::ApplyTarget(1)));
    let action = switch.step(LinkedSwitchEvent::TargetApplied(Err(HostSwitchError::TargetNotFound)));
    assert!(matches!(action, LinkedSwitchAction::ApplyKeyboard));
    let action = switch.step(LinkedSwitchEvent::KeyboardApplied(Ok(true)));
    assert!(matches!(action, LinkedSwitchAction::Finish(Ok(true))));
}

#[test]
fn linked_switch_stops_before_any_target_when_the_keyboard_cannot_move() {
    let (mut switch, _) = LinkedHostSwitch::new(3);
    let action = switch.step(LinkedSwitchEvent::KeyboardPrepared(Err(HostSwitchError::HostSlotEmpty { host: 2 })));
    assert!(matches!(action, LinkedSwitchAction::Finish(Err(HostSwitchError::HostSlotEmpty { host: 2 }))));

    let (mut alone, _) = LinkedHostSwitch::new(0);
    let action = alone.step(LinkedSwitchEvent::KeyboardPrepared(Ok(())));
    assert!(matches!(action, LinkedSwitchAction::ApplyKeyboard));
}
