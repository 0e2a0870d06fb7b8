use openlogi::backend::BackendError;
use openlogi::hid::route::DeviceRoute;
use openlogi::reprog_controls::{CidReporting, ControlId};
use openlogi::session::capture_restore::{
    divert_change, restore_after_stop_plan, rollback_failure, rollback_plan, stop_for_current_publication,
    undivert_change, ArmedReporting, CaptureSessionOutcome, CaptureStop, GestureError, PendingCaptureRestore,
    ReprogRestore, RestorePlan, RetiredChannelPolicy, RetryStep,
};

fn route() -> DeviceRoute {
    DeviceRoute::Bolt { receiver_uid: "AABB".into(), slot: 2 }
}

fn reporting() -> CidReporting {
    CidReporting {
        cid: ControlId(0x00c3),
        diverted: false,
        persistently_diverted: false,
        force_raw_xy: false,
        raw_xy: false,
        remap: Some(ControlId(0x0050)),
        analytics_key_events: false,
        raw_wheel: false,
    }
}

#[test]
fn gesture_errors_render_their_messages() {
    assert_eq!(GestureError::DeviceUnreachable(2).to_string(), "device at index 0x02 did not respond to HID++");
    assert_eq!(GestureError::Hidpp("boom".into()).to_string(), "HID++ protocol error: boom");
    assert_eq!(GestureError::from(BackendError::Disconnected).to_string(), "HID transport error");
    assert_eq!(GestureError::DeviceNotFound.to_string(), "no connected device matched the capture route");
}

#[test]
fn nothing_armed_owes_no_restore() {
    assert!(ReprogRestore::new(4, Vec::new()).is_none());
    assert!(PendingCaptureRestore::new(route(), None, None).is_none());
    assert!(PendingCaptureRestore::new(route(), None, Some(5)).is_some());
}

#[test]
fn a_retired_transport_is_never_written_underneath_its_replacement() {
    let controls = vec![ArmedReporting { cid: 0x00c3, original: reporting() }];
    let pending = PendingCaptureRestore::new(route(), ReprogRestore::new(4, controls), None).expect("armed");
    assert_eq!(pending.retired_policy, RetiredChannelPolicy::ReplacementOnly);
    assert_eq!(pending.retry_step(false, false), RetryStep::KeepPending);
    assert_eq!(pending.retry_step(true, true), RetryStep::KeepPending);
    assert_eq!(pending.retry_step(true, false), RetryStep::Restore);
    let pending = pending.allow_current_channel();
    assert_eq!(pending.retry_step(true, true), RetryStep::Restore);
    assert!(matches!(pending.clone().finish_retry(true, false), CaptureSessionOutcome::RestorePending(_)));
    assert!(matches!(pending.clone().finish_retry(false, true), CaptureSessionOutcome::RestorePending(_)));
    assert!(matches!(pending.finish_retry(true, true), CaptureSessionOutcome::Restored));
}

#[test]
fn stop_and_rollback_choose_the_right_release_path() {
    assert_eq!(restore_after_stop_plan(CaptureStop::Shutdown, false, true), RestorePlan::Nothing);
    assert_eq!(
        restore_after_stop_plan(CaptureStop::Shutdown, true, true),
        RestorePlan::Retry(RetiredChannelPolicy::CurrentAllowed)
    );
    assert_eq!(restore_after_stop_plan(CaptureStop::Shutdown, true, false), RestorePlan::Standalone);
    assert_eq!(
        restore_after_stop_plan(CaptureStop::ChannelChanged, true, true),
        RestorePlan::Retry(RetiredChannelPolicy::ReplacementOnly)
    );
    assert_eq!(restore_after_stop_plan(CaptureStop::ChannelChanged, true, false), RestorePlan::Keep);
    assert_eq!(rollback_plan(true, true), RestorePlan::Retry(RetiredChannelPolicy::CurrentAllowed));
    assert_eq!(rollback_plan(true, false), RestorePlan::Standalone);
    assert_eq!(stop_for_current_publication(true, false), CaptureStop::ChannelChanged);
    assert_eq!(stop_for_current_publication(true, true), CaptureStop::Shutdown);
    assert_eq!(stop_for_current_publication(false, false), CaptureStop::Shutdown);

    let pending = PendingCaptureRestore::new(route(), None, Some(3)).expect("armed");
    let failure = rollback_failure(GestureError::DeviceNotFound, Some(CaptureSessionOutcome::RestorePending(pending)));
    let (error, left) = failure.into_parts();
    assert!(matches!(error, GestureError::DeviceNotFound));
    assert_eq!(left.expect("still owned").thumb_index, Some(3));
    let (_, left) = rollback_failure(GestureError::DeviceNotFound, Some(CaptureSessionOutcome::Restored)).into_parts();
    assert!(left.is_none());
}

#[test]
fn diversion_changes_keep_the_remap_target() {
    let divert = divert_change(reporting(), true);
    assert_eq!(divert.diverted, Some(true));
    assert_eq!(divert.raw_xy, Some(true));
    assert_eq!(divert.remap, Some(ControlId(0x0050)));
    assert_eq!(divert.persistently_diverted, None);
    let undivert = undivert_change(reporting());
    assert_eq!(undivert.diverted, Some(false));
    assert_eq!(undivert.raw_xy, Some(false));
    assert_eq!(undivert.remap, Some(ControlId(0x0050)));
    assert_eq!(undivert.analytics_key_events, None);
}
