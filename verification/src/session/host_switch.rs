//! Keyboard-initiated host-switch synchronization: the decisions of a
//! session that diverts the keyboard's three host controls, observes which
//! channel was pressed, switches the linked pointing devices, and then the
//! keyboard itself.
//!
//! Ordering matters: once the keyboard leaves this host its HID++ channel can
//! no longer command a mouse sharing the same receiver.

use vstd::prelude::*;

use crate::backend::BackendError;
use crate::hid::route::DeviceRoute;
use crate::reprog_controls::{
    AnalyticsKeyEvent, CidReporting, ControlId, CidReportingChange, CtrlIdInfo, ReprogControlsEvent, FLAG_ANALYTICS_KEY_EVENTS,
    FLAG_DIVERTABLE, HOST_SWITCH_CHANNEL_1_CONTROL, HOST_SWITCH_CHANNEL_1_TASK,
    HOST_SWITCH_CHANNEL_2_CONTROL, HOST_SWITCH_CHANNEL_2_TASK, HOST_SWITCH_CHANNEL_3_CONTROL,
    HOST_SWITCH_CHANNEL_3_TASK,
};
use crate::text::{decimal, push_decimal_u8, push_str};

verus! {

/// Why an armed host-switch session is being stopped externally.
#[derive(Debug, Clone, Copy, PartialEq, Eq, Structural)]
pub enum HostSwitchStopReason {
    /// The keyboard remains reachable, so its controls must be restored.
    Graceful,
    /// The keyboard disappeared, so only local resources can be released.
    DeviceLost,
}

/// How a host control was taken over for the session.
#[derive(Debug, Clone, Copy, PartialEq, Eq, Structural)]
pub enum ReportingMode {
    /// The control was temporarily diverted to software.
    Diverted,
    /// The control's analytics key events were enabled.
    Analytics,
}

/// A host control taken over for the session, with what to restore.
#[derive(Debug, Clone, Copy, PartialEq, Eq, Structural)]
pub struct ArmedControl {
    /// The control's CID.
    pub cid: u16,
    /// The zero-based host the control selects.
    pub host: u8,
    /// How the control was taken over.
    pub mode: ReportingMode,
    /// The control's reporting state before the session.
    pub original: CidReporting,
}

/// Failure while arming or running a host-switch link.
#[derive(Debug)]
pub enum HostSwitchError {
    /// HID transport-level failure.
    Hid(BackendError),
    /// The configured keyboard is not currently reachable.
    KeyboardNotFound,
    /// A configured target is not currently reachable.
    TargetNotFound,
    /// A required HID++ operation failed.
    Hidpp(String),
    /// A required HID++ operation did not complete within its budget.
    TimedOut {
        /// Description of the operation that exceeded its budget.
        operation: &'static str,
    },
    /// The keyboard cannot report its host switch controls to software.
    UnsupportedKeyboard,
    /// The device reports the requested host slot as unpaired, so switching
    /// to it would strand the device.
    HostSlotEmpty {
        /// The zero-based host slot that has no pairing.
        host: u8,
    },
}

/// The host a control selects, by its CID first and its task ID second.
pub open spec fn spec_host_channel(cid: u16, task_id: u16) -> Option<u8> {
    if cid == HOST_SWITCH_CHANNEL_1_CONTROL {
        Some(0)
    } else if cid == HOST_SWITCH_CHANNEL_2_CONTROL {
        Some(1)
    } else if cid == HOST_SWITCH_CHANNEL_3_CONTROL {
        Some(2)
    } else if task_id == HOST_SWITCH_CHANNEL_1_TASK {
        Some(0)
    } else if task_id == HOST_SWITCH_CHANNEL_2_TASK {
        Some(1)
    } else if task_id == HOST_SWITCH_CHANNEL_3_TASK {
        Some(2)
    } else {
        None
    }
}

/// The zero-based host a control switches to, if it is a host control:
/// recognized by its CID, or by its task when the CID varies.
pub fn host_channel(info: CtrlIdInfo) -> (h: Option<u8>)
    ensures
        h == spec_host_channel(info.cid, info.task_id),
{
    if info.cid == HOST_SWITCH_CHANNEL_1_CONTROL {
        Some(0)
    } else if info.cid == HOST_SWITCH_CHANNEL_2_CONTROL {
        Some(1)
    } else if info.cid == HOST_SWITCH_CHANNEL_3_CONTROL {
        Some(2)
    } else if info.task_id == HOST_SWITCH_CHANNEL_1_TASK {
        Some(0)
    } else if info.task_id == HOST_SWITCH_CHANNEL_2_TASK {
        Some(1)
    } else if info.task_id == HOST_SWITCH_CHANNEL_3_TASK {
        Some(2)
    } else {
        None
    }
}

/// How a host control is taken over: diverted when it can be, else through
/// analytics key events when it reports them, else not at all.
pub open spec fn spec_arming_mode(flags: u16) -> Option<ReportingMode> {
    if flags & FLAG_DIVERTABLE != 0 {
        Some(ReportingMode::Diverted)
    } else if flags & FLAG_ANALYTICS_KEY_EVENTS != 0 {
        Some(ReportingMode::Analytics)
    } else {
        None
    }
}

/// How a discovered host control is taken over for the session, if at all.
pub fn arming_mode(info: CtrlIdInfo) -> (m: Option<ReportingMode>)
    ensures
        m == spec_arming_mode(info.flags),
{
    if info.is_divertable() {
        Some(ReportingMode::Diverted)
    } else if info.supports_analytics_events() {
        Some(ReportingMode::Analytics)
    } else {
        None
    }
}

/// Whether one of `events` is about control `cid`.
pub open spec fn reports_control(events: Seq<AnalyticsKeyEvent>, cid: u16) -> bool {
    exists|j: int| 0 <= j < events.len() && (#[trigger] events[j]).cid.0 == cid
}

/// Whether `event` reports `control` as pressed.
pub open spec fn pressed_by(control: ArmedControl, event: ReprogControlsEvent) -> bool {
    match event {
        ReprogControlsEvent::DivertedButtons(cids) => cids@.contains(ControlId(control.cid)),
        ReprogControlsEvent::AnalyticsKeyEvents(events) => reports_control(events@, control.cid),
        _ => false,
    }
}

/// The host of the first control in `controls` that `event` reports.
pub open spec fn first_pressed_host(controls: Seq<ArmedControl>, event: ReprogControlsEvent) -> Option<u8>
    decreases controls.len(),
{
    if controls.len() == 0 {
        None
    } else if pressed_by(controls[0], event) {
        Some(controls[0].host)
    } else {
        first_pressed_host(controls.drop_first(), event)
    }
}

fn is_pressed(control: &ArmedControl, event: &ReprogControlsEvent) -> (b: bool)
    ensures
        b == pressed_by(*control, *event),
{
    match event {
        ReprogControlsEvent::DivertedButtons(cids) => {
            let mut j: usize = 0;
            while j < 4
                invariant
                    j <= 4,
                    *event == ReprogControlsEvent::DivertedButtons(*cids),
                    forall|k: int| 0 <= k < j ==> (#[trigger] cids@[k]).0 != control.cid,
                decreases 4 - j,
            {
                if cids[j].0 == control.cid {
                    assert(cids@[j as int] == ControlId(control.cid));
                    return true;
                }
                j = j + 1;
            }
            false
        },
        ReprogControlsEvent::AnalyticsKeyEvents(events) => {
            let mut j: usize = 0;
            while j < 5
                invariant
                    j <= 5,
                    *event == ReprogControlsEvent::AnalyticsKeyEvents(*events),
                    forall|k: int| 0 <= k < j ==> (#[trigger] events@[k]).cid.0 != control.cid,
                decreases 5 - j,
            {
                if events[j].cid.0 == control.cid {
                    assert(events@[j as int].cid.0 == control.cid);
                    assert(reports_control(events@, control.cid));
                    return true;
                }
                j = j + 1;
            }
            false
        },
        _ => false,
    }
}

/// The host selected by a control event: the host of the first armed
/// control the event reports pressed. Raw motion events select nothing.
pub fn event_host(controls: &[ArmedControl], event: ReprogControlsEvent) -> (h: Option<u8>)
    ensures
        h == first_pressed_host(controls@, event),
{
    let mut i: usize = 0;
    assert(controls@.subrange(0, controls@.len() as int) =~= controls@);
    while i < controls.len()
        invariant
            i <= controls@.len(),
            first_pressed_host(controls@, event) == first_pressed_host(controls@.subrange(i as int, controls@.len() as int), event),
        decreases controls@.len() - i,
    {
        let ghost rest = controls@.subrange(i as int, controls@.len() as int);
        assert(rest.drop_first() =~= controls@.subrange(i + 1, controls@.len() as int));
        if is_pressed(&controls[i], &event) {
            return Some(controls[i].host);
        }
        i = i + 1;
    }
    None
}

/// The reporting change that undoes a session's takeover of `control`:
/// only the bits the session changed are restored to their original values.
pub open spec fn spec_restoration_change(control: ArmedControl) -> CidReportingChange {
    match control.mode {
        ReportingMode::Diverted => CidReportingChange {
            diverted: Some(control.original.diverted),
            raw_xy: Some(control.original.raw_xy),
            persistently_diverted: None,
            force_raw_xy: None,
            remap: None,
            analytics_key_events: None,
            raw_wheel: None,
        },
        ReportingMode::Analytics => CidReportingChange {
            analytics_key_events: Some(control.original.analytics_key_events),
            diverted: None,
            raw_xy: None,
            persistently_diverted: None,
            force_raw_xy: None,
            remap: None,
            raw_wheel: None,
        },
    }
}

/// The reporting change that hands `control` back as it was found.
pub fn restoration_change(control: ArmedControl) -> (c: CidReportingChange)
    ensures
        c == spec_restoration_change(control),
{
    match control.mode {
        ReportingMode::Diverted => CidReportingChange {
            diverted: Some(control.original.diverted),
            raw_xy: Some(control.original.raw_xy),
            ..CidReportingChange::default()
        },
        ReportingMode::Analytics => CidReportingChange {
            analytics_key_events: Some(control.original.analytics_key_events),
            ..CidReportingChange::default()
        },
    }
}

/// The message of the error for a host outside a device's host count.
pub open spec fn host_out_of_range_message(requested_host: u8, host_count: u8) -> Seq<char> {
    "host "@ + decimal(requested_host as nat) + " is outside device host count "@ + decimal(host_count as nat)
}

/// Whether moving a device on `current_host` with `host_count` host slots
/// to `requested_host` needs a host change; a host outside the device's
/// range is an error.
pub fn host_change_required(current_host: u8, host_count: u8, requested_host: u8) -> (r: Result<bool, HostSwitchError>)
    ensures
        requested_host >= host_count <==> r is Err,
        r matches Ok(b) ==> b == (current_host != requested_host),
        r matches Err(e) ==> e matches HostSwitchError::Hidpp(m) && m@ == host_out_of_range_message(requested_host, host_count),
{
    if requested_host >= host_count {
        let mut m = String::new();
        push_str(&mut m, "host ");
        push_decimal_u8(&mut m, requested_host);
        push_str(&mut m, " is outside device host count ");
        push_decimal_u8(&mut m, host_count);
        return Err(HostSwitchError::Hidpp(m));
    }
    Ok(current_host != requested_host)
}

/// Whether two routes reach their devices over one HID++ channel.
pub fn shares_channel(left: &DeviceRoute, right: &DeviceRoute) -> (b: bool)
    ensures
        b == left.spec_shares_transport(*right),
{
    left.shares_transport(right)
}

/// What ended a session's wait: an external stop (with its reason, or none
/// when the stop signal was dropped) or a press of a host control.
#[derive(Debug, Clone, Copy, PartialEq, Eq, Structural)]
pub enum SessionEvent {
    /// The session was stopped from outside.
    Stopped(Option<HostSwitchStopReason>),
    /// A host control selecting this host was pressed.
    Pressed(u8),
}

/// The host a session ends with, and whether the keyboard's controls must be
/// restored: a press yields its host and restores; a graceful stop restores
/// without a host; a lost device, or a dropped stop signal, releases only
/// local resources.
pub fn session_outcome(event: SessionEvent) -> (r: (Option<u8>, bool))
    ensures
        r == (match event {
            SessionEvent::Pressed(host) => (Some(host), true),
            SessionEvent::Stopped(reason) => (None::<u8>, reason == Some(HostSwitchStopReason::Graceful)),
        }),
{
    match event {
        SessionEvent::Stopped(reason) => {
            let reason = match reason {
                Some(r) => r,
                None => HostSwitchStopReason::DeviceLost,
            };
            (None, reason == HostSwitchStopReason::Graceful)
        },
        SessionEvent::Pressed(host) => (Some(host), true),
    }
}

/// The reporting change that enables a control's analytics key events.
pub open spec fn analytics_on() -> CidReportingChange {
    CidReportingChange { analytics_key_events: Some(true), ..crate::reprog_controls::no_change() }
}

/// The next piece of keyboard work an arming pass asks for.
#[derive(Debug)]
pub enum ArmingAction {
    /// Read how many reprogrammable controls the keyboard has.
    ReadCount,
    /// Read the information of the control at this table index.
    ReadInfo(u8),
    /// Read this control's current reporting state.
    ReadReporting(u16),
    /// Divert this control to software.
    Divert(u16),
    /// Apply this reporting change to this control.
    SetReporting(u16, CidReportingChange),
    /// Arming is over, with this result; the armed controls are to be
    /// restored when it failed.
    Finish(Result<(), HostSwitchError>),
}

/// The outcome of the keyboard work last asked for.
#[derive(Debug)]
pub enum ArmingEvent {
    /// The control count.
    Count(Result<u8, HostSwitchError>),
    /// A control's information.
    Info(Result<CtrlIdInfo, HostSwitchError>),
    /// A control's reporting state.
    Reporting(Result<CidReporting, HostSwitchError>),
    /// The result of a divert or reporting write.
    Written(Result<(), HostSwitchError>),
}

/// Where an arming pass stands.
#[derive(Debug, Clone, Copy, PartialEq, Eq, Structural)]
pub enum ArmingStage {
    /// Waiting for the control count.
    CountPending,
    /// Waiting for the information of control `index` of `count`.
    InfoPending { index: u8, count: u8 },
    /// Waiting for the reporting state of host control `cid` at `index`.
    ReportingPending { index: u8, count: u8, cid: u16, host: u8, mode: ReportingMode },
    /// Waiting for the write that takes over the control at `index`.
    WritePending { index: u8, count: u8 },
    /// Done.
    Finished,
}

/// Whether an arming pass in `stage` waits for `event`.
pub open spec fn arming_expects(stage: ArmingStage, event: ArmingEvent) -> bool {
    match stage {
        ArmingStage::CountPending => event is Count,
        ArmingStage::InfoPending { .. } => event is Info,
        ArmingStage::ReportingPending { .. } => event is Reporting,
        ArmingStage::WritePending { .. } => event is Written,
        ArmingStage::Finished => false,
    }
}

/// The stage and action after control `index` of `count` is done.
pub open spec fn spec_after_control(index: u8, count: u8) -> (ArmingStage, ArmingAction) {
    if index + 1 < count {
        (ArmingStage::InfoPending { index: (index + 1) as u8, count }, ArmingAction::ReadInfo((index + 1) as u8))
    } else {
        (ArmingStage::Finished, ArmingAction::Finish(Ok(())))
    }
}

/// One step of an arming pass over the armed controls so far.
pub open spec fn spec_arming_step(stage: ArmingStage, armed: Seq<ArmedControl>, event: ArmingEvent)
    -> (ArmingStage, Seq<ArmedControl>, ArmingAction)
{
    match (stage, event) {
        (ArmingStage::CountPending, ArmingEvent::Count(result)) => match result {
            Ok(count) => if count == 0 {
                (ArmingStage::Finished, armed, ArmingAction::Finish(Ok(())))
            } else {
                (ArmingStage::InfoPending { index: 0, count }, armed, ArmingAction::ReadInfo(0))
            },
            Err(e) => (ArmingStage::Finished, armed, ArmingAction::Finish(Err(e))),
        },
        (ArmingStage::InfoPending { index, count }, ArmingEvent::Info(result)) => match result {
            Ok(info) => match (spec_host_channel(info.cid, info.task_id), spec_arming_mode(info.flags)) {
                (Some(host), Some(mode)) => (
                    ArmingStage::ReportingPending { index, count, cid: info.cid, host, mode },
                    armed,
                    ArmingAction::ReadReporting(info.cid),
                ),
                _ => {
                    let (next, action) = spec_after_control(index, count);
                    (next, armed, action)
                },
            },
            Err(e) => (ArmingStage::Finished, armed, ArmingAction::Finish(Err(e))),
        },
        (ArmingStage::ReportingPending { index, count, cid, host, mode }, ArmingEvent::Reporting(result)) => match result {
            Ok(original) => (
                ArmingStage::WritePending { index, count },
                armed.push(ArmedControl { cid, host, mode, original }),
                match mode {
                    ReportingMode::Diverted => ArmingAction::Divert(cid),
                    ReportingMode::Analytics => ArmingAction::SetReporting(cid, analytics_on()),
                },
            ),
            Err(e) => (ArmingStage::Finished, armed, ArmingAction::Finish(Err(e))),
        },
        (ArmingStage::WritePending { index, count }, ArmingEvent::Written(result)) => match result {
            Ok(()) => {
                let (next, action) = spec_after_control(index, count);
                (next, armed, action)
            },
            Err(e) => (ArmingStage::Finished, armed, ArmingAction::Finish(Err(e))),
        },
        _ => (stage, armed, ArmingAction::ReadCount),
    }
}

/// An arming pass over the keyboard's reprogrammable controls: every host
/// control that can be diverted (or, failing that, can report analytics key
/// events) is taken over, and recorded for restoration before the write that
/// takes it over is issued, since a write whose reply was lost may still
/// have been applied.
#[derive(Debug)]
pub struct HostArming {
    /// Where the pass stands.
    pub stage: ArmingStage,
    /// The controls taken over so far, in table order.
    pub armed: Vec<ArmedControl>,
}

impl HostArming {
    /// A fresh pass; its first action reads the control count.
    pub fn new() -> (r: (Self, ArmingAction))
        ensures
            r.0.stage is CountPending,
            r.0.armed@.len() == 0,
            r.1 is ReadCount,
    {
        (HostArming { stage: ArmingStage::CountPending, armed: Vec::new() }, ArmingAction::ReadCount)
    }

    /// Whether the pass waits for `event`.
    pub fn expects(&self, event: &ArmingEvent) -> (b: bool)
        ensures
            b == arming_expects(self.stage, *event),
    {
        match (self.stage, event) {
            (ArmingStage::CountPending, ArmingEvent::Count(_)) => true,
            (ArmingStage::InfoPending { .. }, ArmingEvent::Info(_)) => true,
            (ArmingStage::ReportingPending { .. }, ArmingEvent::Reporting(_)) => true,
            (ArmingStage::WritePending { .. }, ArmingEvent::Written(_)) => true,
            _ => false,
        }
    }

    /// The next stage and action, given the outcome of the last action.
    pub fn step(&mut self, event: ArmingEvent) -> (action: ArmingAction)
        requires
            arming_expects(old(self).stage, event),
        ensures
            (final(self).stage, final(self).armed@, action) == spec_arming_step(old(self).stage, old(self).armed@, event),
    {
        match (self.stage, event) {
            (ArmingStage::CountPending, ArmingEvent::Count(result)) => match result {
                Ok(count) => if count == 0 {
                    self.stage = ArmingStage::Finished;
                    ArmingAction::Finish(Ok(()))
                } else {
                    self.stage = ArmingStage::InfoPending { index: 0, count };
                    ArmingAction::ReadInfo(0)
                },
                Err(e) => {
                    self.stage = ArmingStage::Finished;
                    ArmingAction::Finish(Err(e))
                },
            },
            (ArmingStage::InfoPending { index, count }, ArmingEvent::Info(result)) => match result {
                Ok(info) => match (host_channel(info), arming_mode(info)) {
                    (Some(host), Some(mode)) => {
                        self.stage = ArmingStage::ReportingPending { index, count, cid: info.cid, host, mode };
                        ArmingAction::ReadReporting(info.cid)
                    },
                    _ => self.after_control(index, count),
                },
                Err(e) => {
                    self.stage = ArmingStage::Finished;
                    ArmingAction::Finish(Err(e))
                },
            },
            (ArmingStage::ReportingPending { index, count, cid, host, mode }, ArmingEvent::Reporting(result)) => match result {
                Ok(original) => {
                    self.armed.push(ArmedControl { cid, host, mode, original });
                    self.stage = ArmingStage::WritePending { index, count };
                    match mode {
                        ReportingMode::Diverted => ArmingAction::Divert(cid),
                        ReportingMode::Analytics => ArmingAction::SetReporting(
                            cid,
                            CidReportingChange { analytics_key_events: Some(true), ..CidReportingChange::default() },
                        ),
                    }
                },
                Err(e) => {
                    self.stage = ArmingStage::Finished;
                    ArmingAction::Finish(Err(e))
                },
            },
            (ArmingStage::WritePending { index, count }, ArmingEvent::Written(result)) => match result {
                Ok(()) => self.after_control(index, count),
                Err(e) => {
                    self.stage = ArmingStage::Finished;
                    ArmingAction::Finish(Err(e))
                },
            },
            _ => ArmingAction::ReadCount,
        }
    }

    fn after_control(&mut self, index: u8, count: u8) -> (action: ArmingAction)
        ensures
            (final(self).stage, action) == spec_after_control(index, count),
            final(self).armed@ == old(self).armed@,
    {
        if (index as u16) + 1 < count as u16 {
            self.stage = ArmingStage::InfoPending { index: index + 1, count };
            ArmingAction::ReadInfo(index + 1)
        } else {
            self.stage = ArmingStage::Finished;
            ArmingAction::Finish(Ok(()))
        }
    }

    /// The controls taken over so far, to restore.
    pub fn into_armed(self) -> (armed: Vec<ArmedControl>)
        ensures
            armed@ == self.armed@,
    {
        self.armed
    }
}

/// How far an arming pass is from its end.
pub open spec fn arming_rank(stage: ArmingStage) -> int {
    match stage {
        ArmingStage::CountPending => 1028int,
        ArmingStage::InfoPending { index, count } => 4 * (count - index) + 3,
        ArmingStage::ReportingPending { index, count, .. } => 4 * (count - index) + 2,
        ArmingStage::WritePending { index, count } => 4 * (count - index) + 1,
        ArmingStage::Finished => 0,
    }
}

/// Whether a stage's control index lies within its count.
pub open spec fn arming_in_range(stage: ArmingStage) -> bool {
    match stage {
        ArmingStage::InfoPending { index, count } => index < count,
        ArmingStage::ReportingPending { index, count, .. } => index < count,
        ArmingStage::WritePending { index, count } => index < count,
        _ => true,
    }
}

/// Arming always ends; it records a control before the write that takes it
/// over; it never forgets a recorded control; and it takes over exactly the
/// controls that are host controls with a way to be taken over.
pub proof fn lemma_arming_records_before_writing(stage: ArmingStage, armed: Seq<ArmedControl>, event: ArmingEvent)
    requires
        arming_expects(stage, event),
        arming_in_range(stage),
    ensures
        ({
            let (next, armed2, action) = spec_arming_step(stage, armed, event);
            &&& arming_in_range(next)
            &&& 0 <= arming_rank(next) < arming_rank(stage)
            &&& armed.is_prefix_of(armed2)
            &&& armed2.len() <= armed.len() + 1
            &&& (action matches ArmingAction::Divert(cid) ==> armed2.len() > 0 && armed2.last().cid == cid
                    && armed2.last().mode == ReportingMode::Diverted)
            &&& (action matches ArmingAction::SetReporting(cid, change) ==> armed2.len() > 0 && armed2.last().cid == cid
                    && armed2.last().mode == ReportingMode::Analytics && change == analytics_on())
            &&& (armed2.len() > armed.len() ==> (stage matches ArmingStage::ReportingPending { cid, host, mode, .. }
                    && armed2.last().cid == cid && armed2.last().host == host && armed2.last().mode == mode))
        }),
{
    let (next, armed2, action) = spec_arming_step(stage, armed, event);
    assert(armed.is_prefix_of(armed2)) by {
        if armed2.len() > armed.len() {
            assert(armed2.subrange(0, armed.len() as int) =~= armed);
        } else {
            assert(armed2 == armed);
            assert(armed2.subrange(0, armed.len() as int) =~= armed);
        }
    }
}

/// How arming ended for a session.
#[derive(Debug)]
pub enum ArmingOutcome {
    /// These controls are taken over; the session can start.
    Armed(Vec<ArmedControl>),
    /// The session cannot start; the listed controls must be restored.
    Failed { error: HostSwitchError, restore: Vec<ArmedControl> },
}

/// How a finished arming pass ends the session's setup: a failure restores
/// whatever it took over; a pass that took over nothing means the keyboard
/// cannot report its host controls.
pub fn arming_outcome(result: Result<(), HostSwitchError>, armed: Vec<ArmedControl>) -> (o: ArmingOutcome)
    ensures
        match result {
            Err(e) => o matches ArmingOutcome::Failed { error, restore } && error == e && restore@ == armed@,
            Ok(()) => if armed@.len() == 0 {
                o matches ArmingOutcome::Failed { error, restore } && error is UnsupportedKeyboard && restore@.len() == 0
            } else {
                o matches ArmingOutcome::Armed(a) && a@ == armed@
            },
        },
{
    match result {
        Err(error) => ArmingOutcome::Failed { error, restore: armed },
        Ok(()) => if armed.len() == 0 {
            ArmingOutcome::Failed { error: HostSwitchError::UnsupportedKeyboard, restore: armed }
        } else {
            ArmingOutcome::Armed(armed)
        },
    }
}

/// The next piece of work a linked host switch asks for.
#[derive(Debug)]
pub enum LinkedSwitchAction {
    /// Open the keyboard's channel and prepare (read-only) its own move.
    PrepareKeyboard,
    /// Prepare the move of linked target `i`.
    PrepareTarget(usize),
    /// Apply the prepared move of linked target `i`.
    ApplyTarget(usize),
    /// Apply the keyboard's prepared move.
    ApplyKeyboard,
    /// The switch is over: whether the keyboard changed hosts, or why not.
    Finish(Result<bool, HostSwitchError>),
}

/// The outcome of the work last asked for.
#[derive(Debug)]
pub enum LinkedSwitchEvent {
    /// The keyboard's move was prepared, or could not be.
    KeyboardPrepared(Result<(), HostSwitchError>),
    /// A target's move was prepared, or could not be.
    TargetPrepared(Result<(), HostSwitchError>),
    /// A target's move was applied (and whether it changed hosts), or failed.
    TargetApplied(Result<bool, HostSwitchError>),
    /// The keyboard's move was applied, or failed.
    KeyboardApplied(Result<bool, HostSwitchError>),
}

/// Where a linked host switch stands.
#[derive(Debug, Clone, Copy, PartialEq, Eq, Structural)]
pub enum LinkedSwitchStage {
    /// Waiting for the keyboard's preparation.
    PreparingKeyboard,
    /// Waiting for target `i`'s preparation.
    PreparingTarget(usize),
    /// Waiting for target `i`'s move.
    ApplyingTarget(usize),
    /// Waiting for the keyboard's move.
    ApplyingKeyboard,
    /// Done.
    Finished,
}

/// Whether `event` answers the work `stage` waits for.
pub open spec fn linked_expects(stage: LinkedSwitchStage, event: LinkedSwitchEvent) -> bool {
    match stage {
        LinkedSwitchStage::PreparingKeyboard => event is KeyboardPrepared,
        LinkedSwitchStage::PreparingTarget(_) => event is TargetPrepared,
        LinkedSwitchStage::ApplyingTarget(_) => event is TargetApplied,
        LinkedSwitchStage::ApplyingKeyboard => event is KeyboardApplied,
        LinkedSwitchStage::Finished => false,
    }
}

/// The stage and action that move on to target `next`, or to the keyboard
/// once every target has had its turn.
pub open spec fn spec_next_target(next: int, targets: usize) -> (LinkedSwitchStage, LinkedSwitchAction) {
    if next < targets {
        (LinkedSwitchStage::PreparingTarget(next as usize), LinkedSwitchAction::PrepareTarget(next as usize))
    } else {
        (LinkedSwitchStage::ApplyingKeyboard, LinkedSwitchAction::ApplyKeyboard)
    }
}

/// One step of a linked host switch over `targets` linked devices: the
/// keyboard's move is validated first and ends the switch when it fails;
/// each target is then prepared and, when that worked, moved, and its
/// failures are only skipped over; the keyboard moves last.
pub open spec fn spec_linked_step(targets: usize, stage: LinkedSwitchStage, event: LinkedSwitchEvent) -> (LinkedSwitchStage, LinkedSwitchAction) {
    match (stage, event) {
        (LinkedSwitchStage::PreparingKeyboard, LinkedSwitchEvent::KeyboardPrepared(result)) => match result {
            Ok(()) => spec_next_target(0, targets),
            Err(e) => (LinkedSwitchStage::Finished, LinkedSwitchAction::Finish(Err(e))),
        },
        (LinkedSwitchStage::PreparingTarget(i), LinkedSwitchEvent::TargetPrepared(result)) => match result {
            Ok(()) => (LinkedSwitchStage::ApplyingTarget(i), LinkedSwitchAction::ApplyTarget(i)),
            Err(_) => spec_next_target(i + 1, targets),
        },
        (LinkedSwitchStage::ApplyingTarget(i), LinkedSwitchEvent::TargetApplied(_)) => spec_next_target(i + 1, targets),
        (LinkedSwitchStage::ApplyingKeyboard, LinkedSwitchEvent::KeyboardApplied(result)) =>
            (LinkedSwitchStage::Finished, LinkedSwitchAction::Finish(result)),
        _ => (LinkedSwitchStage::Finished, LinkedSwitchAction::Finish(Err(HostSwitchError::KeyboardNotFound))),
    }
}

/// A switch of a keyboard and its linked pointing devices to one host.
#[derive(Debug, Clone, Copy)]
pub struct LinkedHostSwitch {
    /// How many linked targets follow the keyboard.
    pub targets: usize,
    /// Where the switch stands.
    pub stage: LinkedSwitchStage,
}

/// Whether a stage's target index lies within the target count.
pub open spec fn linked_in_range(targets: usize, stage: LinkedSwitchStage) -> bool {
    match stage {
        LinkedSwitchStage::PreparingTarget(i) => i < targets,
        LinkedSwitchStage::ApplyingTarget(i) => i < targets,
        _ => true,
    }
}

impl LinkedHostSwitch {
    /// A switch over `targets` linked devices, starting with the keyboard's
    /// preparation.
    pub fn new(targets: usize) -> (r: (Self, LinkedSwitchAction))
        ensures
            r.0 == (LinkedHostSwitch { targets, stage: LinkedSwitchStage::PreparingKeyboard }),
            r.1 is PrepareKeyboard,
    {
        (LinkedHostSwitch { targets, stage: LinkedSwitchStage::PreparingKeyboard }, LinkedSwitchAction::PrepareKeyboard)
    }

    /// Whether `event` answers the work this switch waits for.
    pub fn expects(&self, event: &LinkedSwitchEvent) -> (b: bool)
        ensures
            b == linked_expects(self.stage, *event),
    {
        match (self.stage, event) {
            (LinkedSwitchStage::PreparingKeyboard, LinkedSwitchEvent::KeyboardPrepared(_)) => true,
            (LinkedSwitchStage::PreparingTarget(_), LinkedSwitchEvent::TargetPrepared(_)) => true,
            (LinkedSwitchStage::ApplyingTarget(_), LinkedSwitchEvent::TargetApplied(_)) => true,
            (LinkedSwitchStage::ApplyingKeyboard, LinkedSwitchEvent::KeyboardApplied(_)) => true,
            _ => false,
        }
    }

    /// The next stage and action, given the outcome of the last action.
    pub fn step(&mut self, event: LinkedSwitchEvent) -> (action: LinkedSwitchAction)
        requires
            linked_expects(old(self).stage, event),
            linked_in_range(old(self).targets, old(self).stage),
        ensures
            final(self).targets == old(self).targets,
            (final(self).stage, action) == spec_linked_step(old(self).targets, old(self).stage, event),
    {
        let targets = self.targets;
        let (stage, action) = match (self.stage, event) {
            (LinkedSwitchStage::PreparingKeyboard, LinkedSwitchEvent::KeyboardPrepared(result)) => match result {
                Ok(()) => next_target(0, targets),
                Err(e) => (LinkedSwitchStage::Finished, LinkedSwitchAction::Finish(Err(e))),
            },
            (LinkedSwitchStage::PreparingTarget(i), LinkedSwitchEvent::TargetPrepared(result)) => match result {
                Ok(()) => (LinkedSwitchStage::ApplyingTarget(i), LinkedSwitchAction::ApplyTarget(i)),
                Err(_) => next_target(i + 1, targets),
            },
            (LinkedSwitchStage::ApplyingTarget(i), LinkedSwitchEvent::TargetApplied(_)) => next_target(i + 1, targets),
            (LinkedSwitchStage::ApplyingKeyboard, LinkedSwitchEvent::KeyboardApplied(result)) =>
                (LinkedSwitchStage::Finished, LinkedSwitchAction::Finish(result)),
            _ => (LinkedSwitchStage::Finished, LinkedSwitchAction::Finish(Err(HostSwitchError::KeyboardNotFound))),
        };
        self.stage = stage;
        action
    }
}

/// The stage and action that move on to target `next`.
fn next_target(next: usize, targets: usize) -> (r: (LinkedSwitchStage, LinkedSwitchAction))
    ensures
        r == spec_next_target(next as int, targets),
{
    if next < targets {
        (LinkedSwitchStage::PreparingTarget(next), LinkedSwitchAction::PrepareTarget(next))
    } else {
        (LinkedSwitchStage::ApplyingKeyboard, LinkedSwitchAction::ApplyKeyboard)
    }
}

/// How far a linked switch is from its end.
pub open spec fn linked_rank(targets: usize, stage: LinkedSwitchStage) -> int {
    match stage {
        LinkedSwitchStage::PreparingKeyboard => 2 * targets + 3,
        LinkedSwitchStage::PreparingTarget(i) => 2 * (targets - i) + 2,
        LinkedSwitchStage::ApplyingTarget(i) => 2 * (targets - i) + 1,
        LinkedSwitchStage::ApplyingKeyboard => 1,
        LinkedSwitchStage::Finished => 0,
    }
}

/// A linked switch always ends, and keeps its order: the keyboard's own
/// move is validated before any target is touched, and a failure there
/// ends the switch with that failure; targets are visited one after the
/// other from the first; a target's failure is skipped over and never ends
/// the switch; the keyboard moves only after the last target's turn, and
/// its result is the switch's.
pub proof fn lemma_linked_switch_keeps_order(targets: usize, stage: LinkedSwitchStage, event: LinkedSwitchEvent)
    requires
        linked_expects(stage, event),
        linked_in_range(targets, stage),
    ensures
        ({
            let (next, action) = spec_linked_step(targets, stage, event);
            &&& linked_in_range(targets, next)
            &&& 0 <= linked_rank(targets, next) < linked_rank(targets, stage)
            &&& (stage is PreparingKeyboard ==> (event matches LinkedSwitchEvent::KeyboardPrepared(Err(e))
                    ==> action == LinkedSwitchAction::Finish(Err(e))))
            &&& (action matches LinkedSwitchAction::PrepareTarget(j) ==>
                    (j == 0 && stage is PreparingKeyboard)
                    || stage == LinkedSwitchStage::PreparingTarget((j - 1) as usize)
                    || stage == LinkedSwitchStage::ApplyingTarget((j - 1) as usize))
            &&& (action matches LinkedSwitchAction::ApplyTarget(j) ==> stage == LinkedSwitchStage::PreparingTarget(j))
            &&& ((stage is PreparingTarget || stage is ApplyingTarget) ==> !(action is Finish))
            &&& (action is ApplyKeyboard ==> (
                    (stage is PreparingKeyboard && targets == 0)
                    || stage == LinkedSwitchStage::PreparingTarget((targets - 1) as usize)
                    || stage == LinkedSwitchStage::ApplyingTarget((targets - 1) as usize)))
            &&& (stage is ApplyingKeyboard ==> (event matches LinkedSwitchEvent::KeyboardApplied(r)
                    ==> action == LinkedSwitchAction::Finish(r)))
        }),
{
}

} // verus!
