//! Vocabulary of the HID++ `REPROG_CONTROLS_V4` feature (0x1B04): control
//! and task identifiers, per-control capability flags, reporting state and
//! the events a diverted control raises.

use vstd::prelude::*;

verus! {

/// A HID++ control identifier (CID).
#[derive(Debug, Clone, Copy, PartialEq, Eq, Default, Structural)]
pub struct ControlId(pub u16);

/// A HID++ task identifier: what a control does, independent of its CID.
#[derive(Debug, Clone, Copy, PartialEq, Eq, Default, Structural)]
pub struct TaskId(pub u16);

/// Control ID of the "host switch channel 1" key.
pub const HOST_SWITCH_CHANNEL_1_CONTROL: u16 = 0x00d1;
/// Control ID of the "host switch channel 2" key.
pub const HOST_SWITCH_CHANNEL_2_CONTROL: u16 = 0x00d2;
/// Control ID of the "host switch channel 3" key.
pub const HOST_SWITCH_CHANNEL_3_CONTROL: u16 = 0x00d3;
/// Task ID of "switch to host channel 1".
pub const HOST_SWITCH_CHANNEL_1_TASK: u16 = 0x00ae;
/// Task ID of "switch to host channel 2".
pub const HOST_SWITCH_CHANNEL_2_TASK: u16 = 0x00af;
/// Task ID of "switch to host channel 3".
pub const HOST_SWITCH_CHANNEL_3_TASK: u16 = 0x00b0;

/// Capability flag: the control can be temporarily diverted to software.
pub const FLAG_DIVERTABLE: u16 = 0x0020;
/// Capability flag: the control can report analytics key events.
pub const FLAG_ANALYTICS_KEY_EVENTS: u16 = 0x0400;

/// One control as `getCtrlIdInfo` reports it. `flags` holds the flags byte
/// in its low half and the additional-flags byte in its high half.
#[derive(Debug, Clone, Copy, PartialEq, Eq, Default, Structural)]
pub struct CtrlIdInfo {
    /// The control's CID.
    pub cid: u16,
    /// The control's task ID.
    pub task_id: u16,
    /// Capability flags.
    pub flags: u16,
}

impl CtrlIdInfo {
    /// Whether the control can be temporarily diverted to software.
    pub fn is_divertable(&self) -> (b: bool)
        ensures
            b == (self.flags & FLAG_DIVERTABLE != 0),
    {
        self.flags & FLAG_DIVERTABLE != 0
    }

    /// Whether the control can report analytics key events.
    pub fn supports_analytics_events(&self) -> (b: bool)
        ensures
            b == (self.flags & FLAG_ANALYTICS_KEY_EVENTS != 0),
    {
        self.flags & FLAG_ANALYTICS_KEY_EVENTS != 0
    }
}

/// A control's current reporting state, as `getCidReporting` returns it.
#[derive(Debug, Clone, Copy, PartialEq, Eq, Structural)]
pub struct CidReporting {
    /// The control this state belongs to.
    pub cid: ControlId,
    /// Temporarily diverted to software.
    pub diverted: bool,
    /// Persistently diverted to software.
    pub persistently_diverted: bool,
    /// Raw XY reporting forced on.
    pub force_raw_xy: bool,
    /// Raw XY reporting enabled.
    pub raw_xy: bool,
    /// The control this one is remapped to, if any.
    pub remap: Option<ControlId>,
    /// Analytics key events enabled.
    pub analytics_key_events: bool,
    /// Raw wheel reporting enabled.
    pub raw_wheel: bool,
}

/// A partial update of a control's reporting state: `None` leaves a bit as
/// it is.
#[derive(Debug, Clone, Copy, PartialEq, Eq, Structural)]
pub struct CidReportingChange {
    /// New temporary-divert bit.
    pub diverted: Option<bool>,
    /// New persistent-divert bit.
    pub persistently_diverted: Option<bool>,
    /// New raw-XY bit.
    pub raw_xy: Option<bool>,
    /// New forced-raw-XY bit.
    pub force_raw_xy: Option<bool>,
    /// New remap target.
    pub remap: Option<ControlId>,
    /// New analytics-key-events bit.
    pub analytics_key_events: Option<bool>,
    /// New raw-wheel bit.
    pub raw_wheel: Option<bool>,
}

/// The change that leaves every bit as it is.
pub open spec fn no_change() -> CidReportingChange {
    CidReportingChange {
        diverted: None,
        persistently_diverted: None,
        raw_xy: None,
        force_raw_xy: None,
        remap: None,
        analytics_key_events: None,
        raw_wheel: None,
    }
}

impl Default for CidReportingChange {
    fn default() -> (c: Self)
        ensures
            c == no_change(),
    {
        CidReportingChange {
            diverted: None,
            persistently_diverted: None,
            raw_xy: None,
            force_raw_xy: None,
            remap: None,
            analytics_key_events: None,
            raw_wheel: None,
        }
    }
}

/// One analytics key event: which control, and what happened to it.
#[derive(Debug, Clone, Copy, PartialEq, Eq, Default, Structural)]
pub struct AnalyticsKeyEvent {
    /// The control the event is about.
    pub cid: ControlId,
    /// The event code.
    pub event: u8,
}

/// A notification raised by the feature for diverted controls.
#[derive(Debug, Clone, Copy, PartialEq, Eq)]
pub enum ReprogControlsEvent {
    /// The diverted controls currently held, zero-padded.
    DivertedButtons([ControlId; 4]),
    /// Raw pointer motion from a diverted control.
    DivertedRawMouseXy { dx: i16, dy: i16 },
    /// Analytics key events, zero-padded.
    AnalyticsKeyEvents([AnalyticsKeyEvent; 5]),
    /// Raw wheel motion from a diverted control.
    DivertedRawWheel { delta: i16 },
}

} // verus!
