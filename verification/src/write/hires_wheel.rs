//! HID++ `0x2121 HiResWheel` mode writes: which mode a request asks for
//! given the current one, and whether the device applied it.

use vstd::prelude::*;

use crate::config::settings::ScrollResolution;
use crate::hid::error::{HidppOperation, WriteError};

verus! {

/// `HiResWheel` HID++ feature ID.
pub const FEATURE_ID: u16 = 0x2121;

/// Destination for vertical wheel movement reports.
#[derive(Debug, Clone, Copy, PartialEq, Eq, Structural)]
pub enum ScrollReportingTarget {
    /// Ordinary HID scroll reports delivered to the operating system.
    Native,
    /// HID++ notifications consumed by a host-side handler.
    Diverted,
}

/// Current HID++ `0x2121` wheel reporting mode.
#[derive(Debug, Clone, Copy, PartialEq, Eq, Structural)]
pub struct ScrollWheelMode {
    /// Vertical wheel reporting resolution.
    pub resolution: ScrollResolution,
    /// Whether native vertical reports are inverted in firmware.
    pub inverted: bool,
    /// Destination for wheel movement reports.
    pub target: ScrollReportingTarget,
}

impl ScrollWheelMode {
    /// A native-reporting mode.
    pub fn native(resolution: ScrollResolution, inverted: bool) -> (m: Self)
        ensures
            m == (ScrollWheelMode { resolution, inverted, target: ScrollReportingTarget::Native }),
    {
        ScrollWheelMode { resolution, inverted, target: ScrollReportingTarget::Native }
    }
}

/// The mode a write of `resolution` and/or `inverted` asks for on a wheel in
/// mode `current`: unspecified parts are kept; selecting a resolution or
/// enabling inversion takes the reports back to native, while clearing
/// inversion keeps the current target.
pub open spec fn spec_desired_mode(current: ScrollWheelMode, resolution: Option<ScrollResolution>, inverted: Option<bool>) -> ScrollWheelMode {
    ScrollWheelMode {
        resolution: match resolution { Some(r) => r, None => current.resolution },
        inverted: match inverted { Some(i) => i, None => current.inverted },
        target: if resolution is Some || inverted == Some(true) { ScrollReportingTarget::Native } else { current.target },
    }
}

/// The mode a write asks for.
pub fn desired_mode(current: ScrollWheelMode, resolution: Option<ScrollResolution>, inverted: Option<bool>) -> (m: ScrollWheelMode)
    ensures
        m == spec_desired_mode(current, resolution, inverted),
{
    let native = match resolution {
        Some(_) => true,
        None => match inverted {
            Some(true) => true,
            _ => false,
        },
    };
    ScrollWheelMode {
        resolution: match resolution {
            Some(r) => r,
            None => current.resolution,
        },
        inverted: match inverted {
            Some(i) => i,
            None => current.inverted,
        },
        target: if native { ScrollReportingTarget::Native } else { current.target },
    }
}

/// Asking for the same write twice asks for nothing new the second time:
/// the mode the first write asks for is already the one the second asks for.
pub proof fn lemma_desired_mode_idempotent(current: ScrollWheelMode, resolution: Option<ScrollResolution>, inverted: Option<bool>)
    ensures
        spec_desired_mode(spec_desired_mode(current, resolution, inverted), resolution, inverted)
            == spec_desired_mode(current, resolution, inverted),
{
}

/// A write asks for exactly what it names: a requested resolution or
/// inversion is the one in the desired mode, and a part left unnamed keeps
/// the wheel's current value. Selecting a resolution or turning inversion on
/// sends reports back to native; otherwise the reporting target is kept.
pub proof fn lemma_desired_mode_writes_requested(
    current: ScrollWheelMode,
    resolution: Option<ScrollResolution>,
    inverted: Option<bool>,
)
    ensures
        ({
            let m = spec_desired_mode(current, resolution, inverted);
            &&& resolution matches Some(r) ==> m.resolution == r
            &&& resolution is None ==> m.resolution == current.resolution
            &&& inverted matches Some(b) ==> m.inverted == b
            &&& inverted is None ==> m.inverted == current.inverted
            &&& (resolution is Some || inverted == Some(true)) ==> m.target == ScrollReportingTarget::Native
            &&& (resolution is None && inverted != Some(true)) ==> m.target == current.target
        }),
{
}

/// Whether the device applied the desired mode: any difference is an
/// unsupported response to the wheel-mode write.
pub fn validate_applied(actual: ScrollWheelMode, desired: ScrollWheelMode) -> (r: Result<(), WriteError>)
    ensures
        r is Ok <==> actual == desired,
        r matches Err(e) ==> e == (WriteError::UnsupportedResponse { operation: HidppOperation::WriteWheelMode, feature_hex: FEATURE_ID }),
{
    if actual == desired {
        Ok(())
    } else {
        Err(WriteError::UnsupportedResponse { operation: HidppOperation::WriteWheelMode, feature_hex: FEATURE_ID })
    }
}

/// A write that needs native inversion is refused for a wheel that cannot
/// invert.
pub fn check_invert_support(require_invert_support: bool, has_invert: bool) -> (r: Result<(), WriteError>)
    ensures
        r is Err <==> (require_invert_support && !has_invert),
        r matches Err(e) ==> e == (WriteError::FeatureUnsupported { feature_hex: FEATURE_ID }),
{
    if require_invert_support && !has_invert {
        Err(WriteError::FeatureUnsupported { feature_hex: FEATURE_ID })
    } else {
        Ok(())
    }
}

/// The error for a wheel-mode read whose values this library does not
/// know.
fn unsupported_read_response() -> (e: WriteError)
    ensures
        e == (WriteError::UnsupportedResponse { operation: HidppOperation::ReadWheelMode, feature_hex: FEATURE_ID }),
{
    WriteError::UnsupportedResponse { operation: HidppOperation::ReadWheelMode, feature_hex: FEATURE_ID }
}

/// The wire value of a resolution: `0` low, `1` high.
pub open spec fn resolution_value(r: ScrollResolution) -> u8 {
    match r {
        ScrollResolution::Low => 0,
        ScrollResolution::High => 1,
    }
}

/// The wire value of a report target: `0` native, `1` diverted.
pub open spec fn target_value(t: ScrollReportingTarget) -> u8 {
    match t {
        ScrollReportingTarget::Native => 0,
        ScrollReportingTarget::Diverted => 1,
    }
}

/// The wire value of a resolution.
pub fn resolution_to_wire(r: ScrollResolution) -> (v: u8)
    ensures
        v == resolution_value(r),
{
    match r {
        ScrollResolution::Low => 0,
        ScrollResolution::High => 1,
    }
}

/// The wire value of a report target.
pub fn target_to_wire(t: ScrollReportingTarget) -> (v: u8)
    ensures
        v == target_value(t),
{
    match t {
        ScrollReportingTarget::Native => 0,
        ScrollReportingTarget::Diverted => 1,
    }
}

/// The wheel mode a `getWheelMode` reply reports, from its inversion flag
/// and its resolution and target values; values this library does not know
/// are an unsupported read response.
pub fn mode_from_wire(inverted: bool, resolution: u8, target: u8) -> (r: Result<ScrollWheelMode, WriteError>)
    ensures
        r is Ok <==> (resolution <= 1 && target <= 1),
        r matches Ok(m) ==> m.inverted == inverted && resolution_value(m.resolution) == resolution
            && target_value(m.target) == target,
        r matches Err(e) ==> e == (WriteError::UnsupportedResponse { operation: HidppOperation::ReadWheelMode, feature_hex: FEATURE_ID }),
{
    let resolution = if resolution == 0 {
        ScrollResolution::Low
    } else if resolution == 1 {
        ScrollResolution::High
    } else {
        return Err(unsupported_read_response());
    };
    let target = if target == 0 {
        ScrollReportingTarget::Native
    } else if target == 1 {
        ScrollReportingTarget::Diverted
    } else {
        return Err(unsupported_read_response());
    };
    Ok(ScrollWheelMode { resolution, inverted, target })
}

/// The next piece of device work a wheel-mode change asks for.
#[derive(Debug)]
pub enum WheelModeAction {
    /// Open the HID++ device at the change's index.
    Connect,
    /// Look up and open the `HiResWheel` feature.
    OpenFeature,
    /// Read the wheel capabilities.
    ReadCapabilities,
    /// Read the current wheel mode.
    ReadMode,
    /// Write this wheel mode.
    WriteMode(ScrollWheelMode),
    /// The change is over: the mode the device ends in, or the failure.
    Finish(Result<ScrollWheelMode, WriteError>),
}

/// The outcome of the device work last asked for.
#[derive(Debug)]
pub enum WheelModeEvent {
    /// Whether the HID++ device answered.
    Connected(bool),
    /// The result of opening the feature.
    Opened(Result<(), WriteError>),
    /// Whether the wheel can invert in firmware.
    Capabilities(Result<bool, WriteError>),
    /// The wheel mode read.
    ModeRead(Result<ScrollWheelMode, WriteError>),
    /// The wheel mode the write reported applied.
    Wrote(Result<ScrollWheelMode, WriteError>),
}

/// Where a wheel-mode change stands.
#[derive(Debug, Clone, Copy, PartialEq, Eq, Structural)]
pub enum WheelModeStage {
    /// Waiting for the device to answer.
    Connecting,
    /// Opening the feature.
    Opening,
    /// Checking that the wheel can invert.
    ReadingCapabilities,
    /// Reading the current mode.
    ReadingMode,
    /// Writing `desired`.
    Writing { desired: ScrollWheelMode },
    /// Reading back the mode after writing `desired`.
    ReadingBack { desired: ScrollWheelMode },
    /// Done.
    Finished,
}

/// A change of the `HiResWheel` mode on the device at `index`, as a state
/// machine: the requested resolution and inversion are applied on top of the
/// current mode (skipping the write when nothing changes), and the written
/// mode is verified both in the write's reply and by reading it back.
#[derive(Debug, Clone, Copy)]
pub struct WheelModeChange {
    /// HID++ device index.
    pub index: u8,
    /// The requested resolution, if it changes.
    pub resolution: Option<ScrollResolution>,
    /// The requested inversion, if it changes.
    pub inverted: Option<bool>,
    /// Whether the wheel must support firmware inversion.
    pub require_invert_support: bool,
    /// Where the change stands.
    pub stage: WheelModeStage,
}

/// Whether a change in `stage` waits for `event`.
pub open spec fn wheel_change_expects(stage: WheelModeStage, event: WheelModeEvent) -> bool {
    match stage {
        WheelModeStage::Connecting => event is Connected,
        WheelModeStage::Opening => event is Opened,
        WheelModeStage::ReadingCapabilities => event is Capabilities,
        WheelModeStage::ReadingMode => event is ModeRead,
        WheelModeStage::Writing { .. } => event is Wrote,
        WheelModeStage::ReadingBack { .. } => event is ModeRead,
        WheelModeStage::Finished => false,
    }
}

/// The unsupported response to a wheel-mode write.
pub open spec fn write_mismatch() -> WriteError {
    WriteError::UnsupportedResponse { operation: HidppOperation::WriteWheelMode, feature_hex: FEATURE_ID }
}

/// One step of a wheel-mode change.
pub open spec fn spec_wheel_change_step(c: WheelModeChange, event: WheelModeEvent) -> (WheelModeStage, WheelModeAction) {
    match (c.stage, event) {
        (WheelModeStage::Connecting, WheelModeEvent::Connected(ok)) => if ok {
            (WheelModeStage::Opening, WheelModeAction::OpenFeature)
        } else {
            (WheelModeStage::Finished, WheelModeAction::Finish(Err(WriteError::DeviceUnreachable { index: c.index })))
        },
        (WheelModeStage::Opening, WheelModeEvent::Opened(result)) => match result {
            Ok(()) => if c.require_invert_support {
                (WheelModeStage::ReadingCapabilities, WheelModeAction::ReadCapabilities)
            } else {
                (WheelModeStage::ReadingMode, WheelModeAction::ReadMode)
            },
            Err(e) => (WheelModeStage::Finished, WheelModeAction::Finish(Err(e))),
        },
        (WheelModeStage::ReadingCapabilities, WheelModeEvent::Capabilities(result)) => match result {
            Ok(has_invert) => if has_invert {
                (WheelModeStage::ReadingMode, WheelModeAction::ReadMode)
            } else {
                (WheelModeStage::Finished, WheelModeAction::Finish(Err(WriteError::FeatureUnsupported { feature_hex: FEATURE_ID })))
            },
            Err(e) => (WheelModeStage::Finished, WheelModeAction::Finish(Err(e))),
        },
        (WheelModeStage::ReadingMode, WheelModeEvent::ModeRead(result)) => match result {
            Ok(current) => {
                let desired = spec_desired_mode(current, c.resolution, c.inverted);
                if current == desired {
                    (WheelModeStage::Finished, WheelModeAction::Finish(Ok(current)))
                } else {
                    (WheelModeStage::Writing { desired }, WheelModeAction::WriteMode(desired))
                }
            },
            Err(e) => (WheelModeStage::Finished, WheelModeAction::Finish(Err(e))),
        },
        (WheelModeStage::Writing { desired }, WheelModeEvent::Wrote(result)) => match result {
            Ok(written) => if written == desired {
                (WheelModeStage::ReadingBack { desired }, WheelModeAction::ReadMode)
            } else {
                (WheelModeStage::Finished, WheelModeAction::Finish(Err(write_mismatch())))
            },
            Err(e) => (WheelModeStage::Finished, WheelModeAction::Finish(Err(e))),
        },
        (WheelModeStage::ReadingBack { desired }, WheelModeEvent::ModeRead(result)) => match result {
            Ok(read_back) => if read_back == desired {
                (WheelModeStage::Finished, WheelModeAction::Finish(Ok(read_back)))
            } else {
                (WheelModeStage::Finished, WheelModeAction::Finish(Err(write_mismatch())))
            },
            Err(e) => (WheelModeStage::Finished, WheelModeAction::Finish(Err(e))),
        },
        _ => (c.stage, WheelModeAction::Connect),
    }
}

impl WheelModeChange {
    /// A change of the wheel mode on the device at `index`; its first action
    /// is to connect.
    pub fn new(index: u8, resolution: Option<ScrollResolution>, inverted: Option<bool>, require_invert_support: bool)
        -> (r: (Self, WheelModeAction))
        ensures
            r.0 == (WheelModeChange { index, resolution, inverted, require_invert_support, stage: WheelModeStage::Connecting }),
            r.1 is Connect,
    {
        (WheelModeChange { index, resolution, inverted, require_invert_support, stage: WheelModeStage::Connecting }, WheelModeAction::Connect)
    }

    /// Whether the change waits for `event`.
    pub fn expects(&self, event: &WheelModeEvent) -> (b: bool)
        ensures
            b == wheel_change_expects(self.stage, *event),
    {
        match (self.stage, event) {
            (WheelModeStage::Connecting, WheelModeEvent::Connected(_)) => true,
            (WheelModeStage::Opening, WheelModeEvent::Opened(_)) => true,
            (WheelModeStage::ReadingCapabilities, WheelModeEvent::Capabilities(_)) => true,
            (WheelModeStage::ReadingMode, WheelModeEvent::ModeRead(_)) => true,
            (WheelModeStage::Writing { .. }, WheelModeEvent::Wrote(_)) => true,
            (WheelModeStage::ReadingBack { .. }, WheelModeEvent::ModeRead(_)) => true,
            _ => false,
        }
    }

    /// The next stage and action, given the outcome of the last action.
    pub fn step(self, event: WheelModeEvent) -> (r: (Self, WheelModeAction))
        requires
            wheel_change_expects(self.stage, event),
        ensures
            r.0 == (WheelModeChange { stage: r.0.stage, ..self }),
            (r.0.stage, r.1) == spec_wheel_change_step(self, event),
    {
        let (stage, action) = match (self.stage, event) {
            (WheelModeStage::Connecting, WheelModeEvent::Connected(ok)) => if ok {
                (WheelModeStage::Opening, WheelModeAction::OpenFeature)
            } else {
                (WheelModeStage::Finished, WheelModeAction::Finish(Err(WriteError::DeviceUnreachable { index: self.index })))
            },
            (WheelModeStage::Opening, WheelModeEvent::Opened(result)) => match result {
                Ok(()) => if self.require_invert_support {
                    (WheelModeStage::ReadingCapabilities, WheelModeAction::ReadCapabilities)
                } else {
                    (WheelModeStage::ReadingMode, WheelModeAction::ReadMode)
                },
                Err(e) => (WheelModeStage::Finished, WheelModeAction::Finish(Err(e))),
            },
            (WheelModeStage::ReadingCapabilities, WheelModeEvent::Capabilities(result)) => match result {
                Ok(has_invert) => match check_invert_support(true, has_invert) {
                    Ok(()) => (WheelModeStage::ReadingMode, WheelModeAction::ReadMode),
                    Err(e) => (WheelModeStage::Finished, WheelModeAction::Finish(Err(e))),
                },
                Err(e) => (WheelModeStage::Finished, WheelModeAction::Finish(Err(e))),
            },
            (WheelModeStage::ReadingMode, WheelModeEvent::ModeRead(result)) => match result {
                Ok(current) => {
                    let desired = desired_mode(current, self.resolution, self.inverted);
                    if current == desired {
                        (WheelModeStage::Finished, WheelModeAction::Finish(Ok(current)))
                    } else {
                        (WheelModeStage::Writing { desired }, WheelModeAction::WriteMode(desired))
                    }
                },
                Err(e) => (WheelModeStage::Finished, WheelModeAction::Finish(Err(e))),
            },
            (WheelModeStage::Writing { desired }, WheelModeEvent::Wrote(result)) => match result {
                Ok(written) => match validate_applied(written, desired) {
                    Ok(()) => (WheelModeStage::ReadingBack { desired }, WheelModeAction::ReadMode),
                    Err(e) => (WheelModeStage::Finished, WheelModeAction::Finish(Err(e))),
                },
                Err(e) => (WheelModeStage::Finished, WheelModeAction::Finish(Err(e))),
            },
            (WheelModeStage::ReadingBack { desired }, WheelModeEvent::ModeRead(result)) => match result {
                Ok(read_back) => match validate_applied(read_back, desired) {
                    Ok(()) => (WheelModeStage::Finished, WheelModeAction::Finish(Ok(read_back))),
                    Err(e) => (WheelModeStage::Finished, WheelModeAction::Finish(Err(e))),
                },
                Err(e) => (WheelModeStage::Finished, WheelModeAction::Finish(Err(e))),
            },
            (stage, _) => (stage, WheelModeAction::Connect),
        };
        (WheelModeChange { stage, ..self }, action)
    }
}

/// A successful wheel-mode change ends in exactly the mode the request asks
/// for on top of the mode it found, and writes at most once.
pub proof fn lemma_wheel_change_ends_in_desired(c: WheelModeChange, event: WheelModeEvent)
    requires
        wheel_change_expects(c.stage, event),
    ensures
        ({
            let (next, action) = spec_wheel_change_step(c, event);
            &&& (action matches WheelModeAction::Finish(Ok(m)) ==> match c.stage {
                    WheelModeStage::ReadingMode => event matches WheelModeEvent::ModeRead(Ok(current))
                        && m == current && spec_desired_mode(current, c.resolution, c.inverted) == current,
                    WheelModeStage::ReadingBack { desired } => m == desired,
                    _ => false,
                })
            &&& (action is WriteMode ==> c.stage is ReadingMode)
            &&& (c.stage is ReadingMode ==> !(next is ReadingMode))
            &&& (next matches WheelModeStage::ReadingBack { desired } ==> c.stage == (WheelModeStage::Writing { desired }))
        }),
{
}

} // verus!
