//! SmartShift reads and writes: which feature to open, how a read-back is
//! decoded, when a write can be skipped, and when a failed transaction is
//! worth one more attempt.
//!
//! Devices expose either `0x2111` (SmartShift Enhanced, MX Master 3 / 3S) or
//! `0x2110` (SmartShift, MX Master 2S). Opening tries `0x2111` twice before
//! falling back, because a concurrent open of the same node can mis-deliver
//! the feature lookup and make a present `0x2111` look absent.

use vstd::prelude::*;


use crate::hid::error::{HidppFeatureErrorKind, HidppOperation, WriteError};
use crate::hid::smartshift::{
    auto_disengage_byte, lemma_auto_disengage_byte_injective, SmartShiftAutoDisengage,
    SmartShiftMode, SmartShiftStatus, TunableTorque,
};

verus! {

/// HID++ feature ID of SmartShift Enhanced.
pub const ENHANCED_FEATURE_ID: u16 = 0x2111;

/// HID++ feature ID of the original SmartShift.
pub const LEGACY_FEATURE_ID: u16 = 0x2110;

/// Pause, in milliseconds, before retrying a SmartShift transaction that lost
/// a race with concurrent HID++ traffic.
pub const TRANSIENT_RETRY_DELAY_MS: u64 = 50;

/// Whether an error says that SmartShift Enhanced is missing.
pub open spec fn spec_is_missing_enhanced(err: WriteError) -> bool {
    err matches WriteError::FeatureUnsupported { feature_hex } && feature_hex == ENHANCED_FEATURE_ID
}

/// Whether an error has been seen to clear on a second, identical attempt.
pub open spec fn spec_is_transient(err: WriteError) -> bool {
    ||| err matches WriteError::HidppFeature { kind, .. } && (kind == HidppFeatureErrorKind::InvalidArgument
        || kind == HidppFeatureErrorKind::Busy || kind == HidppFeatureErrorKind::HwError)
    ||| err is UnsupportedResponse
}

/// Whether a failure to open `0x2111` calls for the `0x2110` fallback: only a
/// missing `0x2111` does; transport and protocol errors are never masked.
pub fn is_missing_enhanced(err: &WriteError) -> (b: bool)
    ensures
        b == spec_is_missing_enhanced(*err),
{
    match err {
        WriteError::FeatureUnsupported { feature_hex } => *feature_hex == ENHANCED_FEATURE_ID,
        _ => false,
    }
}

/// Whether a SmartShift failure is worth one more identical attempt: the
/// invalid-argument, busy and hardware feature errors, and unsupported
/// responses. Permanent failures are not.
pub fn is_transient_smartshift_error(err: &WriteError) -> (b: bool)
    ensures
        b == spec_is_transient(*err),
{
    match err {
        WriteError::HidppFeature { kind, .. } => match kind {
            HidppFeatureErrorKind::InvalidArgument => true,
            HidppFeatureErrorKind::Busy => true,
            HidppFeatureErrorKind::HwError => true,
            _ => false,
        },
        WriteError::UnsupportedResponse { .. } => true,
        _ => false,
    }
}

/// Whether `current` already satisfies `desired`: same mode, same
/// auto-disengage, and, where `desired` names a tunable torque, the same one.
/// An absent desired torque means the device does not support it.
pub open spec fn spec_status_matches(current: SmartShiftStatus, desired: SmartShiftStatus) -> bool {
    &&& current.mode == desired.mode
    &&& current.auto_disengage == desired.auto_disengage
    &&& (desired.tunable_torque matches Some(t) ==> current.tunable_torque == Some(t))
}

/// Whether `current` already satisfies a desired SmartShift write.
pub fn status_matches_desired(current: SmartShiftStatus, desired: SmartShiftStatus) -> (b: bool)
    ensures
        b == spec_status_matches(current, desired),
{
    let same_mode = current.mode == desired.mode;
    let a = current.auto_disengage.to_byte();
    let d = desired.auto_disengage.to_byte();
    proof {
        if a == d {
            lemma_auto_disengage_byte_injective(current.auto_disengage, desired.auto_disengage);
        }
    }
    let same_disengage = a == d;
    let torque_ok = match desired.tunable_torque {
        None => true,
        Some(t) => match current.tunable_torque {
            None => false,
            Some(c) => {
                let cv = c.into_inner();
                let tv = t.into_inner();
                proof {
                    if cv == tv {
                        crate::hid::smartshift::lemma_torque_value_injective(c, t);
                    }
                }
                cv == tv
            },
        },
    };
    same_mode && same_disengage && torque_ok
}

/// The auto-disengage setting a read-back byte encodes; a byte that encodes
/// none is an unsupported `ReadSmartShift` response from `feature_hex`.
pub fn decode_auto_disengage(value: u8, feature_hex: u16) -> (r: Result<SmartShiftAutoDisengage, WriteError>)
    ensures
        value == 0 ==> r == Err::<SmartShiftAutoDisengage, WriteError>(WriteError::UnsupportedResponse {
            operation: HidppOperation::ReadSmartShift,
            feature_hex,
        }),
        value != 0 ==> (r matches Ok(a) && auto_disengage_byte(a) == value),
{
    match SmartShiftAutoDisengage::from_byte(value) {
        Ok(a) => Ok(a),
        Err(_) => Err(WriteError::UnsupportedResponse { operation: HidppOperation::ReadSmartShift, feature_hex }),
    }
}

/// The SmartShift mode of a wheel-mode byte read back from the device:
/// free-spin (`1`) is free, and any other mode is the ratchet default.
pub fn wheel_mode_to_smartshift(wheel: u8) -> (m: SmartShiftMode)
    ensures
        m == wheel_mode_to_smartshift_spec(wheel),
{
    if wheel == 1 {
        SmartShiftMode::Free
    } else {
        SmartShiftMode::Ratchet
    }
}

/// The wheel-mode byte written for a SmartShift mode; the inverse of
/// [`wheel_mode_to_smartshift`].
pub fn smartshift_to_wheel(mode: SmartShiftMode) -> (w: u8)
    ensures
        w == crate::hid::smartshift::mode_byte(mode),
        wheel_mode_to_smartshift_spec(w) == mode,
{
    mode.to_byte()
}

/// The SmartShift mode of a wheel-mode byte.
pub open spec fn wheel_mode_to_smartshift_spec(wheel: u8) -> SmartShiftMode {
    if wheel == 1 { SmartShiftMode::Free } else { SmartShiftMode::Ratchet }
}

/// Which SmartShift feature a device exposes.
#[derive(Debug, Clone, Copy, PartialEq, Eq, Structural)]
pub enum SmartShiftFeature {
    /// `0x2111 SmartShiftWheelEnhanced`, which also reports tunable torque.
    Enhanced,
    /// `0x2110 SmartShiftWheel`.
    Legacy,
}

/// The HID++ feature ID of a SmartShift feature.
pub open spec fn spec_feature_id(feature: SmartShiftFeature) -> u16 {
    match feature {
        SmartShiftFeature::Enhanced => ENHANCED_FEATURE_ID,
        SmartShiftFeature::Legacy => LEGACY_FEATURE_ID,
    }
}

impl SmartShiftFeature {
    /// The feature's HID++ ID.
    pub fn feature_hex(self) -> (id: u16)
        ensures
            id == spec_feature_id(self),
    {
        match self {
            SmartShiftFeature::Enhanced => ENHANCED_FEATURE_ID,
            SmartShiftFeature::Legacy => LEGACY_FEATURE_ID,
        }
    }
}

/// The status a SmartShift read-back describes, from its wire bytes: the
/// wheel-mode byte, the auto-disengage byte, and (Enhanced only) the tunable
/// torque byte, where `0` means the device has none. A bad auto-disengage
/// byte is an unsupported response from the feature that was read.
pub fn status_from_wire(feature: SmartShiftFeature, wheel: u8, auto_disengage: u8, torque: u8) -> (r: Result<SmartShiftStatus, WriteError>)
    ensures
        auto_disengage == 0 ==> r == Err::<SmartShiftStatus, WriteError>(WriteError::UnsupportedResponse {
            operation: HidppOperation::ReadSmartShift,
            feature_hex: spec_feature_id(feature),
        }),
        auto_disengage != 0 ==> (r matches Ok(s) && s.mode == wheel_mode_to_smartshift_spec(wheel) && auto_disengage_byte(s.auto_disengage) == auto_disengage
            && (match feature {
                SmartShiftFeature::Legacy => s.tunable_torque is None,
                SmartShiftFeature::Enhanced => (torque == 0 <==> s.tunable_torque is None)
                    && (s.tunable_torque matches Some(t) ==> t.value() == torque),
            })),
{
    let auto_disengage = match decode_auto_disengage(auto_disengage, feature.feature_hex()) {
        Ok(a) => a,
        Err(e) => return Err(e),
    };
    let tunable_torque = match feature {
        SmartShiftFeature::Enhanced => TunableTorque::from_wire(torque),
        SmartShiftFeature::Legacy => None,
    };
    Ok(SmartShiftStatus { mode: wheel_mode_to_smartshift(wheel), auto_disengage, tunable_torque })
}

/// The bytes a SmartShift status write sends: wheel mode, auto-disengage,
/// and the tunable torque, where `0` asks the device to keep its own (the
/// `0x2110` write has no torque, so it always sends `0` there).
pub fn status_write_bytes(feature: SmartShiftFeature, status: SmartShiftStatus) -> (b: (u8, u8, u8))
    ensures
        b.0 == crate::hid::smartshift::mode_byte(status.mode),
        b.1 == auto_disengage_byte(status.auto_disengage),
        b.1 != 0,
        b.2 == (match (feature, status.tunable_torque) {
            (SmartShiftFeature::Enhanced, Some(t)) => t.value(),
            _ => 0u8,
        }),
{
    let torque = match feature {
        SmartShiftFeature::Enhanced => TunableTorque::to_wire(status.tunable_torque),
        SmartShiftFeature::Legacy => 0,
    };
    (status.mode.to_byte(), status.auto_disengage.to_byte(), torque)
}

/// The status that sets a new auto-disengage `value` and keeps the rest of
/// `current`.
pub fn sensitivity_status(current: SmartShiftStatus, value: SmartShiftAutoDisengage) -> (s: SmartShiftStatus)
    ensures
        s == (SmartShiftStatus { auto_disengage: value, ..current }),
{
    SmartShiftStatus { auto_disengage: value, ..current }
}

/// The status a toggle writes: the opposite mode, the rest kept.
pub fn toggled_status(current: SmartShiftStatus) -> (s: SmartShiftStatus)
    ensures
        s == (SmartShiftStatus { mode: crate::hid::smartshift::spec_flipped(current.mode), ..current }),
{
    SmartShiftStatus { mode: current.mode.flipped(), ..current }
}

/// Which attempt of the SmartShift open sequence comes next: `0x2111`, then
/// `0x2111` once more, then `0x2110`.
#[derive(Debug, Clone, Copy, PartialEq, Eq, Structural)]
pub enum OpenProbe {
    /// First attempt at SmartShift Enhanced.
    Enhanced,
    /// Second attempt at SmartShift Enhanced, after it looked missing.
    EnhancedAgain,
    /// The original SmartShift, after Enhanced looked missing twice.
    Legacy,
}

/// The feature an open attempt asks for.
pub open spec fn spec_probe_feature(probe: OpenProbe) -> SmartShiftFeature {
    match probe {
        OpenProbe::Legacy => SmartShiftFeature::Legacy,
        _ => SmartShiftFeature::Enhanced,
    }
}

impl OpenProbe {
    /// The feature this attempt asks for.
    pub fn feature(self) -> (f: SmartShiftFeature)
        ensures
            f == spec_probe_feature(self),
    {
        match self {
            OpenProbe::Legacy => SmartShiftFeature::Legacy,
            _ => SmartShiftFeature::Enhanced,
        }
    }
}

/// What follows one open attempt.
#[derive(Debug)]
pub enum OpenStep {
    /// Try this attempt next.
    Probe(OpenProbe),
    /// The device exposes this feature, now open.
    Opened(SmartShiftFeature),
    /// Opening failed with this error.
    Failed(WriteError),
}

/// What follows an open attempt with this result: success opens the feature
/// that was asked for; a missing `0x2111` leads to the next attempt while
/// one is left; any other error, or a missing `0x2110`, fails the open.
pub open spec fn spec_after_probe(probe: OpenProbe, result: Result<(), WriteError>) -> OpenStep {
    match result {
        Ok(()) => OpenStep::Opened(spec_probe_feature(probe)),
        Err(e) => if spec_is_missing_enhanced(e) {
            match probe {
                OpenProbe::Enhanced => OpenStep::Probe(OpenProbe::EnhancedAgain),
                OpenProbe::EnhancedAgain => OpenStep::Probe(OpenProbe::Legacy),
                OpenProbe::Legacy => OpenStep::Failed(e),
            }
        } else {
            OpenStep::Failed(e)
        },
    }
}

/// What follows an open attempt with this result.
pub fn after_open_probe(probe: OpenProbe, result: Result<(), WriteError>) -> (s: OpenStep)
    ensures
        s == spec_after_probe(probe, result),
{
    match result {
        Ok(()) => OpenStep::Opened(probe.feature()),
        Err(e) => if is_missing_enhanced(&e) {
            match probe {
                OpenProbe::Enhanced => OpenStep::Probe(OpenProbe::EnhancedAgain),
                OpenProbe::EnhancedAgain => OpenStep::Probe(OpenProbe::Legacy),
                OpenProbe::Legacy => OpenStep::Failed(e),
            }
        } else {
            OpenStep::Failed(e)
        },
    }
}

/// The next piece of device work a SmartShift transaction asks for.
#[derive(Debug)]
pub enum SmartShiftAction<T> {
    /// Open the HID++ device at the transaction's index.
    Connect,
    /// Look up and open this SmartShift feature.
    Open(SmartShiftFeature),
    /// Read the current status through the open feature.
    ReadStatus,
    /// Write this status through the open feature.
    WriteStatus(SmartShiftStatus),
    /// Wait the transient-retry delay.
    Pause,
    /// The transaction is over, with this result.
    Finish(Result<T, WriteError>),
}

/// The outcome of the device work last asked for.
#[derive(Debug)]
pub enum SmartShiftEvent {
    /// Whether the HID++ device answered.
    Connected(bool),
    /// The result of opening the requested feature.
    Opened(Result<(), WriteError>),
    /// The result of a status read.
    StatusRead(Result<SmartShiftStatus, WriteError>),
    /// The result of a status write.
    Wrote(Result<(), WriteError>),
    /// The retry delay has passed.
    Paused,
}

/// Where a SmartShift write stands.
#[derive(Debug, Clone, Copy, PartialEq, Eq, Structural)]
pub enum ApplyStage {
    /// Waiting for the device to answer.
    Connecting,
    /// Opening the feature; `retry` once the transient retry has begun.
    Opening { probe: OpenProbe, retry: bool },
    /// Reading the current status, to skip a needless write.
    Reading,
    /// Writing the desired status; `retry` on the second attempt.
    Writing { retry: bool },
    /// Waiting before the one retry.
    Pausing,
    /// Done.
    Finished,
}

/// A SmartShift write of `desired` to the device at `index`, as a state
/// machine: each step takes the outcome of the last device work and names
/// the next. The write is skipped when the device already matches, and is
/// tried once more, on a freshly opened feature, after a transient error.
#[derive(Debug, Clone, Copy)]
pub struct SmartShiftApply {
    /// HID++ device index.
    pub index: u8,
    /// The status to write.
    pub desired: SmartShiftStatus,
    /// Where the write stands.
    pub stage: ApplyStage,
}

/// Whether a write in `stage` waits for `event`.
pub open spec fn apply_expects(stage: ApplyStage, event: SmartShiftEvent) -> bool {
    match stage {
        ApplyStage::Connecting => event is Connected,
        ApplyStage::Opening { .. } => event is Opened,
        ApplyStage::Reading => event is StatusRead,
        ApplyStage::Writing { .. } => event is Wrote,
        ApplyStage::Pausing => event is Paused,
        ApplyStage::Finished => false,
    }
}

/// The stage and action that follow a failed attempt: a transient error
/// before the retry leads to the pause; anything else ends the transaction.
pub open spec fn spec_fail<S, T>(retry: bool, err: WriteError, pausing: S, finished: S) -> (S, SmartShiftAction<T>) {
    if !retry && spec_is_transient(err) {
        (pausing, SmartShiftAction::Pause)
    } else {
        (finished, SmartShiftAction::Finish(Err(err)))
    }
}

/// One step of a SmartShift write.
pub open spec fn spec_apply_step(index: u8, desired: SmartShiftStatus, stage: ApplyStage, event: SmartShiftEvent) -> (ApplyStage, SmartShiftAction<()>) {
    match (stage, event) {
        (ApplyStage::Connecting, SmartShiftEvent::Connected(ok)) => if ok {
            (ApplyStage::Opening { probe: OpenProbe::Enhanced, retry: false }, SmartShiftAction::Open(SmartShiftFeature::Enhanced))
        } else {
            (ApplyStage::Finished, SmartShiftAction::Finish(Err(WriteError::DeviceUnreachable { index })))
        },
        (ApplyStage::Opening { probe, retry }, SmartShiftEvent::Opened(result)) => match spec_after_probe(probe, result) {
            OpenStep::Probe(next) => (ApplyStage::Opening { probe: next, retry }, SmartShiftAction::Open(spec_probe_feature(next))),
            OpenStep::Opened(_) => if retry {
                (ApplyStage::Writing { retry: true }, SmartShiftAction::WriteStatus(desired))
            } else {
                (ApplyStage::Reading, SmartShiftAction::ReadStatus)
            },
            OpenStep::Failed(e) => (ApplyStage::Finished, SmartShiftAction::Finish(Err(e))),
        },
        (ApplyStage::Reading, SmartShiftEvent::StatusRead(result)) => match result {
            Ok(current) => if spec_status_matches(current, desired) {
                (ApplyStage::Finished, SmartShiftAction::Finish(Ok(())))
            } else {
                (ApplyStage::Writing { retry: false }, SmartShiftAction::WriteStatus(desired))
            },
            Err(_) => (ApplyStage::Writing { retry: false }, SmartShiftAction::WriteStatus(desired)),
        },
        (ApplyStage::Writing { retry }, SmartShiftEvent::Wrote(result)) => match result {
            Ok(()) => (ApplyStage::Finished, SmartShiftAction::Finish(Ok(()))),
            Err(e) => spec_fail(retry, e, ApplyStage::Pausing, ApplyStage::Finished),
        },
        (ApplyStage::Pausing, SmartShiftEvent::Paused) =>
            (ApplyStage::Opening { probe: OpenProbe::Enhanced, retry: true }, SmartShiftAction::Open(SmartShiftFeature::Enhanced)),
        _ => (stage, SmartShiftAction::Pause),
    }
}

impl SmartShiftApply {
    /// A write of `desired` to the device at `index`; its first action is to
    /// connect.
    pub fn new(index: u8, desired: SmartShiftStatus) -> (r: (Self, SmartShiftAction<()>))
        ensures
            r.0 == (SmartShiftApply { index, desired, stage: ApplyStage::Connecting }),
            r.1 is Connect,
    {
        (SmartShiftApply { index, desired, stage: ApplyStage::Connecting }, SmartShiftAction::Connect)
    }

    /// Whether the write waits for `event`.
    pub fn expects(&self, event: &SmartShiftEvent) -> (b: bool)
        ensures
            b == apply_expects(self.stage, *event),
    {
        match (self.stage, event) {
            (ApplyStage::Connecting, SmartShiftEvent::Connected(_)) => true,
            (ApplyStage::Opening { .. }, SmartShiftEvent::Opened(_)) => true,
            (ApplyStage::Reading, SmartShiftEvent::StatusRead(_)) => true,
            (ApplyStage::Writing { .. }, SmartShiftEvent::Wrote(_)) => true,
            (ApplyStage::Pausing, SmartShiftEvent::Paused) => true,
            _ => false,
        }
    }

    /// The next stage and action, given the outcome of the last action.
    pub fn step(self, event: SmartShiftEvent) -> (r: (Self, SmartShiftAction<()>))
        requires
            apply_expects(self.stage, event),
        ensures
            r.0.index == self.index,
            r.0.desired == self.desired,
            (r.0.stage, r.1) == spec_apply_step(self.index, self.desired, self.stage, event),
    {
        let index = self.index;
        let desired = self.desired;
        let (stage, action) = match (self.stage, event) {
            (ApplyStage::Connecting, SmartShiftEvent::Connected(ok)) => if ok {
                (ApplyStage::Opening { probe: OpenProbe::Enhanced, retry: false }, SmartShiftAction::Open(SmartShiftFeature::Enhanced))
            } else {
                (ApplyStage::Finished, SmartShiftAction::Finish(Err(WriteError::DeviceUnreachable { index })))
            },
            (ApplyStage::Opening { probe, retry }, SmartShiftEvent::Opened(result)) => match after_open_probe(probe, result) {
                OpenStep::Probe(next) => (ApplyStage::Opening { probe: next, retry }, SmartShiftAction::Open(next.feature())),
                OpenStep::Opened(_) => if retry {
                    (ApplyStage::Writing { retry: true }, SmartShiftAction::WriteStatus(desired))
                } else {
                    (ApplyStage::Reading, SmartShiftAction::ReadStatus)
                },
                OpenStep::Failed(e) => (ApplyStage::Finished, SmartShiftAction::Finish(Err(e))),
            },
            (ApplyStage::Reading, SmartShiftEvent::StatusRead(result)) => match result {
                Ok(current) => if status_matches_desired(current, desired) {
                    (ApplyStage::Finished, SmartShiftAction::Finish(Ok(())))
                } else {
                    (ApplyStage::Writing { retry: false }, SmartShiftAction::WriteStatus(desired))
                },
                Err(_) => (ApplyStage::Writing { retry: false }, SmartShiftAction::WriteStatus(desired)),
            },
            (ApplyStage::Writing { retry }, SmartShiftEvent::Wrote(result)) => match result {
                Ok(()) => (ApplyStage::Finished, SmartShiftAction::Finish(Ok(()))),
                Err(e) => if !retry && is_transient_smartshift_error(&e) {
                    (ApplyStage::Pausing, SmartShiftAction::Pause)
                } else {
                    (ApplyStage::Finished, SmartShiftAction::Finish(Err(e)))
                },
            },
            (ApplyStage::Pausing, SmartShiftEvent::Paused) =>
                (ApplyStage::Opening { probe: OpenProbe::Enhanced, retry: true }, SmartShiftAction::Open(SmartShiftFeature::Enhanced)),
            (stage, _) => (stage, SmartShiftAction::Pause),
        };
        (SmartShiftApply { index, desired, stage }, action)
    }
}

/// How far a write is from its end; every expected event lowers it.
pub open spec fn apply_rank(stage: ApplyStage) -> int {
    match stage {
        ApplyStage::Connecting => 20,
        ApplyStage::Opening { probe, retry } => (if retry { 6int } else { 16int }) - probe_index(probe),
        ApplyStage::Reading => 12,
        ApplyStage::Writing { retry } => if retry { 2 } else { 10 },
        ApplyStage::Pausing => 8,
        ApplyStage::Finished => 0,
    }
}

/// The position of an open attempt in the sequence.
pub open spec fn probe_index(probe: OpenProbe) -> int {
    match probe {
        OpenProbe::Enhanced => 0,
        OpenProbe::EnhancedAgain => 1,
        OpenProbe::Legacy => 2,
    }
}

/// A SmartShift write always ends: every event it waits for moves it
/// strictly closer to `Finished`, the only stage that waits for nothing, and
/// it finishes exactly when its action is `Finish`.
pub proof fn lemma_apply_terminates(index: u8, desired: SmartShiftStatus, stage: ApplyStage, event: SmartShiftEvent)
    requires
        apply_expects(stage, event),
    ensures
        0 <= apply_rank(spec_apply_step(index, desired, stage, event).0) < apply_rank(stage),
        (spec_apply_step(index, desired, stage, event).0 is Finished) <==> (spec_apply_step(index, desired, stage, event).1 is Finish),
{
}

/// A SmartShift write only ever writes the desired status, never writes when
/// the device already holds it, and pauses for a retry at most once: no
/// stage after the pause leads to another pause.
pub proof fn lemma_apply_writes(index: u8, desired: SmartShiftStatus, stage: ApplyStage, event: SmartShiftEvent)
    requires
        apply_expects(stage, event),
    ensures
        spec_apply_step(index, desired, stage, event).1 matches SmartShiftAction::WriteStatus(s) ==> s == desired,
        (event matches SmartShiftEvent::StatusRead(Ok(current)) && spec_status_matches(current, desired))
            ==> spec_apply_step(index, desired, stage, event).1 == SmartShiftAction::<()>::Finish(Ok(())),
        (stage matches ApplyStage::Opening { retry, .. } && retry) ==> !(spec_apply_step(index, desired, stage, event).1 is Pause),
        (stage matches ApplyStage::Writing { retry } && retry) ==> !(spec_apply_step(index, desired, stage, event).1 is Pause),
        (spec_apply_step(index, desired, stage, event).0 matches ApplyStage::Opening { retry, .. } && retry)
            ==> (stage is Pausing || stage matches ApplyStage::Opening { retry: true, .. }),
{
}

/// Where a SmartShift toggle stands.
#[derive(Debug, Clone, Copy, PartialEq, Eq, Structural)]
pub enum ToggleStage {
    /// Waiting for the device to answer.
    Connecting,
    /// Opening the feature; `retry` on the second attempt.
    Opening { probe: OpenProbe, retry: bool },
    /// Reading the current status; `retry` on the second attempt.
    Reading { retry: bool },
    /// Writing the status with mode `next`; `retry` on the second attempt.
    Writing { next: SmartShiftMode, retry: bool },
    /// Waiting before the one retry.
    Pausing,
    /// Done.
    Finished,
}

/// A SmartShift toggle on the device at `index`, as a state machine: open,
/// read the status, write it back with the opposite mode, and report the mode
/// written. A transient error in any of the three starts the whole toggle
/// over once, after a pause.
#[derive(Debug, Clone, Copy)]
pub struct SmartShiftToggle {
    /// HID++ device index.
    pub index: u8,
    /// Where the toggle stands.
    pub stage: ToggleStage,
}

/// Whether a toggle in `stage` waits for `event`.
pub open spec fn toggle_expects(stage: ToggleStage, event: SmartShiftEvent) -> bool {
    match stage {
        ToggleStage::Connecting => event is Connected,
        ToggleStage::Opening { .. } => event is Opened,
        ToggleStage::Reading { .. } => event is StatusRead,
        ToggleStage::Writing { .. } => event is Wrote,
        ToggleStage::Pausing => event is Paused,
        ToggleStage::Finished => false,
    }
}

/// One step of a SmartShift toggle.
pub open spec fn spec_toggle_step(index: u8, stage: ToggleStage, event: SmartShiftEvent) -> (ToggleStage, SmartShiftAction<SmartShiftMode>) {
    match (stage, event) {
        (ToggleStage::Connecting, SmartShiftEvent::Connected(ok)) => if ok {
            (ToggleStage::Opening { probe: OpenProbe::Enhanced, retry: false }, SmartShiftAction::Open(SmartShiftFeature::Enhanced))
        } else {
            (ToggleStage::Finished, SmartShiftAction::Finish(Err(WriteError::DeviceUnreachable { index })))
        },
        (ToggleStage::Opening { probe, retry }, SmartShiftEvent::Opened(result)) => match spec_after_probe(probe, result) {
            OpenStep::Probe(next) => (ToggleStage::Opening { probe: next, retry }, SmartShiftAction::Open(spec_probe_feature(next))),
            OpenStep::Opened(_) => (ToggleStage::Reading { retry }, SmartShiftAction::ReadStatus),
            OpenStep::Failed(e) => spec_fail(retry, e, ToggleStage::Pausing, ToggleStage::Finished),
        },
        (ToggleStage::Reading { retry }, SmartShiftEvent::StatusRead(result)) => match result {
            Ok(current) => (
                ToggleStage::Writing { next: crate::hid::smartshift::spec_flipped(current.mode), retry },
                SmartShiftAction::WriteStatus(SmartShiftStatus { mode: crate::hid::smartshift::spec_flipped(current.mode), ..current }),
            ),
            Err(e) => spec_fail(retry, e, ToggleStage::Pausing, ToggleStage::Finished),
        },
        (ToggleStage::Writing { next, retry }, SmartShiftEvent::Wrote(result)) => match result {
            Ok(()) => (ToggleStage::Finished, SmartShiftAction::Finish(Ok(next))),
            Err(e) => spec_fail(retry, e, ToggleStage::Pausing, ToggleStage::Finished),
        },
        (ToggleStage::Pausing, SmartShiftEvent::Paused) =>
            (ToggleStage::Opening { probe: OpenProbe::Enhanced, retry: true }, SmartShiftAction::Open(SmartShiftFeature::Enhanced)),
        _ => (stage, SmartShiftAction::Pause),
    }
}

impl SmartShiftToggle {
    /// A toggle of the device at `index`; its first action is to connect.
    pub fn new(index: u8) -> (r: (Self, SmartShiftAction<SmartShiftMode>))
        ensures
            r.0 == (SmartShiftToggle { index, stage: ToggleStage::Connecting }),
            r.1 is Connect,
    {
        (SmartShiftToggle { index, stage: ToggleStage::Connecting }, SmartShiftAction::Connect)
    }

    /// Whether the toggle waits for `event`.
    pub fn expects(&self, event: &SmartShiftEvent) -> (b: bool)
        ensures
            b == toggle_expects(self.stage, *event),
    {
        match (self.stage, event) {
            (ToggleStage::Connecting, SmartShiftEvent::Connected(_)) => true,
            (ToggleStage::Opening { .. }, SmartShiftEvent::Opened(_)) => true,
            (ToggleStage::Reading { .. }, SmartShiftEvent::StatusRead(_)) => true,
            (ToggleStage::Writing { .. }, SmartShiftEvent::Wrote(_)) => true,
            (ToggleStage::Pausing, SmartShiftEvent::Paused) => true,
            _ => false,
        }
    }

    /// The next stage and action, given the outcome of the last action.
    pub fn step(self, event: SmartShiftEvent) -> (r: (Self, SmartShiftAction<SmartShiftMode>))
        requires
            toggle_expects(self.stage, event),
        ensures
            r.0.index == self.index,
            (r.0.stage, r.1) == spec_toggle_step(self.index, self.stage, event),
    {
        let index = self.index;
        let (stage, action) = match (self.stage, event) {
            (ToggleStage::Connecting, SmartShiftEvent::Connected(ok)) => if ok {
                (ToggleStage::Opening { probe: OpenProbe::Enhanced, retry: false }, SmartShiftAction::Open(SmartShiftFeature::Enhanced))
            } else {
                (ToggleStage::Finished, SmartShiftAction::Finish(Err(WriteError::DeviceUnreachable { index })))
            },
            (ToggleStage::Opening { probe, retry }, SmartShiftEvent::Opened(result)) => match after_open_probe(probe, result) {
                OpenStep::Probe(next) => (ToggleStage::Opening { probe: next, retry }, SmartShiftAction::Open(next.feature())),
                OpenStep::Opened(_) => (ToggleStage::Reading { retry }, SmartShiftAction::ReadStatus),
                OpenStep::Failed(e) => toggle_fail(retry, e),
            },
            (ToggleStage::Reading { retry }, SmartShiftEvent::StatusRead(result)) => match result {
                Ok(current) => {
                    let status = toggled_status(current);
                    (ToggleStage::Writing { next: status.mode, retry }, SmartShiftAction::WriteStatus(status))
                },
                Err(e) => toggle_fail(retry, e),
            },
            (ToggleStage::Writing { next, retry }, SmartShiftEvent::Wrote(result)) => match result {
                Ok(()) => (ToggleStage::Finished, SmartShiftAction::Finish(Ok(next))),
                Err(e) => toggle_fail(retry, e),
            },
            (ToggleStage::Pausing, SmartShiftEvent::Paused) =>
                (ToggleStage::Opening { probe: OpenProbe::Enhanced, retry: true }, SmartShiftAction::Open(SmartShiftFeature::Enhanced)),
            (stage, _) => (stage, SmartShiftAction::Pause),
        };
        (SmartShiftToggle { index, stage }, action)
    }
}

/// The stage and action after a failed toggle attempt.
fn toggle_fail(retry: bool, err: WriteError) -> (r: (ToggleStage, SmartShiftAction<SmartShiftMode>))
    ensures
        r == spec_fail::<ToggleStage, SmartShiftMode>(retry, err, ToggleStage::Pausing, ToggleStage::Finished),
{
    if !retry && is_transient_smartshift_error(&err) {
        (ToggleStage::Pausing, SmartShiftAction::Pause)
    } else {
        (ToggleStage::Finished, SmartShiftAction::Finish(Err(err)))
    }
}

/// How far a toggle is from its end; every expected event lowers it.
pub open spec fn toggle_rank(stage: ToggleStage) -> int {
    match stage {
        ToggleStage::Connecting => 30,
        ToggleStage::Opening { probe, retry } => (if retry { 18int } else { 28int }) - probe_index(probe),
        ToggleStage::Reading { retry } => if retry { 14 } else { 24 },
        ToggleStage::Writing { retry, .. } => if retry { 12 } else { 22 },
        ToggleStage::Pausing => 20,
        ToggleStage::Finished => 0,
    }
}

/// A SmartShift toggle always ends, and it finishes exactly when its action
/// is `Finish`.
pub proof fn lemma_toggle_terminates(index: u8, stage: ToggleStage, event: SmartShiftEvent)
    requires
        toggle_expects(stage, event),
    ensures
        0 <= toggle_rank(spec_toggle_step(index, stage, event).0) < toggle_rank(stage),
        (spec_toggle_step(index, stage, event).0 is Finished) <==> (spec_toggle_step(index, stage, event).1 is Finish),
{
}

/// A toggle writes back exactly the status it read with the mode flipped,
/// reports success only with the mode it wrote, and pauses for a retry at
/// most once.
pub proof fn lemma_toggle_flips(index: u8, stage: ToggleStage, event: SmartShiftEvent)
    requires
        toggle_expects(stage, event),
    ensures
        event matches SmartShiftEvent::StatusRead(Ok(current)) ==>
            spec_toggle_step(index, stage, event).1 == SmartShiftAction::<SmartShiftMode>::WriteStatus(
                SmartShiftStatus { mode: crate::hid::smartshift::spec_flipped(current.mode), ..current }),
        stage matches ToggleStage::Writing { next, .. } ==>
            (spec_toggle_step(index, stage, event).1 matches SmartShiftAction::Finish(Ok(m)) ==> m == next),
        (spec_toggle_step(index, stage, event).1 is Pause) ==> !(stage matches ToggleStage::Opening { retry: true, .. })
            && !(stage matches ToggleStage::Reading { retry: true }) && !(stage matches ToggleStage::Writing { retry: true, .. }),
{
}

} // verus!
