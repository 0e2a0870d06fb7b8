//! Keyboard Fn-lock writes: fn inversion through `0x40a3` (multi-host, per
//! Easy-Switch slot) with the single-host `0x40a2` as fallback.
//!
//! "Fn-lock on" means the F-row sends plain F1–F12 without holding Fn.

use vstd::prelude::*;

use crate::hid::error::{HidppOperation, WriteError};

verus! {

/// HID++ feature ID of fn inversion for multi-host devices.
pub const MULTI_HOST_FEATURE_ID: u16 = 0x40a3;

/// HID++ feature ID of fn inversion with default state.
pub const SINGLE_HOST_FEATURE_ID: u16 = 0x40a2;

/// Which fn-inversion feature a keyboard exposes.
#[derive(Debug, Clone, Copy, PartialEq, Eq, Structural)]
pub enum FnInversionFeature {
    /// `0x40a3`, written for the host the keyboard is talking to now.
    MultiHost,
    /// `0x40a2`.
    SingleHost,
}

/// The HID++ ID of a fn-inversion feature.
pub open spec fn spec_fn_feature_id(f: FnInversionFeature) -> u16 {
    match f {
        FnInversionFeature::MultiHost => MULTI_HOST_FEATURE_ID,
        FnInversionFeature::SingleHost => SINGLE_HOST_FEATURE_ID,
    }
}

impl FnInversionFeature {
    /// The feature's HID++ ID.
    pub fn feature_hex(self) -> (id: u16)
        ensures
            id == spec_fn_feature_id(self),
    {
        match self {
            FnInversionFeature::MultiHost => MULTI_HOST_FEATURE_ID,
            FnInversionFeature::SingleHost => SINGLE_HOST_FEATURE_ID,
        }
    }
}

/// Whether an error says the multi-host feature is missing.
pub open spec fn spec_is_missing_multi_host(err: WriteError) -> bool {
    err matches WriteError::FeatureUnsupported { feature_hex } && feature_hex == MULTI_HOST_FEATURE_ID
}

/// Whether a failure to open `0x40a3` calls for the `0x40a2` fallback: only
/// a missing `0x40a3` does.
pub fn is_missing_multi_host(err: &WriteError) -> (b: bool)
    ensures
        b == spec_is_missing_multi_host(*err),
{
    match err {
        WriteError::FeatureUnsupported { feature_hex } => *feature_hex == MULTI_HOST_FEATURE_ID,
        _ => false,
    }
}

/// The next piece of device work an Fn-lock write asks for.
#[derive(Debug)]
pub enum FnLockAction {
    /// Open the HID++ device at the write's index.
    Connect,
    /// Look up and open this fn-inversion feature.
    Open(FnInversionFeature),
    /// Write the inversion state through the open feature.
    Write(FnInversionFeature),
    /// The write is over, with this result.
    Finish(Result<(), WriteError>),
}

/// The outcome of the device work last asked for.
#[derive(Debug)]
pub enum FnLockEvent {
    /// Whether the HID++ device answered.
    Connected(bool),
    /// The result of opening the requested feature.
    Opened(Result<(), WriteError>),
    /// The result of the write: the raw HID++ failure is classified here.
    Written(Result<(), crate::write::error::HidppErrorParts>),
}

/// Where an Fn-lock write stands.
#[derive(Debug, Clone, Copy, PartialEq, Eq, Structural)]
pub enum FnLockStage {
    /// Waiting for the device to answer.
    Connecting,
    /// Opening this feature.
    Opening(FnInversionFeature),
    /// Writing through this feature.
    Writing(FnInversionFeature),
    /// Done.
    Finished,
}

/// Whether a write in `stage` waits for `event`.
pub open spec fn fn_lock_expects(stage: FnLockStage, event: FnLockEvent) -> bool {
    match stage {
        FnLockStage::Connecting => event is Connected,
        FnLockStage::Opening(_) => event is Opened,
        FnLockStage::Writing(_) => event is Written,
        FnLockStage::Finished => false,
    }
}

/// An Fn-lock write to the device at `index`: open `0x40a3`, falling back to
/// `0x40a2` only when `0x40a3` is missing, then write the state.
#[derive(Debug, Clone, Copy)]
pub struct FnLockWrite {
    /// HID++ device index.
    pub index: u8,
    /// Where the write stands.
    pub stage: FnLockStage,
}

impl FnLockWrite {
    /// A write to the device at `index`; its first action is to connect.
    pub fn new(index: u8) -> (r: (Self, FnLockAction))
        ensures
            r.0 == (FnLockWrite { index, stage: FnLockStage::Connecting }),
            r.1 is Connect,
    {
        (FnLockWrite { index, stage: FnLockStage::Connecting }, FnLockAction::Connect)
    }

    /// The next stage and action, given the outcome of the last action.
    pub fn step(self, event: FnLockEvent) -> (r: (Self, FnLockAction))
        requires
            fn_lock_expects(self.stage, event),
        ensures
            r.0.index == self.index,
            match (self.stage, event) {
                (FnLockStage::Connecting, FnLockEvent::Connected(ok)) => if ok {
                    r.0.stage == FnLockStage::Opening(FnInversionFeature::MultiHost)
                        && r.1 == FnLockAction::Open(FnInversionFeature::MultiHost)
                } else {
                    r.0.stage is Finished && r.1 == FnLockAction::Finish(Err(WriteError::DeviceUnreachable { index: self.index }))
                },
                (FnLockStage::Opening(feature), FnLockEvent::Opened(result)) => match result {
                    Ok(()) => r.0.stage == FnLockStage::Writing(feature) && r.1 == FnLockAction::Write(feature),
                    Err(e) => if feature == FnInversionFeature::MultiHost && spec_is_missing_multi_host(e) {
                        r.0.stage == FnLockStage::Opening(FnInversionFeature::SingleHost)
                            && r.1 == FnLockAction::Open(FnInversionFeature::SingleHost)
                    } else {
                        r.0.stage is Finished && r.1 == FnLockAction::Finish(Err(e))
                    },
                },
                (FnLockStage::Writing(feature), FnLockEvent::Written(result)) => r.0.stage is Finished && match result {
                    Ok(()) => r.1 == FnLockAction::Finish(Ok(())),
                    Err(parts) => r.1 matches FnLockAction::Finish(Err(e))
                        && crate::write::error::classifies(parts, HidppOperation::WriteFnLock, spec_fn_feature_id(feature), e),
                },
                _ => true,
            },
    {
        let index = self.index;
        let (stage, action) = match (self.stage, event) {
            (FnLockStage::Connecting, FnLockEvent::Connected(ok)) => if ok {
                (FnLockStage::Opening(FnInversionFeature::MultiHost), FnLockAction::Open(FnInversionFeature::MultiHost))
            } else {
                (FnLockStage::Finished, FnLockAction::Finish(Err(WriteError::DeviceUnreachable { index })))
            },
            (FnLockStage::Opening(feature), FnLockEvent::Opened(result)) => match result {
                Ok(()) => (FnLockStage::Writing(feature), FnLockAction::Write(feature)),
                Err(e) => if feature == FnInversionFeature::MultiHost && is_missing_multi_host(&e) {
                    (FnLockStage::Opening(FnInversionFeature::SingleHost), FnLockAction::Open(FnInversionFeature::SingleHost))
                } else {
                    (FnLockStage::Finished, FnLockAction::Finish(Err(e)))
                },
            },
            (FnLockStage::Writing(feature), FnLockEvent::Written(result)) => match result {
                Ok(()) => (FnLockStage::Finished, FnLockAction::Finish(Ok(()))),
                Err(parts) => (
                    FnLockStage::Finished,
                    FnLockAction::Finish(Err(crate::write::error::classify_hidpp_error(parts, HidppOperation::WriteFnLock, feature.feature_hex()))),
                ),
            },
            (stage, _) => (stage, FnLockAction::Connect),
        };
        (FnLockWrite { index, stage }, action)
    }
}

} // verus!
