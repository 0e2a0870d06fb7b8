//! Classification of HID++ 2.0 feature-call failures into write errors.

use vstd::prelude::*;

use hidpp::protocol::v20::Hidpp20Error;

use crate::hid::error::{HidppFeatureErrorKind, HidppOperation, WriteError};

verus! {

#[verifier::external_type_specification]
#[verifier::external_body]
pub struct ExHidpp20Error(Hidpp20Error);

/// A HID++ 2.0 failure with its parts as plain values.
#[derive(Debug, Clone, PartialEq, Eq)]
pub enum HidppErrorParts {
    /// The feature answered with this error code.
    Feature(u8),
    /// The device's response is (partly) unsupported.
    UnsupportedResponse,
    /// Any other failure, as its debug text.
    Other(String),
}

/// The parts of a HID++ 2.0 failure.
///
/// Reads `hidpp::protocol::v20::Hidpp20Error`: a feature error becomes its
/// error code, an unsupported response stays itself, and a channel (or any
/// later) failure becomes its debug text. Nothing is stated of the result:
/// the error value is opaque to the library.
#[verifier::external_body]
fn hidpp_error_parts(error: Hidpp20Error) -> HidppErrorParts {
    match error {
        Hidpp20Error::Feature(kind) => HidppErrorParts::Feature(u8::from(kind)),
        Hidpp20Error::UnsupportedResponse => HidppErrorParts::UnsupportedResponse,
        Hidpp20Error::Channel(inner) => HidppErrorParts::Other(format!("{inner:?}")),
        other => HidppErrorParts::Other(format!("{other:?}")),
    }
}

/// The feature-error kind of a HID++ 2.0 error code.
pub open spec fn spec_feature_error_kind(code: u8) -> HidppFeatureErrorKind {
    if code == 0 { HidppFeatureErrorKind::NoError }
    else if code == 1 { HidppFeatureErrorKind::Unknown }
    else if code == 2 { HidppFeatureErrorKind::InvalidArgument }
    else if code == 3 { HidppFeatureErrorKind::OutOfRange }
    else if code == 4 { HidppFeatureErrorKind::HwError }
    else if code == 5 { HidppFeatureErrorKind::LogitechInternal }
    else if code == 6 { HidppFeatureErrorKind::InvalidFeatureIndex }
    else if code == 7 { HidppFeatureErrorKind::InvalidFunctionId }
    else if code == 8 { HidppFeatureErrorKind::Busy }
    else if code == 9 { HidppFeatureErrorKind::Unsupported }
    else { HidppFeatureErrorKind::Unrecognized }
}

/// The feature-error kind of a HID++ 2.0 error code; codes this library
/// does not know are `Unrecognized`.
pub fn hidpp_feature_error_kind(code: u8) -> (k: HidppFeatureErrorKind)
    ensures
        k == spec_feature_error_kind(code),
{
    if code == 0 { HidppFeatureErrorKind::NoError }
    else if code == 1 { HidppFeatureErrorKind::Unknown }
    else if code == 2 { HidppFeatureErrorKind::InvalidArgument }
    else if code == 3 { HidppFeatureErrorKind::OutOfRange }
    else if code == 4 { HidppFeatureErrorKind::HwError }
    else if code == 5 { HidppFeatureErrorKind::LogitechInternal }
    else if code == 6 { HidppFeatureErrorKind::InvalidFeatureIndex }
    else if code == 7 { HidppFeatureErrorKind::InvalidFunctionId }
    else if code == 8 { HidppFeatureErrorKind::Busy }
    else if code == 9 { HidppFeatureErrorKind::Unsupported }
    else { HidppFeatureErrorKind::Unrecognized }
}

/// Whether `e` is the write error for a failure `parts` of `operation` on
/// feature `feature_hex`: a feature error keeps its kind, an unsupported
/// response stays one, and anything else is carried as text.
pub open spec fn classifies(parts: HidppErrorParts, operation: HidppOperation, feature_hex: u16, e: WriteError) -> bool {
    match parts {
        HidppErrorParts::Feature(code) => e == WriteError::HidppFeature {
            operation,
            feature_hex,
            kind: spec_feature_error_kind(code),
        },
        HidppErrorParts::UnsupportedResponse => e == WriteError::UnsupportedResponse { operation, feature_hex },
        HidppErrorParts::Other(text) => e matches WriteError::Hidpp(m) && m@ == text@,
    }
}

/// The write error for a HID++ 2.0 failure `parts` of `operation` on
/// feature `feature_hex`: a feature error keeps its kind, an unsupported
/// response stays one, and anything else is carried as text.
pub fn classify_hidpp_error(parts: HidppErrorParts, operation: HidppOperation, feature_hex: u16) -> (e: WriteError)
    ensures
        classifies(parts, operation, feature_hex, e),
{
    match parts {
        HidppErrorParts::Feature(code) => WriteError::HidppFeature {
            operation,
            feature_hex,
            kind: hidpp_feature_error_kind(code),
        },
        HidppErrorParts::UnsupportedResponse => WriteError::UnsupportedResponse { operation, feature_hex },
        HidppErrorParts::Other(text) => WriteError::Hidpp(text),
    }
}

/// The write error for a `hidpp` failure of `operation` on feature
/// `feature_hex`: the error is read into its parts, then classified by
/// [`classify_hidpp_error`]. Which parts an opaque `Hidpp20Error` holds is
/// not stated, so the result is the classification of some parts.
pub fn classify_hidpp20_error(error: Hidpp20Error, operation: HidppOperation, feature_hex: u16) -> (e: WriteError)
    ensures
        exists|parts: HidppErrorParts| classifies(parts, operation, feature_hex, e),
{
    let parts = hidpp_error_parts(error);
    let ghost seen = parts;
    let e = classify_hidpp_error(parts, operation, feature_hex);
    assert(classifies(seen, operation, feature_hex, e));
    e
}

} // verus!
