use openlogi::hid::error::{HidppFeatureErrorKind, HidppOperation, WriteError};
use openlogi::write::error::{classify_hidpp_error, HidppErrorParts};

#[test]
fn hidpp_failures_keep_their_operation_feature_and_kind() {
    assert!(matches!(
        classify_hidpp_error(HidppErrorParts::Feature(8), HidppOperation::WriteSmartShift, 0x2111),
        WriteError::HidppFeature {
            operation: HidppOperation::WriteSmartShift,
            feature_hex: 0x2111,
            kind: HidppFeatureErrorKind::Busy,
        }
    ));
    assert!(matches!(
        classify_hidpp_error(HidppErrorParts::UnsupportedResponse, HidppOperation::ReadWheelMode, 0x2121),
        WriteError::UnsupportedResponse { operation: HidppOperation::ReadWheelMode, feature_hex: 0x2121 }
    ));
    assert!(matches!(
        classify_hidpp_error(HidppErrorParts::Other("timeout".into()), HidppOperation::Light, 0x1990),
        WriteError::Hidpp(ref m) if m == "timeout"
    ));
    assert!(matches!(
        classify_hidpp_error(HidppErrorParts::Feature(200), HidppOperation::Light, 0x1990),
        WriteError::HidppFeature { kind: HidppFeatureErrorKind::Unrecognized, .. }
    ));
}
