//! HID++ read/write error vocabulary — pure data.

use vstd::prelude::*;

verus! {

/// HID++ operation being performed when a device write/read failed.
///
/// Variant order is wire format because this travels inside [`WriteError`].
#[derive(Debug, Clone, Copy, PartialEq, Eq, Structural)]
pub enum HidppOperation {
    /// Resolve a feature ID to its runtime feature index.
    ResolveFeature,
    /// Enumerate the device feature table.
    DumpFeatures,
    /// Read current DPI.
    ReadDpi,
    /// Read DPI capabilities.
    ReadDpiCapabilities,
    /// Write DPI.
    WriteDpi,
    /// Read SmartShift status.
    ReadSmartShift,
    /// Write SmartShift status.
    WriteSmartShift,
    /// Write keyboard lighting.
    Lighting,
    /// Read HiResWheel capabilities or the current wheel mode.
    ReadWheelMode,
    /// Write and verify the native HiResWheel mode.
    WriteWheelMode,
    /// Read the keyboard backlight config or info.
    ReadBacklight,
    /// Write the keyboard backlight config.
    WriteBacklight,
    /// Write keyboard Fn-lock (fn inversion).
    WriteFnLock,
    /// Write a standalone-light command.
    Light,
    /// Play one haptic waveform.
    PlayHaptic,
}

/// HID++ feature error kind in a serializable wire-safe form.
#[derive(Debug, Clone, Copy, PartialEq, Eq, Structural)]
pub enum HidppFeatureErrorKind {
    /// HID++ `NoError` code.
    NoError,
    /// Unknown HID++ error.
    Unknown,
    /// Invalid argument.
    InvalidArgument,
    /// Argument out of range.
    OutOfRange,
    /// Hardware error.
    HwError,
    /// Logitech-internal firmware error.
    LogitechInternal,
    /// Invalid feature index.
    InvalidFeatureIndex,
    /// Invalid function ID.
    InvalidFunctionId,
    /// Device is busy.
    Busy,
    /// Operation is unsupported.
    Unsupported,
    /// Error code not otherwise modeled.
    Unrecognized,
}

/// Error returned by HID++ read/write operations.
///
/// The discriminating variant must survive the IPC boundary so a client can
/// tell a permanent failure (missing feature, empty DPI list) from a
/// transient one; variant order is therefore wire format.
#[derive(Debug, Clone)]
pub enum WriteError {
    /// HID transport error carried as text.
    Hid(String),
    /// No currently connected device matched the requested route.
    DeviceNotFound,
    /// The HID node opened, but the target HID++ device index did not answer.
    DeviceUnreachable {
        /// HID++ device index that failed to answer.
        index: u8,
    },
    /// Device does not expose the requested HID++ feature.
    FeatureUnsupported {
        /// HID++ feature ID that was not present.
        feature_hex: u16,
    },
    /// Device reported no valid DPI values.
    EmptyDpiList,
    /// Generic HID++ protocol error carried as text.
    Hidpp(String),
    /// HID++ feature error response.
    HidppFeature {
        /// Operation being performed.
        operation: HidppOperation,
        /// HID++ feature ID involved in the operation.
        feature_hex: u16,
        /// HID++ feature error kind.
        kind: HidppFeatureErrorKind,
    },
    /// Device returned a structurally unsupported response.
    UnsupportedResponse {
        /// Operation being performed.
        operation: HidppOperation,
        /// HID++ feature ID involved in the operation.
        feature_hex: u16,
    },
    /// HID++ request timed out.
    RequestTimedOut {
        /// Operation that timed out.
        operation: HidppOperation,
    },
    /// The async runtime could not be initialized for a sync caller.
    RuntimeInit {
        /// Runtime initialization error message.
        message: String,
    },
    /// Background agent write path is unavailable.
    AgentUnavailable,
    /// A standalone light value is outside the driver's supported range.
    InvalidLightValue {
        /// Semantic control name.
        control: String,
        /// Rejected value in the unit supplied by the caller.
        value: u16,
    },
    /// The selected light driver does not implement a requested control.
    LightUnsupported {
        /// Semantic control name.
        control: String,
    },
    /// Multiple raw HID nodes matched one physical route.
    AmbiguousRawDevice,
}

} // verus!
