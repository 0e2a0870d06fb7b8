//! HID++ `Thumbwheel` (feature `0x2150`): the wheel's capabilities, the
//! reporting-mode requests that divert it, and the decoding of its
//! `thumbwheelEvent` notifications.

use vstd::prelude::*;

use hidpp::protocol::v20::Message;

verus! {

#[verifier::external_type_specification]
#[verifier::external_body]
pub struct ExV20Message(Message);

/// `Thumbwheel` HID++ feature ID.
pub const FEATURE_ID: u16 = 0x2150;
/// `getThumbwheelInfo` function ID.
pub const FN_GET_INFO: u8 = 0;
/// `setThumbwheelReporting` function ID.
pub const FN_SET_REPORTING: u8 = 2;
/// Reporting-mode value: native HID scroll.
pub const MODE_NATIVE: u8 = 0;
/// Reporting-mode value: diverted to HID++ events.
pub const MODE_DIVERTED: u8 = 1;
/// `c_single_tap` capability bit in `getThumbwheelInfo` byte 5.
pub const CAP_SINGLE_TAP: u8 = 0x08;
/// `single_tap` bit in `thumbwheelEvent` byte 5.
pub const EV_SINGLE_TAP: u8 = 0x08;
/// `proxy` bit in `thumbwheelEvent` byte 5.
pub const EV_PROXY: u8 = 0x04;
/// `touch` bit in `thumbwheelEvent` byte 5.
pub const EV_TOUCH: u8 = 0x02;

/// Where a `thumbwheelEvent` sits in the life cycle of one roll. Every
/// report from `Start` through `Stop` belongs to a roll; only `Inactive`
/// means the wheel is at rest.
#[derive(Debug, Clone, Copy, PartialEq, Eq, Structural)]
pub enum RotationStatus {
    /// No rotation: the wheel is at rest.
    Inactive,
    /// The first rotation report of a roll.
    Start,
    /// A subsequent rotation report.
    Active,
    /// The roll ended: released, no touch.
    Stop,
}

/// The status a `thumbwheelEvent` byte 4 reports; values outside the four
/// defined ones read as `Inactive`.
pub open spec fn spec_rotation_status(byte: u8) -> RotationStatus {
    if byte == 1 {
        RotationStatus::Start
    } else if byte == 2 {
        RotationStatus::Active
    } else if byte == 3 {
        RotationStatus::Stop
    } else {
        RotationStatus::Inactive
    }
}

impl RotationStatus {
    /// Decode `thumbwheelEvent` byte 4.
    pub fn from_byte(byte: u8) -> (s: Self)
        ensures
            s == spec_rotation_status(byte),
    {
        if byte == 1 {
            RotationStatus::Start
        } else if byte == 2 {
            RotationStatus::Active
        } else if byte == 3 {
            RotationStatus::Stop
        } else {
            RotationStatus::Inactive
        }
    }

    /// Whether this report belongs to a roll, including its `Stop`.
    pub fn is_rolling(self) -> (b: bool)
        ensures
            b == (self != RotationStatus::Inactive),
    {
        match self {
            RotationStatus::Inactive => false,
            _ => true,
        }
    }
}

/// What one revolution of the wheel measures in each reporting mode.
#[derive(Debug, Clone, Copy, PartialEq, Eq, Structural)]
pub struct WheelResolution {
    /// Ratchets per revolution in native (HID) mode.
    pub native_res: u16,
    /// Rotation increments per revolution in diverted (HID++) mode.
    pub diverted_res: u16,
}

impl WheelResolution {
    /// Resolutions a wheel did not report.
    pub fn unknown() -> (r: Self)
        ensures
            r.native_res == 0 && r.diverted_res == 0,
    {
        WheelResolution { native_res: 0, diverted_res: 0 }
    }
}

/// Characteristics and capabilities returned by `getThumbwheelInfo`.
#[derive(Debug, Clone, Copy, PartialEq, Eq, Structural)]
pub struct ThumbwheelInfo {
    /// What one revolution measures in each reporting mode.
    pub resolution: WheelResolution,
    /// Original positive rotation direction: `0` = toward the left/back,
    /// `1` = toward the right/front.
    pub default_dir: u8,
    /// Whether the wheel reports a single-tap gesture.
    pub supports_single_tap: bool,
}

impl ThumbwheelInfo {
    /// Whether an un-inverted positive rotation is toward the front of the
    /// device.
    pub fn positive_is_forward(self) -> (b: bool)
        ensures
            b == (self.default_dir == 1),
    {
        self.default_dir == 1
    }
}

/// A big-endian 16-bit value.
pub open spec fn be_u16(hi: u8, lo: u8) -> u16 {
    (hi as int * 256 + lo as int) as u16
}

/// A big-endian 16-bit two's-complement value.
pub open spec fn be_i16(hi: u8, lo: u8) -> i16 {
    let v = hi as int * 256 + lo as int;
    (if v >= 32768 { v - 65536 } else { v }) as i16
}

/// The capabilities a `getThumbwheelInfo` response payload reports.
pub open spec fn spec_info(p: Seq<u8>) -> ThumbwheelInfo {
    ThumbwheelInfo {
        resolution: WheelResolution { native_res: be_u16(p[0], p[1]), diverted_res: be_u16(p[2], p[3]) },
        default_dir: p[4] & 1,
        supports_single_tap: p[5] & CAP_SINGLE_TAP != 0,
    }
}

/// Read a `getThumbwheelInfo` response payload.
pub fn info_from_payload(p: [u8; 16]) -> (info: ThumbwheelInfo)
    ensures
        info == spec_info(p@),
{
    ThumbwheelInfo {
        resolution: WheelResolution {
            native_res: p[0] as u16 * 256 + p[1] as u16,
            diverted_res: p[2] as u16 * 256 + p[3] as u16,
        },
        default_dir: p[4] & 0x01,
        supports_single_tap: p[5] & CAP_SINGLE_TAP != 0,
    }
}

/// Rotation sign for diverted wheel reports, relative to `default_dir`.
#[derive(Clone, Copy, Debug, PartialEq, Eq, Structural)]
pub enum WheelDirection {
    /// Report rotation with the wheel's default sign.
    Default,
    /// Invert the rotation sign.
    Inverted,
}

/// The `setThumbwheelReporting` parameters that divert the wheel with
/// `direction`: the diverted mode, then the inversion flag, then zeros.
pub fn divert_params(direction: WheelDirection) -> (p: [u8; 16])
    ensures
        p@ == seq![MODE_DIVERTED, if direction == WheelDirection::Inverted { 1u8 } else { 0u8 }]
            + Seq::new(14, |_i: int| 0u8),
{
    let mut params: [u8; 16] = [0; 16];
    params[0] = MODE_DIVERTED;
    params[1] = if direction == WheelDirection::Inverted { 1 } else { 0 };
    assert(params@ =~= seq![MODE_DIVERTED, if direction == WheelDirection::Inverted { 1u8 } else { 0u8 }]
        + Seq::new(14, |_i: int| 0u8));
    params
}

/// The `setThumbwheelReporting` parameters that hand scrolling back to the
/// firmware: the native mode, then zeros.
pub fn undivert_params() -> (p: [u8; 16])
    ensures
        p@ == seq![MODE_NATIVE] + Seq::new(15, |_i: int| 0u8),
{
    let params: [u8; 16] = [0; 16];
    assert(params@ =~= seq![MODE_NATIVE] + Seq::new(15, |_i: int| 0u8));
    params
}

/// A decoded `thumbwheelEvent`.
#[derive(Debug, Clone, Copy, PartialEq, Eq, Structural)]
pub struct ThumbwheelEvent {
    /// Relative wheel rotation since the last report, in `diverted_res`
    /// increments.
    pub rotation: i16,
    /// Where this report sits in the life cycle of a roll.
    pub rotation_status: RotationStatus,
    /// A single-tap gesture fired with this report.
    pub single_tap: bool,
    /// The user is touching the wheel.
    pub touch: bool,
    /// The user is in proximity of the wheel.
    pub proxy: bool,
}

/// The header fields of a HID++ 2.0 message: device index, feature index,
/// function ID and software ID.
#[derive(Clone, Copy, Debug, PartialEq, Eq, Structural)]
pub struct HeaderFields {
    /// Device index.
    pub device_index: u8,
    /// Feature index.
    pub feature_index: u8,
    /// Function ID (a nibble).
    pub function_id: u8,
    /// Software ID (a nibble); zero for unsolicited notifications.
    pub software_id: u8,
}

/// The event a message with `header` and payload `p` carries for
/// `(device_index, feature_index)`: only the unsolicited function-0
/// notification of that device and feature is one.
pub open spec fn spec_decode_event(header: HeaderFields, p: Seq<u8>, device_index: u8, feature_index: u8) -> Option<ThumbwheelEvent> {
    if header.device_index != device_index || header.feature_index != feature_index
        || header.software_id != 0 || header.function_id != 0 {
        None
    } else {
        Some(ThumbwheelEvent {
            rotation: be_i16(p[0], p[1]),
            rotation_status: spec_rotation_status(p[4]),
            single_tap: p[5] & EV_SINGLE_TAP != 0,
            touch: p[5] & EV_TOUCH != 0,
            proxy: p[5] & EV_PROXY != 0,
        })
    }
}

/// A `thumbwheelEvent` is recognised exactly when the header is the
/// unsolicited function-0 notification of the given device and feature, and
/// then each field is read from its place in the payload: the rotation is
/// the signed big-endian value of bytes 0 and 1, the status is byte 4
/// (1 start, 2 active, 3 stop, anything else inactive), and `single_tap`,
/// `proxy` and `touch` are bits 3, 2 and 1 of byte 5.
pub proof fn lemma_event_fields(header: HeaderFields, p: Seq<u8>, device_index: u8, feature_index: u8)
    requires
        p.len() == 16,
    ensures
        spec_decode_event(header, p, device_index, feature_index) is Some <==> header == (HeaderFields {
            device_index,
            feature_index,
            function_id: 0,
            software_id: 0,
        }),
        spec_decode_event(header, p, device_index, feature_index) matches Some(e) ==> {
            &&& e.single_tap == ((p[5] >> 3u8) & 1 == 1)
            &&& e.proxy == ((p[5] >> 2u8) & 1 == 1)
            &&& e.touch == ((p[5] >> 1u8) & 1 == 1)
            &&& e.rotation as int == (if p[0] < 128 { p[0] * 256 + p[1] } else { p[0] * 256 + p[1] - 65536 })
            &&& (p[4] == 1 ==> e.rotation_status == RotationStatus::Start)
            &&& (p[4] == 2 ==> e.rotation_status == RotationStatus::Active)
            &&& (p[4] == 3 ==> e.rotation_status == RotationStatus::Stop)
            &&& (p[4] != 1 && p[4] != 2 && p[4] != 3 ==> e.rotation_status == RotationStatus::Inactive)
        },
{
    let b = p[5];
    assert((b & 0x08 != 0) == ((b >> 3u8) & 1 == 1)) by (bit_vector);
    assert((b & 0x04 != 0) == ((b >> 2u8) & 1 == 1)) by (bit_vector);
    assert((b & 0x02 != 0) == ((b >> 1u8) & 1 == 1)) by (bit_vector);
}

/// Decode a message's header and 16-byte payload into a thumb-wheel event
/// when it is the unsolicited `thumbwheelEvent` (function 0, software ID 0)
/// for `(device_index, feature_index)`; responses and foreign messages give
/// `None`.
pub fn decode_event(header: HeaderFields, p: [u8; 16], device_index: u8, feature_index: u8) -> (e: Option<ThumbwheelEvent>)
    ensures
        e == spec_decode_event(header, p@, device_index, feature_index),
{
    if header.device_index != device_index || header.feature_index != feature_index
        || header.software_id != 0 || header.function_id != 0 {
        return None;
    }
    let raw: u16 = p[0] as u16 * 256 + p[1] as u16;
    let rotation: i16 = if raw >= 32768 { (raw as i32 - 65536) as i16 } else { raw as i16 };
    Some(ThumbwheelEvent {
        rotation,
        rotation_status: RotationStatus::from_byte(p[4]),
        single_tap: p[5] & EV_SINGLE_TAP != 0,
        touch: p[5] & EV_TOUCH != 0,
        proxy: p[5] & EV_PROXY != 0,
    })
}

/// The header fields of a HID++ 2.0 message.
///
/// Reads `hidpp::protocol::v20::Message::header`, taking each nibble's low
/// bits; a nibble is below 16. Which header the message holds is not
/// stated: the message is opaque to the library.
#[verifier::external_body]
fn message_header(msg: &Message) -> (h: HeaderFields)
    ensures
        h.function_id < 16,
        h.software_id < 16,
{
    let header = msg.header();
    HeaderFields {
        device_index: header.device_index,
        feature_index: header.feature_index,
        function_id: header.function_id.to_lo(),
        software_id: header.software_id.to_lo(),
    }
}

/// The payload of a HID++ 2.0 message, zero-padded to 16 bytes.
///
/// Reads `hidpp::protocol::v20::Message::extend_payload`. Which payload the
/// message holds is not stated: the message is opaque to the library.
#[verifier::external_body]
fn message_payload(msg: &Message) -> (p: [u8; 16]) {
    msg.extend_payload()
}

/// Decode a `hidpp` channel message by [`decode_event`], over the header
/// and payload read out of it. The message is opaque to the library, so
/// which header and payload it holds is not stated: the result is the
/// decoding of some header (with nibble-sized function and software IDs)
/// and some 16-byte payload.
pub fn decode_message(msg: &Message, device_index: u8, feature_index: u8) -> (e: Option<ThumbwheelEvent>)
    ensures
        exists|h: HeaderFields, p: Seq<u8>| h.function_id < 16 && h.software_id < 16 && p.len() == 16
            && e == spec_decode_event(h, p, device_index, feature_index),
{
    let header = message_header(msg);
    let payload = message_payload(msg);
    let e = decode_event(header, payload, device_index, feature_index);
    assert(header.function_id < 16 && header.software_id < 16 && payload@.len() == 16
        && e == spec_decode_event(header, payload@, device_index, feature_index));
    e
}

} // verus!
