//! HID++ `SmartShift Enhanced` (feature `0x2111`): wheel ratchet and
//! free-spin modes, and the speed threshold past which a ratchet releases.
//!
//! Mode bytes: `1` = free-spin, `2` = ratchet. Auto-disengage bytes:
//! `0x01`–`0xFE` = the wheel speed (in 0.25 turn/s steps) past which a
//! ratchet-mode wheel releases into free-spin; `0xFF` keeps the ratchet
//! engaged permanently; `0` is the write-only "preserve" sentinel.

use vstd::prelude::*;

use crate::config::settings::{SmartShift, WheelMode};

verus! {

/// SmartShift mode values understood by the firmware.
#[derive(Debug, Clone, Copy, PartialEq, Eq, Structural)]
pub enum SmartShiftMode {
    /// Wheel is in free-spin mode (wire byte `1`).
    Free,
    /// Wheel is in ratchet mode (wire byte `2`).
    Ratchet,
}

/// The opposite mode.
pub open spec fn spec_flipped(mode: SmartShiftMode) -> SmartShiftMode {
    match mode {
        SmartShiftMode::Free => SmartShiftMode::Ratchet,
        SmartShiftMode::Ratchet => SmartShiftMode::Free,
    }
}

/// The wire byte of a mode.
pub open spec fn mode_byte(mode: SmartShiftMode) -> u8 {
    match mode {
        SmartShiftMode::Free => 1,
        SmartShiftMode::Ratchet => 2,
    }
}

/// A wire byte that names no mode.
#[derive(Debug, Clone, Copy, PartialEq, Eq, Structural)]
pub struct UnknownSmartShiftMode(pub u8);

impl SmartShiftMode {
    /// The opposite mode, used when toggling between free-spin and ratchet.
    pub fn flipped(self) -> (m: Self)
        ensures
            m == spec_flipped(self),
    {
        match self {
            SmartShiftMode::Free => SmartShiftMode::Ratchet,
            SmartShiftMode::Ratchet => SmartShiftMode::Free,
        }
    }

    /// The mode's wire byte.
    pub fn to_byte(self) -> (b: u8)
        ensures
            b == mode_byte(self),
    {
        match self {
            SmartShiftMode::Free => 1,
            SmartShiftMode::Ratchet => 2,
        }
    }

    /// The mode a wire byte names; reserved bytes name none.
    pub fn from_byte(b: u8) -> (r: Result<Self, UnknownSmartShiftMode>)
        ensures
            r matches Ok(m) ==> mode_byte(m) == b,
            r is Err <==> !(b == 1 || b == 2),
            r matches Err(e) ==> e.0 == b,
    {
        if b == 1 {
            Ok(SmartShiftMode::Free)
        } else if b == 2 {
            Ok(SmartShiftMode::Ratchet)
        } else {
            Err(UnknownSmartShiftMode(b))
        }
    }

    /// The firmware mode of a persisted wheel mode.
    pub fn from_wheel_mode(mode: WheelMode) -> (m: Self)
        ensures
            m == (match mode { WheelMode::Free => SmartShiftMode::Free, WheelMode::Ratchet => SmartShiftMode::Ratchet }),
    {
        match mode {
            WheelMode::Free => SmartShiftMode::Free,
            WheelMode::Ratchet => SmartShiftMode::Ratchet,
        }
    }

    /// The persisted wheel mode of a firmware mode.
    pub fn to_wheel_mode(self) -> (m: WheelMode)
        ensures
            m == (match self { SmartShiftMode::Free => WheelMode::Free, SmartShiftMode::Ratchet => WheelMode::Ratchet }),
    {
        match self {
            SmartShiftMode::Free => WheelMode::Free,
            SmartShiftMode::Ratchet => WheelMode::Ratchet,
        }
    }
}

/// Flipping a mode twice gives it back, and flipping always changes it.
pub proof fn lemma_flipped_involution(mode: SmartShiftMode)
    ensures
        spec_flipped(spec_flipped(mode)) == mode,
        spec_flipped(mode) != mode,
{
}

/// Why a byte is not a SmartShift threshold.
#[derive(Debug, Clone, Copy, PartialEq, Eq, Structural)]
pub enum SmartShiftThresholdError {
    /// The byte is below 1.
    GreaterOrEqualViolated,
    /// The byte is above 254.
    LessOrEqualViolated,
}

/// A SmartShift auto-disengage speed threshold in firmware units of
/// 0.25 turn/s: `1..=254`. Zero is the write-only "preserve" sentinel and
/// `0xFF` means permanent ratchet, so neither can be a threshold.
#[derive(Debug, Clone, Copy, PartialEq, Eq, PartialOrd, Ord)]
pub struct SmartShiftThreshold(u8);

/// The outcome of validating a threshold byte.
pub open spec fn threshold_check(value: u8) -> Option<SmartShiftThresholdError> {
    if value < 1 {
        Some(SmartShiftThresholdError::GreaterOrEqualViolated)
    } else if value > 254 {
        Some(SmartShiftThresholdError::LessOrEqualViolated)
    } else {
        None
    }
}

impl SmartShiftThreshold {
    /// The threshold lies in `1..=254`.
    #[verifier::type_invariant]
    closed spec fn inv(self) -> bool {
        1 <= self.0 <= 254
    }

    /// The threshold byte.
    pub closed spec fn value(self) -> u8 {
        self.0
    }

    /// A threshold's byte lies in `1..=254`.
    pub fn is_valid(&self) -> (b: bool)
        ensures
            b,
            1 <= self.value() <= 254,
    {
        proof { use_type_invariant(self); }
        true
    }

    /// Validate a threshold byte.
    pub fn try_new(value: u8) -> (r: Result<Self, SmartShiftThresholdError>)
        ensures
            threshold_check(value) matches Some(e) ==> r == Err::<Self, SmartShiftThresholdError>(e),
            threshold_check(value) is None ==> (r matches Ok(t) && t.value() == value),
    {
        if value < 1 {
            Err(SmartShiftThresholdError::GreaterOrEqualViolated)
        } else if value > 254 {
            Err(SmartShiftThresholdError::LessOrEqualViolated)
        } else {
            Ok(SmartShiftThreshold(value))
        }
    }

    /// The threshold byte.
    pub fn into_inner(self) -> (v: u8)
        ensures
            v == self.value(),
            1 <= v <= 254,
    {
        proof { use_type_invariant(&self); }
        self.0
    }
}

/// Two thresholds with the same byte are the same threshold.
pub proof fn lemma_threshold_value_injective(a: SmartShiftThreshold, b: SmartShiftThreshold)
    requires
        a.value() == b.value(),
    ensures
        a == b,
{
}

/// SmartShift's auto-disengage behavior.
#[derive(Debug, Clone, Copy, PartialEq, Eq)]
pub enum SmartShiftAutoDisengage {
    /// Auto-release the ratchet when wheel speed crosses this threshold.
    Threshold(SmartShiftThreshold),
    /// Keep the ratchet engaged regardless of wheel speed.
    Permanent,
}

/// The HID++ byte of an auto-disengage setting.
pub open spec fn auto_disengage_byte(a: SmartShiftAutoDisengage) -> u8 {
    match a {
        SmartShiftAutoDisengage::Threshold(t) => t.value(),
        SmartShiftAutoDisengage::Permanent => 255,
    }
}

impl SmartShiftAutoDisengage {
    /// Whether this setting keeps the ratchet permanently engaged.
    pub fn is_permanent(self) -> (b: bool)
        ensures
            b == (self is Permanent),
    {
        match self {
            SmartShiftAutoDisengage::Permanent => true,
            SmartShiftAutoDisengage::Threshold(_) => false,
        }
    }

    /// The speed threshold, or `None` for permanent ratchet.
    pub fn threshold(self) -> (t: Option<SmartShiftThreshold>)
        ensures
            t == (match self {
                SmartShiftAutoDisengage::Threshold(x) => Some(x),
                SmartShiftAutoDisengage::Permanent => None::<SmartShiftThreshold>,
            }),
    {
        match self {
            SmartShiftAutoDisengage::Threshold(threshold) => Some(threshold),
            SmartShiftAutoDisengage::Permanent => None,
        }
    }

    /// The setting a HID++ byte encodes: `255` is permanent ratchet,
    /// `1..=254` a threshold, and `0` nothing.
    pub fn from_byte(value: u8) -> (r: Result<Self, SmartShiftThresholdError>)
        ensures
            value == 255 ==> r == Ok::<Self, SmartShiftThresholdError>(SmartShiftAutoDisengage::Permanent),
            value == 0 ==> r == Err::<Self, SmartShiftThresholdError>(SmartShiftThresholdError::GreaterOrEqualViolated),
            1 <= value <= 254 ==> (r matches Ok(a) && auto_disengage_byte(a) == value && a is Threshold),
    {
        if value == 255 {
            Ok(SmartShiftAutoDisengage::Permanent)
        } else {
            match SmartShiftThreshold::try_new(value) {
                Ok(t) => Ok(SmartShiftAutoDisengage::Threshold(t)),
                Err(e) => Err(e),
            }
        }
    }

    /// The HID++ byte of this setting.
    pub fn to_byte(self) -> (b: u8)
        ensures
            b == auto_disengage_byte(self),
            b != 0,
            self is Threshold ==> 1 <= b <= 254,
    {
        match self {
            SmartShiftAutoDisengage::Threshold(threshold) => threshold.into_inner(),
            SmartShiftAutoDisengage::Permanent => 255,
        }
    }
}

/// The setting a HID++ byte encodes, if any.
pub closed spec fn spec_auto_disengage_from_byte(value: u8) -> Result<SmartShiftAutoDisengage, SmartShiftThresholdError> {
    if value == 255 {
        Ok(SmartShiftAutoDisengage::Permanent)
    } else if value == 0 {
        Err(SmartShiftThresholdError::GreaterOrEqualViolated)
    } else {
        Ok(SmartShiftAutoDisengage::Threshold(SmartShiftThreshold(value)))
    }
}

impl TryFrom<u8> for SmartShiftAutoDisengage {
    type Error = SmartShiftThresholdError;

    fn try_from(value: u8) -> (r: Result<Self, Self::Error>) {
        Self::from_byte(value)
    }
}

impl vstd::std_specs::convert::TryFromSpecImpl<u8> for SmartShiftAutoDisengage {
    open spec fn obeys_try_from_spec() -> bool {
        true
    }

    open spec fn try_from_spec(v: u8) -> Result<Self, SmartShiftThresholdError> {
        spec_auto_disengage_from_byte(v)
    }
}

/// Every non-zero byte is the byte of exactly one auto-disengage setting:
/// decoding a setting's byte gives the setting back.
pub proof fn lemma_auto_disengage_byte_injective(a: SmartShiftAutoDisengage, b: SmartShiftAutoDisengage)
    requires
        auto_disengage_byte(a) == auto_disengage_byte(b),
        a is Threshold ==> 1 <= auto_disengage_byte(a) <= 254,
        b is Threshold ==> 1 <= auto_disengage_byte(b) <= 254,
    ensures
        a == b,
{
    match (a, b) {
        (SmartShiftAutoDisengage::Threshold(x), SmartShiftAutoDisengage::Threshold(y)) => {
            lemma_threshold_value_injective(x, y);
        },
        _ => {},
    }
}

/// A non-zero tunable-torque level reported by SmartShift Enhanced.
#[derive(Debug, Clone, Copy, PartialEq, Eq, PartialOrd, Ord)]
pub struct TunableTorque(u8);

/// Why a byte is not a tunable-torque level.
#[derive(Debug, Clone, Copy, PartialEq, Eq, Structural)]
pub enum TunableTorqueError {
    /// The byte is zero.
    GreaterOrEqualViolated,
}

impl TunableTorque {
    /// The level is non-zero.
    #[verifier::type_invariant]
    closed spec fn inv(self) -> bool {
        self.0 >= 1
    }

    /// The level byte.
    pub closed spec fn value(self) -> u8 {
        self.0
    }

    /// Validate a level byte.
    pub fn try_new(value: u8) -> (r: Result<Self, TunableTorqueError>)
        ensures
            value == 0 <==> r is Err,
            r matches Ok(t) ==> t.value() == value,
    {
        if value == 0 {
            Err(TunableTorqueError::GreaterOrEqualViolated)
        } else {
            Ok(TunableTorque(value))
        }
    }

    /// The level byte.
    pub fn into_inner(self) -> (v: u8)
        ensures
            v == self.value(),
            v >= 1,
    {
        proof { use_type_invariant(&self); }
        self.0
    }

    /// The level a byte read from the device stands for: `0` means the
    /// device has no tunable torque.
    pub fn from_wire(value: u8) -> (t: Option<Self>)
        ensures
            value == 0 <==> t is None,
            t matches Some(x) ==> x.value() == value,
    {
        if value == 0 { None } else { Some(TunableTorque(value)) }
    }

    /// The byte sent for an optional level: `0` when there is none.
    pub fn to_wire(torque: Option<Self>) -> (b: u8)
        ensures
            b == (match torque { Some(x) => x.value(), None => 0u8 }),
    {
        match torque {
            Some(t) => t.into_inner(),
            None => 0,
        }
    }
}

/// Two levels with the same byte are the same level.
pub proof fn lemma_torque_value_injective(a: TunableTorque, b: TunableTorque)
    requires
        a.value() == b.value(),
    ensures
        a == b,
{
}

/// Snapshot returned from the SmartShift read helpers.
#[derive(Debug, Clone, Copy, PartialEq, Eq)]
pub struct SmartShiftStatus {
    /// Current wheel mode.
    pub mode: SmartShiftMode,
    /// SmartShift speed threshold or permanent-ratchet behavior.
    pub auto_disengage: SmartShiftAutoDisengage,
    /// Tunable-torque level, or `None` when the device doesn't support it.
    pub tunable_torque: Option<TunableTorque>,
}

impl SmartShiftStatus {
    /// The status a persisted SmartShift configuration describes.
    pub fn from_config(config: SmartShift) -> (s: Self)
        ensures
            s.mode == (match config.mode { WheelMode::Free => SmartShiftMode::Free, WheelMode::Ratchet => SmartShiftMode::Ratchet }),
            s.auto_disengage == config.auto_disengage,
            s.tunable_torque == config.tunable_torque,
    {
        SmartShiftStatus {
            mode: SmartShiftMode::from_wheel_mode(config.mode),
            auto_disengage: config.auto_disengage,
            tunable_torque: config.tunable_torque,
        }
    }

    /// The persisted configuration of this status.
    pub fn to_config(self) -> (c: SmartShift)
        ensures
            c.mode == (match self.mode { SmartShiftMode::Free => WheelMode::Free, SmartShiftMode::Ratchet => WheelMode::Ratchet }),
            c.auto_disengage == self.auto_disengage,
            c.tunable_torque == self.tunable_torque,
    {
        SmartShift {
            mode: self.mode.to_wheel_mode(),
            auto_disengage: self.auto_disengage,
            tunable_torque: self.tunable_torque,
        }
    }
}

} // verus!
