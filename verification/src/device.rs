//! Device records shared by inventory, ordering and light drivers: the
//! receiver inventory a probe produces, and the capability ranges a
//! standalone light advertises.

use vstd::prelude::*;

verus! {

/// The native unit used by a standalone light control range.
#[derive(Debug, Clone, Copy, PartialEq, Eq, Hash, Structural)]
pub enum LightValueUnit {
    /// A percentage of the device's supported range.
    Percent,
    /// Absolute luminous output, where the protocol exposes lumens.
    Lumens,
    /// Colour temperature in Kelvin.
    Kelvin,
}

/// Validation failure for [`LightValueRange`].
#[derive(Debug, Clone, Copy, PartialEq, Eq, Structural)]
pub enum LightValueRangeError {
    /// The lower bound is greater than the upper bound.
    Reversed {
        /// Rejected lower bound.
        min: u16,
        /// Rejected upper bound.
        max: u16,
    },
    /// A range cannot have a zero increment.
    ZeroStep,
    /// The upper bound is not reachable from the lower bound using `step`.
    Unaligned {
        /// Lower bound of the invalid range.
        min: u16,
        /// Upper bound of the invalid range.
        max: u16,
        /// Increment that does not reach the upper bound.
        step: u16,
    },
    /// Percentage ranges must stay within 0–100.
    PercentOutOfBounds {
        /// Rejected lower bound.
        min: u16,
        /// Rejected upper bound.
        max: u16,
    },
}

/// A validated light value range advertised by a device driver.
///
/// The upper bound always lies on the grid that starts at the lower bound and
/// advances by `step`, so quantizing can never leave the interval or land
/// between device-supported stops.
#[derive(Debug, Clone, Copy, PartialEq, Eq, Hash, Structural)]
pub struct LightValueRange {
    min: u16,
    max: u16,
    step: u16,
    unit: LightValueUnit,
}

/// Whether `(min, max, step, unit)` describes a valid range.
pub open spec fn range_is_valid(min: u16, max: u16, step: u16, unit: LightValueUnit) -> bool {
    &&& min <= max
    &&& step != 0
    &&& (max - min) % (step as int) == 0
    &&& (unit == LightValueUnit::Percent ==> max <= 100)
}

/// The outcome of validating a candidate range, first failing rule first.
pub open spec fn spec_range_new(min: u16, max: u16, step: u16, unit: LightValueUnit) -> Result<(u16, u16, u16, LightValueUnit), LightValueRangeError> {
    if min > max {
        Err(LightValueRangeError::Reversed { min, max })
    } else if step == 0 {
        Err(LightValueRangeError::ZeroStep)
    } else if (max - min) % (step as int) != 0 {
        Err(LightValueRangeError::Unaligned { min, max, step })
    } else if unit == LightValueUnit::Percent && max > 100 {
        Err(LightValueRangeError::PercentOutOfBounds { min, max })
    } else {
        Ok((min, max, step, unit))
    }
}

/// `value` clamped into `[lo, hi]`.
pub open spec fn clamp_int(value: int, lo: int, hi: int) -> int {
    if value < lo { lo } else if value > hi { hi } else { value }
}

impl LightValueRange {
    /// Every range value satisfies the validation rules it was built with.
    #[verifier::type_invariant]
    pub closed spec fn inv(self) -> bool {
        range_is_valid(self.min, self.max, self.step, self.unit)
    }

    /// Inclusive lower bound.
    pub closed spec fn spec_min(self) -> u16 {
        self.min
    }

    /// Inclusive upper bound.
    pub closed spec fn spec_max(self) -> u16 {
        self.max
    }

    /// Supported increment.
    pub closed spec fn spec_step(self) -> u16 {
        self.step
    }

    /// Unit of the range.
    pub closed spec fn spec_unit(self) -> LightValueUnit {
        self.unit
    }

    /// Whether this value satisfies the range validation rules; true of every
    /// range a program can hold.
    pub open spec fn valid(self) -> bool {
        range_is_valid(self.spec_min(), self.spec_max(), self.spec_step(), self.spec_unit())
    }

    /// The validity a caller may rely on for a range it holds.
    pub fn is_valid(&self) -> (b: bool)
        ensures
            b,
            self.valid(),
    {
        proof { use_type_invariant(self); }
        true
    }

    /// Whether `value` is a supported stop of this range.
    pub open spec fn spec_contains(self, value: u16) -> bool {
        &&& self.spec_min() <= value <= self.spec_max()
        &&& self.spec_step() != 0
        &&& (value - self.spec_min()) % (self.spec_step() as int) == 0
    }

    /// The grid index nearest to `value`'s clamped offset, ties rounding up.
    pub open spec fn spec_nearest_index(self, value: u16) -> int {
        let clamped = clamp_int(value as int, self.spec_min() as int, self.spec_max() as int);
        let offset = clamped - self.spec_min();
        let step = self.spec_step() as int;
        if 2 * (offset % step) >= step { offset / step + 1 } else { offset / step }
    }

    /// `value` snapped to the nearest supported stop, never past the maximum.
    pub open spec fn spec_quantize(self, value: u16) -> u16 {
        let candidate = self.spec_min() + self.spec_nearest_index(value) * self.spec_step();
        if candidate > self.spec_max() { self.spec_max() } else { candidate as u16 }
    }

    /// The native value a normalized percentage maps to, rounded to nearest.
    pub open spec fn spec_native_for_percent(self, percent: u8) -> Option<u16> {
        if percent > 100 {
            None
        } else {
            let span = self.spec_max() - self.spec_min();
            let raw = self.spec_min() + (span * percent + 50) / 100;
            Some(self.spec_quantize(raw as u16))
        }
    }

    /// The normalized percentage a supported native value maps to.
    pub open spec fn spec_percent_for_native(self, value: u16) -> Option<u8> {
        if !self.spec_contains(value) {
            None
        } else {
            let span = self.spec_max() - self.spec_min();
            if span == 0 {
                Some(0u8)
            } else {
                Some((((value - self.spec_min()) * 100 + span / 2) / span) as u8)
            }
        }
    }

    /// Construct a range after validating its bounds and quantization grid.
    pub fn new(min: u16, max: u16, step: u16, unit: LightValueUnit) -> (r: Result<Self, LightValueRangeError>)
        ensures
            match spec_range_new(min, max, step, unit) {
                Ok(_) => r matches Ok(range) && range.spec_min() == min && range.spec_max() == max
                    && range.spec_step() == step && range.spec_unit() == unit,
                Err(e) => r == Err::<Self, LightValueRangeError>(e),
            },
    {
        if min > max {
            return Err(LightValueRangeError::Reversed { min, max });
        }
        if step == 0 {
            return Err(LightValueRangeError::ZeroStep);
        }
        if (max - min) % step != 0 {
            return Err(LightValueRangeError::Unaligned { min, max, step });
        }
        if matches!(unit, LightValueUnit::Percent) && max > 100 {
            return Err(LightValueRangeError::PercentOutOfBounds { min, max });
        }
        Ok(LightValueRange { min, max, step, unit })
    }

    /// Inclusive lower bound in the advertised unit.
    pub fn min(self) -> (v: u16)
        ensures
            v == self.spec_min(),
    {
        self.min
    }

    /// Inclusive upper bound in the advertised unit.
    pub fn max(self) -> (v: u16)
        ensures
            v == self.spec_max(),
    {
        self.max
    }

    /// Supported increment.
    pub fn step(self) -> (v: u16)
        ensures
            v == self.spec_step(),
    {
        self.step
    }

    /// Unit represented by this range.
    pub fn unit(self) -> (v: LightValueUnit)
        ensures
            v == self.spec_unit(),
    {
        self.unit
    }

    /// Whether `value` is representable without clamping or quantization.
    pub fn contains(self, value: u16) -> (b: bool)
        ensures
            b == self.spec_contains(value),
    {
        value >= self.min && value <= self.max && self.step != 0 && (value - self.min) % self.step == 0
    }

    /// Snap `value` to the nearest supported point inside this range.
    pub fn quantize(self, value: u16) -> (q: u16)
        ensures
            q == self.spec_quantize(value),
    {
        proof { use_type_invariant(self); }
        let clamped = if value < self.min { self.min } else if value > self.max { self.max } else { value };
        let offset = clamped - self.min;
        let lower = offset / self.step;
        let remainder = offset % self.step;
        // Widened arithmetic: saturating u16 operations would only saturate
        // where the clamp to `max` below decides the result anyway.
        let index: u32 = if remainder as u32 * 2 >= self.step as u32 {
            lower as u32 + 1
        } else {
            lower as u32
        };
        proof {
            assert(lower as int * self.step <= offset) by (nonlinear_arith)
                requires lower as int == offset as int / self.step as int, self.step > 0;
            assert(index as int * self.step <= offset as int + self.step) by (nonlinear_arith)
                requires lower as int * self.step <= offset, index <= lower + 1, self.step > 0;
        }
        let candidate: u32 = self.min as u32 + index * self.step as u32;
        let result: u16 = if candidate < self.max as u32 { candidate as u16 } else { self.max };
        proof {
            assert(index as int == self.spec_nearest_index(value));
        }
        result
    }

    /// Map normalized brightness to the nearest native value in this range.
    pub fn native_for_percent(self, percent: u8) -> (v: Option<u16>)
        ensures
            v == self.spec_native_for_percent(percent),
    {
        proof { use_type_invariant(self); }
        if percent > 100 {
            return None;
        }
        let span: u32 = self.max as u32 - self.min as u32;
        proof {
            assert(span * percent <= span * 100) by (nonlinear_arith)
                requires percent <= 100;
            assert((span * percent + 50) / 100 <= span as int) by (nonlinear_arith)
                requires span * percent <= span * 100;
        }
        let raw: u32 = self.min as u32 + (span * percent as u32 + 50) / 100;
        let value: u16 = raw as u16;
        Some(self.quantize(value))
    }

    /// Convert a supported native value to normalized brightness.
    pub fn percent_for_native(self, value: u16) -> (p: Option<u8>)
        ensures
            p == self.spec_percent_for_native(value),
    {
        proof { use_type_invariant(self); }
        if !self.contains(value) {
            return None;
        }
        let span: u32 = self.max as u32 - self.min as u32;
        if span == 0 {
            return Some(0);
        }
        let offset: u32 = value as u32 - self.min as u32;
        proof {
            let o = offset as int;
            let sp = span as int;
            assert((o * 100 + sp / 2) / sp <= 100) by (nonlinear_arith)
                requires o <= sp, sp > 0;
        }
        let pct: u32 = (offset * 100 + span / 2) / span;
        Some(pct as u8)
    }

    /// Quantizing always lands on a supported stop of the range.
    pub proof fn lemma_quantize_is_contained(self, value: u16)
        requires
            self.valid(),
        ensures
            self.spec_contains(self.spec_quantize(value)),
    {
        let s = self.spec_step() as int;
        let idx = self.spec_nearest_index(value);
        let lo = self.spec_min() as int;
        let hi = self.spec_max() as int;
        let o = clamp_int(value as int, lo, hi) - lo;
        assert(o >= 0);
        assert(o / s >= 0) by (nonlinear_arith)
            requires o >= 0, s > 0;
        assert(idx >= 0);
        if lo + idx * s > hi {
            assert((hi - lo) % s == 0);
        } else {
            assert((lo + idx * s - lo) % s == 0) by (nonlinear_arith)
                requires s > 0, idx >= 0;
        }
    }

    /// A supported stop quantizes to itself.
    pub proof fn lemma_quantize_fixes_stops(self, value: u16)
        requires
            self.valid(),
            self.spec_contains(value),
        ensures
            self.spec_quantize(value) == value,
    {
        let s = self.spec_step() as int;
        let o = value - self.spec_min();
        assert(o % s == 0);
        assert(o / s * s == o) by (nonlinear_arith)
            requires o % s == 0, s > 0;
        assert(self.spec_nearest_index(value) == o / s);
    }

    /// The ends of a range map to the ends of the percentage scale and back:
    /// 0 % is the minimum and 100 % the maximum, and the minimum reads as
    /// 0 % and (for a range wider than one value) the maximum as 100 %.
    pub proof fn lemma_percent_ends(self)
        requires
            self.valid(),
        ensures
            self.spec_native_for_percent(0) == Some(self.spec_min()),
            self.spec_native_for_percent(100) == Some(self.spec_max()),
            self.spec_percent_for_native(self.spec_min()) == Some(0u8),
            self.spec_max() > self.spec_min() ==> self.spec_percent_for_native(self.spec_max()) == Some(100u8),
    {
        let lo = self.spec_min() as int;
        let hi = self.spec_max() as int;
        let span = hi - lo;
        let s = self.spec_step() as int;
        assert(self.spec_contains(self.spec_min())) by {
            assert(0int % s == 0);
        }
        assert(self.spec_contains(self.spec_max()));
        self.lemma_quantize_fixes_stops(self.spec_min());
        self.lemma_quantize_fixes_stops(self.spec_max());
        assert((span * 0 + 50) / 100 == 0);
        assert((span * 100 + 50) / 100 == span) by (nonlinear_arith)
            requires span >= 0;
        if span > 0 {
            assert((span * 100 + span / 2) / span == 100) by (nonlinear_arith)
                requires span > 0;
        }
        assert((0 * 100 + span / 2) / span == 0 || span == 0) by (nonlinear_arith)
            requires span >= 0;
    }

    /// On a range with every value a stop (step 1) that spans at least a
    /// hundred values, every percentage comes back from the value it maps
    /// to.
    pub proof fn lemma_percent_round_trip(self, percent: u8)
        requires
            self.valid(),
            self.spec_step() == 1,
            self.spec_max() - self.spec_min() >= 100,
            percent <= 100,
        ensures
            self.spec_native_for_percent(percent) matches Some(v)
                && self.spec_percent_for_native(v) == Some(percent),
    {
        let lo = self.spec_min() as int;
        let hi = self.spec_max() as int;
        let span = hi - lo;
        let p = percent as int;
        let x = (span * p + 50) / 100;
        assert(0 <= x <= span) by (nonlinear_arith)
            requires span >= 100, 0 <= p <= 100, x == (span * p + 50) / 100;
        let raw = lo + x;
        assert(self.spec_contains(raw as u16)) by {
            assert((raw - lo) % 1 == 0);
        }
        self.lemma_quantize_fixes_stops(raw as u16);
        assert(((x * 100 + span / 2) / span) == p) by (nonlinear_arith)
            requires span >= 100, 0 <= p <= 100, x == (span * p + 50) / 100;
    }
}

/// Controls a standalone light driver can implement.
///
/// Optional ranges are the source of truth for UI controls.
#[derive(Debug, Clone, Copy, PartialEq, Eq, Default)]
pub struct LightCapabilities {
    /// Whether the driver can switch the light on and off.
    pub power: bool,
    /// Supported brightness range, if brightness is controllable.
    pub brightness: Option<LightValueRange>,
    /// Supported colour-temperature range, if temperature is controllable.
    pub temperature: Option<LightValueRange>,
    /// Whether the driver can set a colour.
    pub color: bool,
    /// Whether the driver exposes independently-addressable zones.
    pub zones: bool,
}

/// The receiver (or direct device) a HID node answered for.
#[derive(Debug, PartialEq, Eq)]
pub struct ReceiverInfo {
    /// Human-readable name.
    pub name: String,
    /// USB vendor ID.
    pub vendor_id: u16,
    /// USB product ID.
    pub product_id: u16,
    /// Receiver unique ID; absent for a directly attached device.
    pub unique_id: Option<String>,
}

/// One device found behind a receiver (or the direct device itself).
///
/// Only the addressing and liveness fields this library reads are kept here.
#[derive(Debug, PartialEq, Eq)]
pub struct PairedDevice {
    /// Pairing slot, or the HID++ self-index for a direct device.
    pub slot: u8,
    /// Codename reported by the receiver or device, when read.
    pub codename: Option<String>,
    /// Wireless product ID, when known.
    pub wpid: Option<u16>,
    /// Whether the device's link is established.
    pub online: bool,
}

/// Everything one HID node reported: its receiver and the devices behind it.
#[derive(Debug, PartialEq, Eq)]
pub struct DeviceInventory {
    /// The receiver or direct device the node belongs to.
    pub receiver: ReceiverInfo,
    /// Devices reachable through that receiver.
    pub paired: Vec<PairedDevice>,
}

fn clone_optional_string(s: &Option<String>) -> (c: Option<String>)
    ensures
        c == *s,
{
    match s {
        Some(text) => Some(text.clone()),
        None => None,
    }
}

impl Clone for ReceiverInfo {
    fn clone(&self) -> (c: Self)
        ensures
            c == *self,
    {
        ReceiverInfo {
            name: self.name.clone(),
            vendor_id: self.vendor_id,
            product_id: self.product_id,
            unique_id: clone_optional_string(&self.unique_id),
        }
    }
}

impl Clone for PairedDevice {
    fn clone(&self) -> (c: Self)
        ensures
            c == *self,
    {
        PairedDevice {
            slot: self.slot,
            codename: clone_optional_string(&self.codename),
            wpid: self.wpid,
            online: self.online,
        }
    }
}

impl View for DeviceInventory {
    type V = (ReceiverInfo, Seq<PairedDevice>);

    /// The receiver and the sequence of devices behind it.
    open spec fn view(&self) -> (ReceiverInfo, Seq<PairedDevice>) {
        (self.receiver, self.paired@)
    }
}

impl Clone for DeviceInventory {
    fn clone(&self) -> (c: Self)
        ensures
            c@ == self@,
    {
        let paired = self.paired.clone();
        assert(paired@ =~= self.paired@);
        DeviceInventory { receiver: self.receiver.clone(), paired }
    }
}

} // verus!
