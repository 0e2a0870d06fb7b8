//! HID++ `Backlight` (feature `0x1982`): keyboard backlight mode, status and
//! snapshot.

use vstd::prelude::*;

verus! {

/// How the firmware decides the backlight brightness level.
#[derive(Debug, Clone, Copy, PartialEq, Eq, Structural)]
pub enum BacklightMode {
    /// No mode selected.
    Unset,
    /// Level follows the ambient-light sensor.
    Automatic,
    /// Level adjusted with the keyboard's own backlight keys.
    TemporaryManual,
    /// Level set by software and held until changed.
    PermanentManual,
}

/// Why the backlight is in its current state.
#[derive(Debug, Clone, Copy, PartialEq, Eq, Structural)]
pub enum BacklightStatus {
    /// Turned off by software.
    DisabledBySoftware,
    /// Turned off because the battery is critically low.
    DisabledByCriticalBattery,
    /// Following the ambient-light sensor.
    AlsAutomatic,
    /// Following the ambient-light sensor, which reads bright enough that
    /// the LEDs are off.
    AlsSaturated,
    /// Holding a level the user picked with the backlight keys.
    TemporaryManual,
    /// Holding a level written by software.
    PermanentManual,
}

/// Snapshot of a keyboard's backlight.
#[derive(Debug, Clone, Copy, PartialEq, Eq, Structural)]
pub struct BacklightState {
    /// Whether the backlight system is enabled at all.
    pub enabled: bool,
    /// How the level is chosen while the backlight is enabled.
    pub mode: BacklightMode,
    /// Why the backlight is in its current state.
    pub status: BacklightStatus,
    /// Current brightness level, `0` (off) up to `nb_levels` minus one.
    pub current_level: u8,
    /// Number of user-selectable brightness levels the device reports.
    pub nb_levels: u8,
}

/// Whether the LEDs are dark: disabled, at level zero, or in a status that
/// keeps them off.
pub open spec fn spec_is_dark(s: BacklightState) -> bool {
    ||| !s.enabled
    ||| s.current_level == 0
    ||| s.status == BacklightStatus::DisabledBySoftware
    ||| s.status == BacklightStatus::DisabledByCriticalBattery
    ||| s.status == BacklightStatus::AlsSaturated
}

impl BacklightState {
    /// Whether the LEDs are dark right now, for whatever reason: software
    /// disable, critical battery, a saturated ambient-light sensor, or a zero
    /// level.
    pub fn is_dark(self) -> (b: bool)
        ensures
            b == spec_is_dark(self),
    {
        !self.enabled || self.current_level == 0 || match self.status {
            BacklightStatus::DisabledBySoftware
            | BacklightStatus::DisabledByCriticalBattery
            | BacklightStatus::AlsSaturated => true,
            _ => false,
        }
    }
}

} // verus!
