//! App-wide and per-device value settings: appearance, interface scale, app
//! icon, scroll and thumb-wheel sensitivity, lighting, and wheel modes.

use vstd::prelude::*;

use crate::chars::{strip_prefix, strip_prefix_chars};
use crate::color::{parse_rgb, Rgb, RgbParseError};
use crate::text::{chars_of, decimal, push_decimal_u64, push_str, string_from_chars};
use crate::hid::smartshift::{SmartShiftAutoDisengage, SmartShiftThresholdError, TunableTorque};

verus! {

/// Light/dark appearance preference; `System` follows the OS.
#[derive(Debug, Clone, Copy, Default, PartialEq, Eq, Structural)]
pub enum Appearance {
    /// Follow the operating system's light/dark setting.
    #[default]
    System,
    /// Always use the light variant of the selected theme.
    Light,
    /// Always use the dark variant of the selected theme.
    Dark,
}

/// User-selected scale for text and interface spacing.
#[derive(Debug, Clone, Copy, Default, PartialEq, Eq, Structural)]
pub enum UiScale {
    /// 90% of the standard interface size.
    Small,
    /// The standard interface size.
    #[default]
    Normal,
    /// 110% of the standard interface size.
    Large,
    /// 125% of the standard interface size.
    ExtraLarge,
}

/// The displayed percentage of a scale.
pub open spec fn scale_percent(scale: UiScale) -> u16 {
    match scale {
        UiScale::Small => 90,
        UiScale::Normal => 100,
        UiScale::Large => 110,
        UiScale::ExtraLarge => 125,
    }
}

impl UiScale {
    /// Every supported scale, in the order Settings offers them.
    pub fn all() -> (a: [UiScale; 4])
        ensures
            a@ == seq![UiScale::Small, UiScale::Normal, UiScale::Large, UiScale::ExtraLarge],
    {
        let a = [UiScale::Small, UiScale::Normal, UiScale::Large, UiScale::ExtraLarge];
        assert(a@ =~= seq![UiScale::Small, UiScale::Normal, UiScale::Large, UiScale::ExtraLarge]);
        a
    }

    /// The displayed percentage for this scale.
    pub fn percent(self) -> (p: u16)
        ensures
            p == scale_percent(self),
    {
        match self {
            UiScale::Small => 90,
            UiScale::Normal => 100,
            UiScale::Large => 110,
            UiScale::ExtraLarge => 125,
        }
    }
}

/// Scales are offered in strictly increasing size.
pub proof fn lemma_scales_increase()
    ensures
        scale_percent(UiScale::Small) < scale_percent(UiScale::Normal),
        scale_percent(UiScale::Normal) < scale_percent(UiScale::Large),
        scale_percent(UiScale::Large) < scale_percent(UiScale::ExtraLarge),
        scale_percent(UiScale::Normal) == 100,
{
}

/// Layout used for the Home device gallery.
#[derive(Debug, Clone, Copy, Default, PartialEq, Eq, Structural)]
pub enum DeviceViewMode {
    /// Responsive cards that wrap.
    #[default]
    Grid,
    /// Compact full-width rows.
    List,
    /// A horizontally scrolling row.
    Carousel,
}

/// Which icon the app wears.
#[derive(Debug, Clone, Copy, Default, PartialEq, Eq, Structural)]
pub enum AppIcon {
    /// The icon the app is signed with.
    #[default]
    Openlogi,
    /// The geometric mark on a faceted, light-refracting fill.
    Prism,
}

impl AppIcon {
    /// Every icon, in the order Settings offers them.
    pub fn all() -> (a: [AppIcon; 2])
        ensures
            a@ == seq![AppIcon::Openlogi, AppIcon::Prism],
    {
        let a = [AppIcon::Openlogi, AppIcon::Prism];
        assert(a@ =~= seq![AppIcon::Openlogi, AppIcon::Prism]);
        a
    }

    /// Whether this is the icon the installed bundle already wears.
    pub fn is_default(self) -> (b: bool)
        ensures
            b == (self == AppIcon::Openlogi),
    {
        match self {
            AppIcon::Openlogi => true,
            AppIcon::Prism => false,
        }
    }

    /// The snake-case name the icon is persisted and shipped under.
    pub fn name(self) -> (s: &'static str)
        ensures
            self == AppIcon::Openlogi ==> s@ == "openlogi"@,
            self == AppIcon::Prism ==> s@ == "prism"@,
    {
        match self {
            AppIcon::Openlogi => "openlogi",
            AppIcon::Prism => "prism",
        }
    }
}

/// Preferred source for on-demand device assets.
#[derive(Debug, Clone, Copy, Default, PartialEq, Eq, Structural)]
pub enum AssetSourcePreference {
    /// Use the first healthy built-in mirror.
    #[default]
    Automatic,
    /// Use OpenLogi's official asset endpoint.
    OpenLogi,
    /// Use the versioned endpoint on Cloudflare's network.
    Cloudflare,
    /// Use the versioned npm packages through Fastly's network.
    Fastly,
}

/// Lowest selectable sensitivity.
pub const SENSITIVITY_MIN: u8 = 1;
/// Highest selectable sensitivity.
pub const SENSITIVITY_MAX: u8 = 100;
/// Out-of-the-box sensitivity, at which scrolling runs at 1x.
pub const SENSITIVITY_DEFAULT: u8 = 14;

/// Why a byte is not a sensitivity.
#[derive(Debug, Clone, Copy, PartialEq, Eq, Structural)]
pub enum SensitivityError {
    /// The value is below the minimum.
    GreaterOrEqualViolated,
    /// The value is above the maximum.
    LessOrEqualViolated,
}

/// The outcome of validating a sensitivity value.
pub open spec fn sensitivity_check(value: u8) -> Option<SensitivityError> {
    if value < SENSITIVITY_MIN {
        Some(SensitivityError::GreaterOrEqualViolated)
    } else if value > SENSITIVITY_MAX {
        Some(SensitivityError::LessOrEqualViolated)
    } else {
        None
    }
}

/// Traditional vertical mouse-wheel responsiveness on a `1..=100` scale. It
/// changes only scroll distance, never a custom action threshold.
#[derive(Debug, Clone, Copy, PartialEq, Eq, PartialOrd, Ord)]
pub struct VerticalScrollSensitivity(u8);

impl VerticalScrollSensitivity {
    /// The value lies in `1..=100`.
    #[verifier::type_invariant]
    closed spec fn inv(self) -> bool {
        SENSITIVITY_MIN <= self.0 <= SENSITIVITY_MAX
    }

    /// The sensitivity value.
    pub closed spec fn value(self) -> u8 {
        self.0
    }

    /// Validate a sensitivity value.
    pub fn try_new(value: u8) -> (r: Result<Self, SensitivityError>)
        ensures
            sensitivity_check(value) matches Some(e) ==> r == Err::<Self, SensitivityError>(e),
            sensitivity_check(value) is None ==> (r matches Ok(s) && s.value() == value),
    {
        if value < SENSITIVITY_MIN {
            Err(SensitivityError::GreaterOrEqualViolated)
        } else if value > SENSITIVITY_MAX {
            Err(SensitivityError::LessOrEqualViolated)
        } else {
            Ok(VerticalScrollSensitivity(value))
        }
    }

    /// The sensitivity value.
    pub fn into_inner(self) -> (v: u8)
        ensures
            v == self.value(),
            SENSITIVITY_MIN <= v <= SENSITIVITY_MAX,
    {
        proof { use_type_invariant(&self); }
        self.0
    }

    /// Lowest selectable sensitivity.
    pub fn min_value() -> (s: Self)
        ensures
            s.value() == SENSITIVITY_MIN,
    {
        VerticalScrollSensitivity(SENSITIVITY_MIN)
    }

    /// Highest selectable sensitivity.
    pub fn max_value() -> (s: Self)
        ensures
            s.value() == SENSITIVITY_MAX,
    {
        VerticalScrollSensitivity(SENSITIVITY_MAX)
    }
}

impl Default for VerticalScrollSensitivity {
    fn default() -> (s: Self)
        ensures
            s.value() == SENSITIVITY_DEFAULT,
    {
        VerticalScrollSensitivity(SENSITIVITY_DEFAULT)
    }
}

/// Thumb-wheel responsiveness on a `1..=100` scale.
#[derive(Debug, Clone, Copy, PartialEq, Eq, PartialOrd, Ord)]
pub struct ThumbwheelSensitivity(u8);

/// Rotation increments required to fire a discrete thumb-wheel action at
/// sensitivity `value`: twice the default less the value, at least one.
pub open spec fn spec_action_threshold(value: u8) -> i32 {
    let t = 2 * SENSITIVITY_DEFAULT - value;
    if t < 1 { 1 } else { t as i32 }
}

impl ThumbwheelSensitivity {
    /// The value lies in `1..=100`.
    #[verifier::type_invariant]
    closed spec fn inv(self) -> bool {
        SENSITIVITY_MIN <= self.0 <= SENSITIVITY_MAX
    }

    /// The sensitivity value.
    pub closed spec fn value(self) -> u8 {
        self.0
    }

    /// Validate a sensitivity value.
    pub fn try_new(value: u8) -> (r: Result<Self, SensitivityError>)
        ensures
            sensitivity_check(value) matches Some(e) ==> r == Err::<Self, SensitivityError>(e),
            sensitivity_check(value) is None ==> (r matches Ok(s) && s.value() == value),
    {
        if value < SENSITIVITY_MIN {
            Err(SensitivityError::GreaterOrEqualViolated)
        } else if value > SENSITIVITY_MAX {
            Err(SensitivityError::LessOrEqualViolated)
        } else {
            Ok(ThumbwheelSensitivity(value))
        }
    }

    /// The sensitivity value.
    pub fn into_inner(self) -> (v: u8)
        ensures
            v == self.value(),
            SENSITIVITY_MIN <= v <= SENSITIVITY_MAX,
    {
        proof { use_type_invariant(&self); }
        self.0
    }

    /// Lowest selectable sensitivity.
    pub fn min_value() -> (s: Self)
        ensures
            s.value() == SENSITIVITY_MIN,
    {
        ThumbwheelSensitivity(SENSITIVITY_MIN)
    }

    /// Highest selectable sensitivity.
    pub fn max_value() -> (s: Self)
        ensures
            s.value() == SENSITIVITY_MAX,
    {
        ThumbwheelSensitivity(SENSITIVITY_MAX)
    }

    /// Rotation increments required to fire a discrete thumb-wheel action.
    pub fn action_threshold(self) -> (t: i32)
        ensures
            t == spec_action_threshold(self.value()),
    {
        let v = self.into_inner() as i32;
        let t = 2 * (SENSITIVITY_DEFAULT as i32) - v;
        if t < 1 { 1 } else { t }
    }
}

/// A higher thumb-wheel sensitivity never needs more rotation to fire an
/// action, and every threshold is at least one increment.
pub proof fn lemma_action_threshold_monotone(a: u8, b: u8)
    requires
        a <= b,
    ensures
        spec_action_threshold(b) <= spec_action_threshold(a),
        spec_action_threshold(a) >= 1,
{
}

impl Default for ThumbwheelSensitivity {
    fn default() -> (s: Self)
        ensures
            s.value() == SENSITIVITY_DEFAULT,
    {
        ThumbwheelSensitivity(SENSITIVITY_DEFAULT)
    }
}

/// App-wide preferences not tied to any particular device.
#[derive(Debug, Clone, PartialEq, Eq)]
pub struct AppSettings {
    /// Start the background agent at login.
    pub launch_at_login: bool,
    /// Opt-in update check.
    pub check_for_updates: bool,
    /// Opt-in automatic install of a found update.
    pub auto_install_updates: bool,
    /// The first-run update prompt has been answered.
    pub update_prompt_seen: bool,
    /// Show a menu-bar (or notification-area) icon.
    pub show_in_menu_bar: bool,
    /// Install the OS-level mouse hook that intercepts events for remapping.
    pub capture_mouse_events: bool,
    /// Replace mouse-wheel input with a smooth scroll animation.
    pub smooth_scroll: bool,
    /// Distance multiplier for traditional vertical mouse-wheel input.
    pub vertical_scroll_sensitivity: VerticalScrollSensitivity,
    /// Which app icon the user picked.
    pub app_icon: AppIcon,
    /// Download device images automatically when a device appears.
    pub auto_download_assets: bool,
    /// Preferred mirror for device-asset downloads.
    pub asset_source: AssetSourcePreference,
    /// UI language; `None` follows the system locale.
    pub language: Option<String>,
    /// Thumb-wheel responsiveness.
    pub thumbwheel_sensitivity: ThumbwheelSensitivity,
    /// Light/dark appearance preference.
    pub appearance: Appearance,
    /// Text and interface scale.
    pub ui_scale: UiScale,
    /// Layout used for the Home device gallery.
    pub device_view_mode: DeviceViewMode,
    /// Theme used in light mode; `None` uses the brand light theme.
    pub theme_light: Option<String>,
    /// Theme used in dark mode; `None` uses the brand dark theme.
    pub theme_dark: Option<String>,
    /// Corner-radius override in pixels; `None` keeps each theme's own.
    pub ui_radius: Option<u8>,
}

/// Whether `s` holds the out-of-the-box preferences.
pub open spec fn is_default_settings(s: AppSettings) -> bool {
    &&& s.launch_at_login
    &&& !s.check_for_updates
    &&& !s.auto_install_updates
    &&& !s.update_prompt_seen
    &&& s.show_in_menu_bar
    &&& s.capture_mouse_events
    &&& !s.smooth_scroll
    &&& s.vertical_scroll_sensitivity.value() == SENSITIVITY_DEFAULT
    &&& s.auto_download_assets
    &&& s.asset_source == AssetSourcePreference::Automatic
    &&& s.language is None
    &&& s.thumbwheel_sensitivity.value() == SENSITIVITY_DEFAULT
    &&& s.appearance == Appearance::System
    &&& s.ui_scale == UiScale::Normal
    &&& s.device_view_mode == DeviceViewMode::Grid
    &&& s.app_icon == AppIcon::Openlogi
    &&& s.theme_light is None
    &&& s.theme_dark is None
    &&& s.ui_radius is None
}

impl Default for AppSettings {
    fn default() -> (s: Self)
        ensures
            is_default_settings(s),
    {
        AppSettings {
            launch_at_login: true,
            check_for_updates: false,
            auto_install_updates: false,
            update_prompt_seen: false,
            show_in_menu_bar: true,
            capture_mouse_events: true,
            smooth_scroll: false,
            vertical_scroll_sensitivity: VerticalScrollSensitivity(SENSITIVITY_DEFAULT),
            auto_download_assets: true,
            asset_source: AssetSourcePreference::Automatic,
            language: None,
            thumbwheel_sensitivity: ThumbwheelSensitivity(SENSITIVITY_DEFAULT),
            appearance: Appearance::System,
            ui_scale: UiScale::Normal,
            device_view_mode: DeviceViewMode::Grid,
            app_icon: AppIcon::Openlogi,
            theme_light: None,
            theme_dark: None,
            ui_radius: None,
        }
    }
}

impl AppSettings {
    /// True when nothing diverges from the default, so empty settings are
    /// not written out.
    pub fn is_default(&self) -> (b: bool)
        ensures
            b == is_default_settings(*self),
    {
        self.launch_at_login
            && !self.check_for_updates
            && !self.auto_install_updates
            && !self.update_prompt_seen
            && self.show_in_menu_bar
            && self.capture_mouse_events
            && !self.smooth_scroll
            && self.vertical_scroll_sensitivity.into_inner() == SENSITIVITY_DEFAULT
            && self.auto_download_assets
            && self.asset_source == AssetSourcePreference::Automatic
            && self.language.is_none()
            && self.thumbwheel_sensitivity.into_inner() == SENSITIVITY_DEFAULT
            && self.appearance == Appearance::System
            && self.ui_scale == UiScale::Normal
            && self.device_view_mode == DeviceViewMode::Grid
            && self.app_icon == AppIcon::Openlogi
            && self.theme_light.is_none()
            && self.theme_dark.is_none()
            && self.ui_radius.is_none()
    }
}

/// Per-device RGB lighting: a single static color, brightness, and on/off.
#[derive(Debug, Clone, PartialEq, Eq)]
pub struct Lighting {
    /// Master on/off for the device's lighting.
    pub enabled: bool,
    /// Static color.
    pub color: Rgb,
    /// Brightness percent (`0`–`100`).
    pub brightness: u8,
}

impl Default for Lighting {
    fn default() -> (l: Self)
        ensures
            l.enabled,
            l.color.red() == 0xff && l.color.green() == 0xff && l.color.blue() == 0xff,
            l.brightness == 100,
    {
        Lighting { enabled: true, color: Rgb::white(), brightness: 100 }
    }
}

/// Persisted settings for a standalone light such as Logitech Litra, with
/// brightness as a normalized percentage.
#[derive(Debug, Clone, Copy, PartialEq, Eq)]
pub struct LightSettings {
    /// Whether the light should be on.
    pub enabled: bool,
    /// Link power to aggregate host-camera activity.
    pub auto_camera: bool,
    /// Brightness across the device's advertised range.
    pub brightness_percent: u8,
    /// Desired colour temperature, when the device supports it.
    pub temperature_kelvin: Option<u16>,
    /// Optional colour for a driver that exposes RGB controls.
    pub color: Option<Rgb>,
}

impl Default for LightSettings {
    fn default() -> (s: Self)
        ensures
            s.enabled && !s.auto_camera && s.brightness_percent == 100,
            s.temperature_kelvin is None && s.color is None,
    {
        LightSettings {
            enabled: true,
            auto_camera: false,
            brightness_percent: 100,
            temperature_kelvin: None,
            color: None,
        }
    }
}

impl LightSettings {
    /// Create settings with a normalized brightness percentage, capped at
    /// 100.
    pub fn new(enabled: bool, brightness_percent: u8, temperature_kelvin: Option<u16>) -> (s: Self)
        ensures
            s.enabled == enabled,
            !s.auto_camera,
            s.brightness_percent == (if brightness_percent > 100 { 100 } else { brightness_percent }),
            s.temperature_kelvin == temperature_kelvin,
            s.color is None,
    {
        LightSettings {
            enabled,
            auto_camera: false,
            brightness_percent: if brightness_percent > 100 { 100 } else { brightness_percent },
            temperature_kelvin,
            color: None,
        }
    }
}

/// Per-webcam UVC controls, keyed by control name, in raw device units.
#[derive(Debug, Clone, Default, PartialEq, Eq)]
pub struct CameraControls(pub std::collections::BTreeMap<String, i32>);

/// Vertical wheel reporting resolution for HID++ `0x2121 HiResWheel`.
#[derive(Debug, Clone, Copy, PartialEq, Eq, Structural)]
pub enum ScrollResolution {
    /// One scroll report per physical ratchet step.
    Low,
    /// Finer-grained reports between physical ratchet steps.
    High,
}

/// Scroll-wheel mode: free-spin or ratchet.
#[derive(Debug, Clone, Copy, PartialEq, Eq, Structural)]
pub enum WheelMode {
    /// Free-spin: the wheel rotates without detents.
    Free,
    /// Ratchet (clicky) scrolling.
    Ratchet,
}

/// SmartShift auto-disengage out-of-box default (`16`, about 4 turn/s).
pub const SMARTSHIFT_AUTO_DISENGAGE_DEFAULT: u8 = 16;

/// Smallest auto-disengage threshold stored or applied (`8`, about
/// 2 turn/s); below it the ratchet releases at everyday scroll speeds.
pub const SMARTSHIFT_MIN_AUTO_DISENGAGE: u8 = 8;

/// Whether a persisted auto-disengage setting is in contract: permanent, or
/// a threshold at least the supported floor.
pub open spec fn auto_disengage_in_contract(a: SmartShiftAutoDisengage) -> bool {
    match a {
        SmartShiftAutoDisengage::Threshold(t) => t.value() >= SMARTSHIFT_MIN_AUTO_DISENGAGE,
        SmartShiftAutoDisengage::Permanent => true,
    }
}

/// Whether a persisted auto-disengage setting may be loaded.
pub fn auto_disengage_is_in_contract(a: SmartShiftAutoDisengage) -> (b: bool)
    ensures
        b == auto_disengage_in_contract(a),
{
    match a {
        SmartShiftAutoDisengage::Threshold(t) => t.into_inner() >= SMARTSHIFT_MIN_AUTO_DISENGAGE,
        SmartShiftAutoDisengage::Permanent => true,
    }
}

/// The message rejecting a stored auto-disengage threshold below the floor.
pub open spec fn auto_disengage_error(threshold: u8) -> Seq<char> {
    "SmartShift auto_disengage must be between "@ + decimal(SMARTSHIFT_MIN_AUTO_DISENGAGE as nat) + " and 255, got "@
        + decimal(threshold as nat)
}

/// Accept a stored auto-disengage setting only when it is in contract; a
/// threshold below the floor is refused with its message.
pub fn validate_auto_disengage(a: SmartShiftAutoDisengage) -> (r: Result<SmartShiftAutoDisengage, String>)
    ensures
        auto_disengage_in_contract(a) ==> r == Ok::<SmartShiftAutoDisengage, String>(a),
        !auto_disengage_in_contract(a) ==> r is Err,
        r matches Err(m) ==> a matches SmartShiftAutoDisengage::Threshold(t) && m@ == auto_disengage_error(t.value()),
{
    match a {
        SmartShiftAutoDisengage::Threshold(t) => {
            let value = t.into_inner();
            if value < SMARTSHIFT_MIN_AUTO_DISENGAGE {
                let mut m = String::new();
                push_str(&mut m, "SmartShift auto_disengage must be between ");
                push_decimal_u64(&mut m, SMARTSHIFT_MIN_AUTO_DISENGAGE as u64);
                push_str(&mut m, " and 255, got ");
                push_decimal_u64(&mut m, value as u64);
                Err(m)
            } else {
                Ok(a)
            }
        },
        SmartShiftAutoDisengage::Permanent => Ok(a),
    }
}

/// The message rejecting a stored brightness above 100.
pub open spec fn brightness_error(value: u8) -> Seq<char> {
    "brightness must be between 0 and 100, got "@ + decimal(value as nat)
}

/// Accept a stored brightness percent only within `0..=100`.
pub fn validate_brightness(value: u8) -> (r: Result<u8, String>)
    ensures
        value <= 100 ==> r == Ok::<u8, String>(value),
        value > 100 ==> r is Err,
        r matches Err(m) ==> m@ == brightness_error(value),
{
    if value <= 100 {
        Ok(value)
    } else {
        let mut m = String::new();
        push_str(&mut m, "brightness must be between 0 and 100, got ");
        push_decimal_u64(&mut m, value as u64);
        Err(m)
    }
}

/// The text a stored lighting color is parsed from: without the `#` that
/// older releases wrote in front.
pub open spec fn lighting_color_digits(text: Seq<char>) -> Seq<char> {
    match strip_prefix(text, "#"@) {
        Some(rest) => rest,
        None => text,
    }
}

/// Parse a stored lighting color, accepting the optional `#` prefix of
/// older releases.
pub fn parse_lighting_color(text: &str) -> (r: Result<Rgb, RgbParseError>)
    ensures
        parse_rgb(lighting_color_digits(text@)) matches Some((red, green, blue)) ==>
            (r matches Ok(c) && c.red() == red && c.green() == green && c.blue() == blue),
        parse_rgb(lighting_color_digits(text@)) is None ==>
            (r matches Err(e) && e.rejected() == lighting_color_digits(text@)),
{
    let chars = chars_of(text);
    match strip_prefix_chars(chars.as_slice(), "#") {
        Some(rest) => {
            let digits = string_from_chars(rest.as_slice());
            Rgb::parse(digits.as_str())
        },
        None => Rgb::parse(text),
    }
}

/// Per-device SmartShift wheel configuration, re-applied to device RAM on
/// reconnect.
#[derive(Debug, Clone, Copy, PartialEq, Eq)]
pub struct SmartShift {
    /// The persisted wheel mode.
    pub mode: WheelMode,
    /// Auto-disengage threshold, or permanent ratchet.
    pub auto_disengage: SmartShiftAutoDisengage,
    /// Firmware tunable-torque level, `None` when unsupported.
    pub tunable_torque: Option<TunableTorque>,
}

/// Why a stored SmartShift configuration is refused.
#[derive(Debug, Clone)]
pub enum StoredSmartShiftError {
    /// The auto-disengage byte is `0`, which names no setting.
    AutoDisengage(SmartShiftThresholdError),
    /// The auto-disengage threshold is below the supported floor.
    OutOfContract(String),
}

impl SmartShift {
    /// The configuration a stored record describes: the wheel mode, the
    /// auto-disengage byte (`255` permanent, else a threshold no lower than
    /// the floor) and the tunable-torque byte (`0` for hardware without it).
    pub fn from_stored(mode: WheelMode, auto_disengage: u8, tunable_torque: u8) -> (r: Result<Self, StoredSmartShiftError>)
        ensures
            auto_disengage == 0 ==> r matches Err(StoredSmartShiftError::AutoDisengage(_)),
            (1 <= auto_disengage < SMARTSHIFT_MIN_AUTO_DISENGAGE) ==> (r matches Err(StoredSmartShiftError::OutOfContract(m))
                && m@ == auto_disengage_error(auto_disengage)),
            auto_disengage >= SMARTSHIFT_MIN_AUTO_DISENGAGE ==> (r matches Ok(c) && c.mode == mode
                && crate::hid::smartshift::auto_disengage_byte(c.auto_disengage) == auto_disengage
                && (tunable_torque == 0 <==> c.tunable_torque is None)
                && (c.tunable_torque matches Some(t) ==> t.value() == tunable_torque)),
    {
        let a = match SmartShiftAutoDisengage::from_byte(auto_disengage) {
            Ok(a) => a,
            Err(e) => return Err(StoredSmartShiftError::AutoDisengage(e)),
        };
        let ghost a0 = a;
        let a = match validate_auto_disengage(a) {
            Ok(a) => a,
            Err(m) => {
                proof {
                    if let SmartShiftAutoDisengage::Threshold(t) = a0 {
                        assert(crate::hid::smartshift::auto_disengage_byte(a0) == t.value());
                    }
                }
                return Err(StoredSmartShiftError::OutOfContract(m));
            },
        };
        Ok(SmartShift { mode, auto_disengage: a, tunable_torque: TunableTorque::from_wire(tunable_torque) })
    }
}

} // verus!
