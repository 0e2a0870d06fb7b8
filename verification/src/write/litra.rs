//! Raw HID driver logic for Logitech Litra lights: model resolution from a
//! raw-HID route, the advertised ranges, and the fixed report encoding.

use vstd::prelude::*;

use crate::device::{LightCapabilities, LightValueRange, LightValueUnit};
use crate::hid::error::WriteError;
use crate::hid::light::LightCommand;
use crate::hid::route::DeviceRoute;
use crate::registry::{find_litra, spec_litra_model, LitraModel};
use crate::text::push_str;

verus! {

/// Length of every Litra output report.
pub const REPORT_LEN: usize = 20;
/// Output report ID.
pub const REPORT_ID: u8 = 0x11;
/// Command byte: power on/off.
pub const COMMAND_POWER: u8 = 0x1c;
/// Command byte: brightness in lumens.
pub const COMMAND_BRIGHTNESS: u8 = 0x4c;
/// Command byte: colour temperature in Kelvin.
pub const COMMAND_TEMPERATURE: u8 = 0x9c;
/// Lowest brightness, in lumens.
pub const MIN_BRIGHTNESS_LUMENS: u16 = 20;
/// Highest brightness, in lumens.
pub const MAX_BRIGHTNESS_LUMENS: u16 = 250;
/// Lowest colour temperature, in Kelvin.
pub const MIN_TEMPERATURE_KELVIN: u16 = 2700;
/// Highest colour temperature, in Kelvin.
pub const MAX_TEMPERATURE_KELVIN: u16 = 6500;
/// Colour temperature increment, in Kelvin.
pub const TEMPERATURE_STEP_KELVIN: u16 = 100;

/// Resolve a model only when the complete raw-HID route matches a
/// registered Litra interface.
pub fn litra_model_for_route(route: &DeviceRoute) -> (m: Option<LitraModel>)
    ensures
        m == (match route {
            DeviceRoute::RawHid { vendor_id, product_id, usage_page, usage_id, .. } =>
                spec_litra_model(*vendor_id, *product_id, *usage_page, *usage_id),
            _ => None,
        }),
{
    match route {
        DeviceRoute::RawHid { vendor_id, product_id, usage_page, usage_id, .. } => {
            match find_litra(*vendor_id, *product_id, *usage_page, *usage_id) {
                Some(device) => Some(device.model),
                None => None,
            }
        },
        _ => None,
    }
}

/// A range known to be valid.
fn validated_range(min: u16, max: u16, step: u16, unit: LightValueUnit) -> (r: LightValueRange)
    requires
        min <= max,
        step != 0,
        (max - min) % (step as int) == 0,
        unit != LightValueUnit::Percent,
    ensures
        r.spec_min() == min && r.spec_max() == max && r.spec_step() == step && r.spec_unit() == unit,
{
    match LightValueRange::new(min, max, step, unit) {
        Ok(range) => range,
        Err(_) => vstd::pervasive::unreached(),
    }
}

/// Whether `r` is Litra's brightness range: 20 to 250 lumens in steps of 1.
pub open spec fn is_litra_brightness(r: LightValueRange) -> bool {
    r.spec_min() == MIN_BRIGHTNESS_LUMENS && r.spec_max() == MAX_BRIGHTNESS_LUMENS && r.spec_step() == 1
        && r.spec_unit() == LightValueUnit::Lumens
}

/// Whether `r` is Litra's colour-temperature range: 2700 to 6500 Kelvin in
/// steps of 100.
pub open spec fn is_litra_temperature(r: LightValueRange) -> bool {
    r.spec_min() == MIN_TEMPERATURE_KELVIN && r.spec_max() == MAX_TEMPERATURE_KELVIN
        && r.spec_step() == TEMPERATURE_STEP_KELVIN && r.spec_unit() == LightValueUnit::Kelvin
}

/// The controls every Litra model advertises: power, brightness and colour
/// temperature; no colour and no zones.
pub fn litra_capabilities(model: LitraModel) -> (c: LightCapabilities)
    ensures
        c.power && !c.color && !c.zones,
        c.brightness matches Some(r) && is_litra_brightness(r),
        c.temperature matches Some(r) && is_litra_temperature(r),
{
    match model {
        LitraModel::Glow | LitraModel::Beam => LightCapabilities {
            power: true,
            brightness: Some(validated_range(MIN_BRIGHTNESS_LUMENS, MAX_BRIGHTNESS_LUMENS, 1, LightValueUnit::Lumens)),
            temperature: Some(validated_range(
                MIN_TEMPERATURE_KELVIN,
                MAX_TEMPERATURE_KELVIN,
                TEMPERATURE_STEP_KELVIN,
                LightValueUnit::Kelvin,
            )),
            color: false,
            zones: false,
        },
    }
}

/// The lumens a brightness percentage maps to on Litra's range: rounded to
/// nearest across 20..=250.
pub open spec fn litra_lumens(percent: u8) -> u16 {
    (MIN_BRIGHTNESS_LUMENS + (230 * percent + 50) / 100) as u16
}

/// The report a command encodes to, or `None` when its value is invalid:
/// report ID, the two-byte prefix, the command byte and a big-endian
/// payload, zero-padded to twenty bytes.
pub open spec fn spec_report(command: LightCommand) -> Option<Seq<u8>> {
    let header = seq![REPORT_ID, 0xffu8, 0x04u8];
    match command {
        LightCommand::Power(enabled) => Some(header + seq![COMMAND_POWER, if enabled { 1u8 } else { 0u8 }]
            + Seq::new(15, |_i: int| 0u8)),
        LightCommand::BrightnessPercent(percent) => if percent <= 100 {
            let v = litra_lumens(percent);
            Some(header + seq![COMMAND_BRIGHTNESS, (v / 256) as u8, (v % 256) as u8] + Seq::new(14, |_i: int| 0u8))
        } else {
            None
        },
        LightCommand::TemperatureKelvin(k) => if MIN_TEMPERATURE_KELVIN <= k <= MAX_TEMPERATURE_KELVIN
            && (k - MIN_TEMPERATURE_KELVIN) % (TEMPERATURE_STEP_KELVIN as int) == 0 {
            Some(header + seq![COMMAND_TEMPERATURE, (k / 256) as u8, (k % 256) as u8] + Seq::new(14, |_i: int| 0u8))
        } else {
            None
        },
        LightCommand::BrightnessNative(v) => if MIN_BRIGHTNESS_LUMENS <= v <= MAX_BRIGHTNESS_LUMENS {
            Some(header + seq![COMMAND_BRIGHTNESS, (v / 256) as u8, (v % 256) as u8] + Seq::new(14, |_i: int| 0u8))
        } else {
            None
        },
    }
}

/// The control name and value an invalid command is reported with.
pub open spec fn invalid_value(command: LightCommand) -> (Seq<char>, u16) {
    match command {
        LightCommand::BrightnessPercent(percent) => ("brightness_percent"@, percent as u16),
        LightCommand::TemperatureKelvin(k) => ("temperature_kelvin"@, k),
        LightCommand::BrightnessNative(v) => ("brightness_native"@, v),
        LightCommand::Power(_) => (Seq::empty(), 0u16),
    }
}

fn invalid_light_value(control: &str, value: u16) -> (e: WriteError)
    ensures
        e matches WriteError::InvalidLightValue { control: c, value: v } && c@ == control@ && v == value,
{
    let mut c = String::new();
    push_str(&mut c, control);
    assert(c@ =~= control@);
    WriteError::InvalidLightValue { control: c, value }
}

/// A normalized brightness percentage in a brightness range's native unit.
fn percent_to_native(percent: u8, range: LightValueRange) -> (r: Result<u16, WriteError>)
    requires
        is_litra_brightness(range),
    ensures
        percent <= 100 ==> r == Ok::<u16, WriteError>(litra_lumens(percent)),
        percent > 100 ==> (r matches Err(WriteError::InvalidLightValue { control, value })
            && control@ == "brightness_percent"@ && value == percent as u16),
{
    if percent > 100 {
        return Err(invalid_light_value("brightness_percent", percent as u16));
    }
    match range.native_for_percent(percent) {
        Some(v) => {
            proof {
                let span: int = 230;
                let raw = 20 + (span * percent + 50) / 100;
                assert(raw <= 250) by (nonlinear_arith)
                    requires percent <= 100, raw == 20 + (230 * percent + 50) / 100;
                assert(range.spec_nearest_index(raw as u16) == raw - 20);
            }
            Ok(v)
        },
        None => Err(invalid_light_value("brightness_percent", percent as u16)),
    }
}

/// Encode a semantic command into the exact fixed-width Litra report.
pub fn encode_command(model: LitraModel, command: LightCommand) -> (r: Result<[u8; REPORT_LEN], WriteError>)
    ensures
        spec_report(command) matches Some(bytes) ==> (r matches Ok(report) && report@ == bytes),
        spec_report(command) is None ==> (r matches Err(WriteError::InvalidLightValue { control, value })
            && control@ == invalid_value(command).0 && value == invalid_value(command).1),
{
    let capabilities = litra_capabilities(model);
    let mut report: [u8; REPORT_LEN] = [0; REPORT_LEN];
    report[0] = REPORT_ID;
    report[1] = 0xff;
    report[2] = 0x04;
    match command {
        LightCommand::Power(enabled) => {
            report[3] = COMMAND_POWER;
            report[4] = if enabled { 1 } else { 0 };
        },
        LightCommand::BrightnessPercent(percent) => {
            report[3] = COMMAND_BRIGHTNESS;
            let range = match capabilities.brightness {
                Some(range) => range,
                None => vstd::pervasive::unreached(),
            };
            let lumens = match percent_to_native(percent, range) {
                Ok(v) => v,
                Err(e) => return Err(e),
            };
            report[4] = (lumens / 256) as u8;
            report[5] = (lumens % 256) as u8;
        },
        LightCommand::TemperatureKelvin(kelvin) => {
            report[3] = COMMAND_TEMPERATURE;
            let range = match capabilities.temperature {
                Some(range) => range,
                None => vstd::pervasive::unreached(),
            };
            if !range.contains(kelvin) {
                return Err(invalid_light_value("temperature_kelvin", kelvin));
            }
            report[4] = (kelvin / 256) as u8;
            report[5] = (kelvin % 256) as u8;
        },
        LightCommand::BrightnessNative(value) => {
            report[3] = COMMAND_BRIGHTNESS;
            let range = match capabilities.brightness {
                Some(range) => range,
                None => vstd::pervasive::unreached(),
            };
            if !range.contains(value) {
                return Err(invalid_light_value("brightness_native", value));
            }
            report[4] = (value / 256) as u8;
            report[5] = (value % 256) as u8;
        },
    }
    assert(report@ =~= spec_report(command).unwrap());
    Ok(report)
}

/// The model a route resolves to, as `litra_model_for_route` finds it.
pub open spec fn route_model(route: DeviceRoute) -> Option<LitraModel> {
    match route {
        DeviceRoute::RawHid { vendor_id, product_id, usage_page, usage_id, .. } =>
            spec_litra_model(vendor_id, product_id, usage_page, usage_id),
        _ => None,
    }
}

/// Whether a command for `model` may be sent through `route`: the route
/// must resolve to a Litra model (else `raw_hid_route` is unsupported), and
/// to the same model (else `litra_model` is).
pub fn route_model_check(route: &DeviceRoute, model: LitraModel) -> (r: Result<(), WriteError>)
    ensures
        route_model(*route) == Some(model) <==> r is Ok,
        route_model(*route) is None ==> (r matches Err(WriteError::LightUnsupported { control })
            && control@ == "raw_hid_route"@),
        route_model(*route) matches Some(m) && m != model ==> (r matches Err(WriteError::LightUnsupported { control })
            && control@ == "litra_model"@),
{
    match litra_model_for_route(route) {
        None => {
            let mut c = String::new();
            push_str(&mut c, "raw_hid_route");
            assert(c@ =~= "raw_hid_route"@);
            Err(WriteError::LightUnsupported { control: c })
        },
        Some(route_model) => {
            if route_model != model {
                let mut c = String::new();
                push_str(&mut c, "litra_model");
                assert(c@ =~= "litra_model"@);
                Err(WriteError::LightUnsupported { control: c })
            } else {
                Ok(())
            }
        },
    }
}

} // verus!
