//! Semantic standalone-light commands.

use vstd::prelude::*;

use crate::config::settings::LightSettings;
use crate::device::LightCapabilities;

verus! {

/// A semantic command accepted by the standalone-light layer.
#[derive(Debug, Clone, Copy, PartialEq, Eq, Structural)]
pub enum LightCommand {
    /// Turn the light on or off.
    Power(bool),
    /// Set normalized brightness from 0 to 100 percent.
    BrightnessPercent(u8),
    /// Set colour temperature in Kelvin.
    TemperatureKelvin(u16),
    /// Set brightness in the native unit advertised by the selected model.
    BrightnessNative(u16),
}

/// The commands that apply `settings` to a light with `capabilities`: power,
/// then brightness, then temperature, each only when advertised (and the
/// temperature only when one is set).
pub open spec fn spec_commands_for(settings: LightSettings, capabilities: LightCapabilities) -> Seq<LightCommand> {
    (if capabilities.power { seq![LightCommand::Power(settings.enabled)] } else { Seq::empty() })
        + (if capabilities.brightness is Some { seq![LightCommand::BrightnessPercent(settings.brightness_percent)] } else { Seq::empty() })
        + (match (capabilities.temperature, settings.temperature_kelvin) {
            (Some(_), Some(kelvin)) => seq![LightCommand::TemperatureKelvin(kelvin)],
            _ => Seq::empty(),
        })
}

/// Expand saved settings into only the controls a standalone light
/// advertises; unsupported controls are omitted rather than sent.
pub fn commands_for_light_settings(settings: LightSettings, capabilities: LightCapabilities) -> (commands: Vec<LightCommand>)
    ensures
        commands@ == spec_commands_for(settings, capabilities),
{
    let mut commands: Vec<LightCommand> = Vec::new();
    if capabilities.power {
        commands.push(LightCommand::Power(settings.enabled));
    }
    if capabilities.brightness.is_some() {
        commands.push(LightCommand::BrightnessPercent(settings.brightness_percent));
    }
    if capabilities.temperature.is_some() {
        if let Some(kelvin) = settings.temperature_kelvin {
            commands.push(LightCommand::TemperatureKelvin(kelvin));
        }
    }
    assert(commands@ =~= spec_commands_for(settings, capabilities));
    commands
}

} // verus!
