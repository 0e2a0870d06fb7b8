use openlogi::backlight::{BacklightMode, BacklightState, BacklightStatus};
use openlogi::binding::application_target::{ApplicationTarget, ApplicationTargetError};
use openlogi::binding::category::Category;
use openlogi::binding::gesture::GestureDirection;

fn lit() -> BacklightState {
    BacklightState {
        enabled: true,
        mode: BacklightMode::Automatic,
        status: BacklightStatus::AlsAutomatic,
        current_level: 4,
        nb_levels: 8,
    }
}

#[test]
fn a_lit_backlight_is_not_dark() {
    assert!(!lit().is_dark());
}

#[test]
fn software_disable_reads_as_dark() {
    let state = BacklightState { enabled: false, status: BacklightStatus::DisabledBySoftware, ..lit() };
    assert!(state.is_dark());
}

#[test]
fn a_zero_level_reads_as_dark_even_while_enabled() {
    let state = BacklightState { current_level: 0, ..lit() };
    assert!(state.is_dark());
}

#[test]
fn a_saturated_ambient_sensor_reads_as_dark() {
    let state = BacklightState { status: BacklightStatus::AlsSaturated, ..lit() };
    assert!(state.is_dark());
}

#[test]
fn critical_battery_reads_as_dark_and_manual_levels_as_lit() {
    assert!(BacklightState { status: BacklightStatus::DisabledByCriticalBattery, ..lit() }.is_dark());
    assert!(!BacklightState { status: BacklightStatus::PermanentManual, ..lit() }.is_dark());
}

#[test]
fn validates_and_derives_display_name() {
    let target = ApplicationTarget::new("/Applications/Safari.app", "").expect("valid target failed");
    assert_eq!(target.path(), "/Applications/Safari.app");
    assert_eq!(target.display_name(), "Safari");
    assert_eq!(ApplicationTarget::new("  ", "Safari"), Err(ApplicationTargetError::EmptyPath));
}

#[test]
fn launch_targets_are_trimmed_and_keep_a_given_name() {
    let target = ApplicationTarget::new("  https://example.test \n", "  Example ").expect("valid");
    assert_eq!(target.path(), "https://example.test");
    assert_eq!(target.display_name(), "Example");
}

#[test]
fn labels_and_keys_are_stable() {
    assert_eq!(Category::Dpi.label(), "DPI");
    assert_eq!(Category::Mouse.translation_key(), "device.mouse");
    assert_eq!(GestureDirection::all().len(), 5);
    assert_eq!(GestureDirection::all()[4], GestureDirection::Click);
    assert_eq!(GestureDirection::Left.label(), "Left");
    assert_eq!(GestureDirection::Right.translation_key(), "common.right");
}

#[test]
fn a_blank_name_falls_back_to_the_file_stem() {
    let stem = |path: &str| ApplicationTarget::new(path, " ").unwrap().display_name().to_string();
    assert_eq!(stem("/usr/bin/archive.tar.gz"), "archive.tar");
    assert_eq!(stem("/home/u/.bashrc"), ".bashrc");
    assert_eq!(stem("notes"), "notes");
    assert_eq!(stem("/"), "/");
}
