use openlogi::config::key_trigger::{keycode_to_name, KeyModifiers, KeyTrigger};

#[test]
fn triggers_parse_modifiers_in_any_case_and_aliases() {
    let t: KeyTrigger = "Shift + CMD+f5".parse().expect("valid trigger");
    assert_eq!(t.keycode, 0x60);
    assert_eq!(t.modifiers, KeyModifiers { shift: true, control: false, option: false, command: true });
    assert_eq!(t.to_string(), "shift+command+f5");
    let plain = KeyTrigger::parse("esc").expect("valid");
    assert!(plain.modifiers.is_empty());
    assert_eq!(plain.to_string(), "esc");
    assert_eq!(KeyTrigger::parse("ctrl+alt+f19").expect("valid").to_string(), "control+option+f19");
}

#[test]
fn trigger_errors_name_the_bad_segment() {
    assert_eq!(KeyTrigger::parse("shift++f1").unwrap_err().0, "empty segment");
    assert_eq!(KeyTrigger::parse("").unwrap_err().0, "empty segment");
    assert_eq!(KeyTrigger::parse("hyper+f1").unwrap_err().0, "unknown modifier 'hyper'");
    assert_eq!(KeyTrigger::parse("shift+F20").unwrap_err().0, "unknown key 'f20'");
}

#[test]
fn every_named_key_round_trips_through_its_text() {
    for code in 0..=0xffu16 {
        let Some(name) = keycode_to_name(code) else { continue };
        let trigger = KeyTrigger {
            keycode: code,
            modifiers: KeyModifiers { shift: code % 2 == 0, control: true, option: false, command: code % 3 == 0 },
        };
        assert!(trigger.to_string().ends_with(name));
        assert_eq!(KeyTrigger::parse(&trigger.to_string()).expect("round trip"), trigger);
    }
}
