use openlogi::binding::action::Action;
use openlogi::binding::gesture::GestureDirection;
use openlogi::binding::value::{Binding, GestureMap, LongPressBinding};

#[test]
fn click_action_of_each_binding_shape() {
    assert_eq!(Binding::Single(Action::BrowserBack).click_action(), Action::BrowserBack);
    let long = LongPressBinding::new(Action::BrowserBack, Action::Nothing);
    assert_eq!(Binding::LongPress(long).click_action(), Action::BrowserBack);
    assert_eq!(*long.short(), Action::BrowserBack);
    assert_eq!(*long.long(), Action::Nothing);
    let mut map = GestureMap::empty();
    map.insert(GestureDirection::Up, Action::BrowserBack);
    assert_eq!(Binding::Gesture(map).click_action(), Action::Nothing);
}

#[test]
fn direction_action_only_on_gesture_bindings() {
    let mut map = GestureMap::empty();
    map.insert(GestureDirection::Left, Action::BrowserBack);
    let gesture = Binding::Gesture(map);
    assert_eq!(gesture.direction_action(GestureDirection::Left), Some(&Action::BrowserBack));
    assert_eq!(gesture.direction_action(GestureDirection::Right), None);
    assert!(gesture.is_gesture());
    let single = Binding::Single(Action::BrowserBack);
    assert_eq!(single.direction_action(GestureDirection::Click), None);
    assert!(!single.is_gesture());
}

#[test]
fn upgrade_then_demote_restores_single_binding() {
    let mut binding = Binding::from(Action::BrowserBack);
    binding.upgrade_to_gesture();
    assert!(binding.is_gesture());
    assert_eq!(binding.direction_action(GestureDirection::Click), Some(&Action::BrowserBack));
    assert_eq!(binding.direction_action(GestureDirection::Up), None);
    binding.upgrade_to_gesture();
    assert_eq!(binding.click_action(), Action::BrowserBack);
    binding.demote_to_single(Action::Nothing);
    assert_eq!(binding, Binding::Single(Action::BrowserBack));
}

#[test]
fn upgrade_of_long_press_keeps_only_short_action() {
    let mut binding = Binding::LongPress(LongPressBinding::new(Action::Nothing, Action::BrowserBack));
    binding.upgrade_to_gesture();
    assert_eq!(binding.click_action(), Action::Nothing);
    assert_eq!(binding.direction_action(GestureDirection::Click), Some(&Action::Nothing));
}

#[test]
fn demote_without_click_uses_fallback_and_leaves_others_alone() {
    let mut map = GestureMap::empty();
    map.insert(GestureDirection::Down, Action::Nothing);
    let mut binding = Binding::Gesture(map);
    binding.demote_to_single(Action::BrowserBack);
    assert_eq!(binding, Binding::Single(Action::BrowserBack));
    let long = LongPressBinding::new(Action::BrowserBack, Action::Nothing);
    let mut unchanged = Binding::LongPress(long);
    unchanged.demote_to_single(Action::Nothing);
    assert_eq!(unchanged, Binding::LongPress(long));
}

#[test]
fn filling_gesture_defaults_keeps_user_choices() {
    let mut defaults = GestureMap::empty();
    for d in [
        GestureDirection::Up,
        GestureDirection::Down,
        GestureDirection::Left,
        GestureDirection::Right,
        GestureDirection::Click,
    ] {
        defaults.insert(d, Action::BrowserBack);
    }
    let mut map = GestureMap::empty();
    map.insert(GestureDirection::Up, Action::Nothing);
    let mut binding = Binding::Gesture(map);
    binding.fill_gesture_defaults(&defaults);
    assert_eq!(binding.direction_action(GestureDirection::Up), Some(&Action::Nothing));
    assert_eq!(binding.direction_action(GestureDirection::Down), Some(&Action::BrowserBack));
    assert_eq!(binding.direction_action(GestureDirection::Click), Some(&Action::BrowserBack));

    let mut single = Binding::Single(Action::Nothing);
    single.fill_gesture_defaults(&defaults);
    assert_eq!(single, Binding::Single(Action::Nothing));
}
