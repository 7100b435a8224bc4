use korangar::settings::keybinding::{
    BoundKey, KeyCode, KeybindingCapabilities, KeybindingSettings, WindowToggle, BOUND_KEY_COUNT,
};

#[test]
fn every_bound_key_round_trips_through_its_key_code() {
    let capabilities = KeybindingCapabilities::default();
    let keys = capabilities.available_keys();
    assert_eq!(keys.len(), BOUND_KEY_COUNT);
    for key in keys {
        assert_eq!(BoundKey::from_key_code(key.to_key_code()), Some(*key));
    }
}

#[test]
fn bound_keys_have_distinct_texts_and_codes() {
    let capabilities = KeybindingCapabilities::default();
    let keys = capabilities.available_keys();
    for (i, a) in keys.iter().enumerate() {
        for b in keys.iter().skip(i + 1) {
            assert_ne!(a.text(), b.text());
            assert_ne!(a.to_key_code(), b.to_key_code());
        }
    }
}

#[test]
fn key_texts() {
    assert_eq!(BoundKey::F1.text(), "F1");
    assert_eq!(BoundKey::A.text(), "A");
    assert_eq!(BoundKey::Num0.text(), "0");
    assert_eq!(BoundKey::Z.to_key_code(), KeyCode::KeyZ);
    assert_eq!(BoundKey::Num9.to_key_code(), KeyCode::Digit9);
}

#[test]
fn unbindable_key_has_no_bound_key() {
    assert_eq!(BoundKey::from_key_code(KeyCode::Other), None);
}

#[test]
fn default_hotbar_is_function_keys() {
    let settings = KeybindingSettings::default();
    assert_eq!(
        settings.hotbar_slots(),
        [
            BoundKey::F1,
            BoundKey::F2,
            BoundKey::F3,
            BoundKey::F4,
            BoundKey::F5,
            BoundKey::F6,
            BoundKey::F7,
            BoundKey::F8,
            BoundKey::F9,
            BoundKey::F10
        ]
    );
}

#[test]
fn default_window_toggles() {
    let settings = KeybindingSettings::default();
    assert_eq!(settings.find_window_toggle(KeyCode::KeyE), Some(WindowToggle::Inventory));
    assert_eq!(settings.find_window_toggle(KeyCode::KeyQ), Some(WindowToggle::Equipment));
    assert_eq!(settings.find_window_toggle(KeyCode::KeyM), Some(WindowToggle::Minimap));
    assert_eq!(settings.find_window_toggle(KeyCode::KeyX), None);
    assert_eq!(settings.find_window_toggle(KeyCode::Other), None);
}

#[test]
fn first_window_toggle_wins_on_shared_key() {
    let mut settings = KeybindingSettings::default();
    settings.toggle_party = BoundKey::E;
    assert_eq!(settings.find_window_toggle(KeyCode::KeyE), Some(WindowToggle::Inventory));
    settings.toggle_inventory = BoundKey::X;
    assert_eq!(settings.find_window_toggle(KeyCode::KeyE), Some(WindowToggle::Party));
}
