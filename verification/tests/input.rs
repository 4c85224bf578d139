use global_input::input::{Key, Modifier, Modifiers, MouseButton, NUM_MOUSE_BUTTONS};

const ALL_BUTTONS: [MouseButton; 9] = [
    MouseButton::Unknown,
    MouseButton::Left,
    MouseButton::Right,
    MouseButton::Middle,
    MouseButton::X1,
    MouseButton::X2,
    MouseButton::Button6,
    MouseButton::Button7,
    MouseButton::Button8,
];

#[test]
fn buttons_are_indexed_in_declaration_order() {
    assert_eq!(NUM_MOUSE_BUTTONS, 9);
    for (position, button) in ALL_BUTTONS.iter().enumerate() {
        assert_eq!(button.index(), position);
    }
}

#[test]
fn button_index_round_trips() {
    for button in ALL_BUTTONS {
        assert_eq!(MouseButton::from_index(button.index()), button);
    }
    for index in 0..NUM_MOUSE_BUTTONS {
        assert_eq!(MouseButton::from_index(index).index(), index);
    }
}

#[test]
fn index_past_the_last_button_is_unknown() {
    assert_eq!(MouseButton::from_index(9), MouseButton::Unknown);
    assert_eq!(MouseButton::from_index(usize::MAX), MouseButton::Unknown);
}

#[test]
fn no_modifier_is_held_at_first() {
    let modifiers = Modifiers::none();
    assert!(!modifiers.contains(Modifier::Ctrl));
    assert!(!modifiers.contains(Modifier::Shift));
    assert!(!modifiers.contains(Modifier::Alt));
    assert!(!modifiers.contains(Modifier::Gui));
}

#[test]
fn insert_and_remove_change_one_modifier() {
    let mut modifiers = Modifiers::none();
    modifiers.insert(Modifier::Shift);
    assert_eq!(modifiers, Modifiers { ctrl: false, shift: true, alt: false, gui: false });
    modifiers.insert(Modifier::Gui);
    modifiers.insert(Modifier::Shift);
    assert_eq!(modifiers, Modifiers { ctrl: false, shift: true, alt: false, gui: true });
    assert!(modifiers.contains(Modifier::Shift));
    assert!(!modifiers.contains(Modifier::Ctrl));
    modifiers.remove(Modifier::Shift);
    modifiers.remove(Modifier::Alt);
    assert_eq!(modifiers, Modifiers { ctrl: false, shift: false, alt: false, gui: true });
}

#[test]
fn both_keys_of_a_modifier_stand_for_it() {
    assert_eq!(Key::LCtrl.modifier(), Some(Modifier::Ctrl));
    assert_eq!(Key::RCtrl.modifier(), Some(Modifier::Ctrl));
    assert_eq!(Key::LShift.modifier(), Some(Modifier::Shift));
    assert_eq!(Key::RShift.modifier(), Some(Modifier::Shift));
    assert_eq!(Key::LAlt.modifier(), Some(Modifier::Alt));
    assert_eq!(Key::RAlt.modifier(), Some(Modifier::Alt));
    assert_eq!(Key::LGui.modifier(), Some(Modifier::Gui));
    assert_eq!(Key::RGui.modifier(), Some(Modifier::Gui));
    assert_eq!(Key::Other(97).modifier(), None);
}
