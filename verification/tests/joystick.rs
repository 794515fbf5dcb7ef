use spectrusty_tutorial::joystick::{JoystickChoice, JoystickKind, MAX_JOYSTICK_INDEX};

#[test]
fn indices_count_through_the_joysticks_of_all_devices() {
    let choice = |device, sub_joy| JoystickChoice { device, sub_joy };
    assert_eq!(JoystickChoice::with_index(0), choice(Some(JoystickKind::Kempston), 0));
    assert_eq!(JoystickChoice::with_index(1), choice(Some(JoystickKind::Fuller), 0));
    assert_eq!(JoystickChoice::with_index(2), choice(Some(JoystickKind::Sinclair), 0));
    assert_eq!(JoystickChoice::with_index(3), choice(Some(JoystickKind::Sinclair), 1));
    assert_eq!(JoystickChoice::with_index(4), choice(Some(JoystickKind::Cursor), 0));
    assert_eq!(MAX_JOYSTICK_INDEX, 4);
}

#[test]
fn other_indices_choose_no_joystick() {
    for index in [5, 6, 98, usize::MAX] {
        assert_eq!(JoystickChoice::with_index(index), JoystickChoice { device: None, sub_joy: 0 });
    }
}

#[test]
fn devices_have_names() {
    assert_eq!(JoystickKind::Kempston.name(), "Kempston");
    assert_eq!(JoystickKind::Fuller.name(), "Fuller");
    assert_eq!(JoystickKind::Sinclair.name(), "Sinclair");
    assert_eq!(JoystickKind::Cursor.name(), "Cursor");
}

#[test]
fn only_the_sinclair_device_holds_two_joysticks() {
    assert_eq!(JoystickKind::Kempston.len(), 1);
    assert_eq!(JoystickKind::Fuller.len(), 1);
    assert_eq!(JoystickKind::Sinclair.len(), 2);
    assert_eq!(JoystickKind::Cursor.len(), 1);
}
