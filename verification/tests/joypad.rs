use gameboy::joypad::{ButtonType, Joypad, Key};

#[test]
fn test_as_byte_action() {
    let mut joypad = Joypad::default();
    joypad.selected_buttons = ButtonType::Action;

    assert_eq!(joypad.as_byte(), 0b1101_1111, "No Buttons");

    joypad.start_pressed = true;
    assert_eq!(joypad.as_byte(), 0b1101_0111, "Start button");

    joypad.select_pressed = true;
    assert_eq!(joypad.as_byte(), 0b1101_0011, "Select button");

    joypad.b_pressed = true;
    assert_eq!(joypad.as_byte(), 0b1101_0001, "B button");

    joypad.a_pressed = true;
    assert_eq!(joypad.as_byte(), 0b1101_0000, "A button");
}

#[test]
fn test_as_byte_direction() {
    let mut joypad = Joypad::default();
    joypad.selected_buttons = ButtonType::Direction;

    assert_eq!(joypad.as_byte(), 0b1110_1111, "No Buttons");

    joypad.down_pressed = true;
    assert_eq!(joypad.as_byte(), 0b1110_0111, "Down button");

    joypad.up_pressed = true;
    assert_eq!(joypad.as_byte(), 0b1110_0011, "Up button");

    joypad.left_pressed = true;
    assert_eq!(joypad.as_byte(), 0b1110_0001, "Left button");

    joypad.right_pressed = true;
    assert_eq!(joypad.as_byte(), 0b1110_0000, "Right button");
}

#[test]
fn test_as_byte_none() {
    let joypad = Joypad::default();

    assert_eq!(joypad.as_byte(), 0xFF);
}

#[test]
fn test_set_inputs_maps_keys_to_buttons() {
    let mut joypad = Joypad::default();
    joypad.selected_buttons = ButtonType::Direction;
    joypad.set_inputs(&vec![Key::Down, Key::Right]);
    assert_eq!(joypad.as_byte(), 0b1110_0110);

    joypad.selected_buttons = ButtonType::Action;
    assert_eq!(joypad.as_byte(), 0b1101_1111);

    joypad.set_inputs(&vec![Key::Return, Key::LShift, Key::A, Key::S]);
    assert_eq!(joypad.as_byte(), 0b1101_0000);
    assert!(!joypad.down_pressed);
    assert!(!joypad.right_pressed);

    joypad.set_inputs(&vec![Key::RShift]);
    assert_eq!(joypad.as_byte(), 0b1101_1011);

    joypad.set_inputs(&vec![]);
    assert_eq!(joypad.as_byte(), 0b1101_1111);
}

#[test]
fn test_reset_buttons_keeps_the_selection() {
    let mut joypad = Joypad::default();
    joypad.selected_buttons = ButtonType::Action;
    joypad.set_inputs(&vec![Key::S, Key::Up]);
    joypad.reset_buttons();
    assert_eq!(joypad.selected_buttons, ButtonType::Action);
    assert_eq!(joypad.as_byte(), 0b1101_1111);
    assert!(!joypad.up_pressed);
}
