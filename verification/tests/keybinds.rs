use gameboy::joypad::JoypadInput;
use gameboy::keybinds::{Action, EmuControl, Keybinds, KEY_ARROW_UP, KEY_ENTER, KEY_ESCAPE, KEY_SPACE, KEY_W};

#[test]
fn test_translation() {
    let keybinds = Keybinds::new(vec![
        (KEY_W, Action::Joypad(JoypadInput::Up)),
        (KEY_SPACE, Action::Joypad(JoypadInput::Select)),
    ]);
    assert_eq!(keybinds.translate(KEY_W), Some(Action::Joypad(JoypadInput::Up)));
    assert_eq!(keybinds.translate(KEY_SPACE), Some(Action::Joypad(JoypadInput::Select)));
    assert_eq!(keybinds.translate(KEY_ESCAPE), None);
}

#[test]
fn test_remap() {
    let mut keybinds = Keybinds::new(vec![(KEY_W, Action::Joypad(JoypadInput::Up))]);

    // Map Up to ArrowUp
    keybinds.remap(KEY_ARROW_UP, Action::Joypad(JoypadInput::Up));
    assert_eq!(keybinds.translate(KEY_ARROW_UP), Some(Action::Joypad(JoypadInput::Up)));
    // Old mapping for Up (W) should be automatically unmapped to prevent duplicate
    // key actions
    assert_eq!(keybinds.translate(KEY_W), None);
}

#[test]
fn test_unmap() {
    let mut keybinds = Keybinds::new(vec![(KEY_W, Action::Joypad(JoypadInput::Up))]);
    keybinds.unmap(KEY_W);
    assert_eq!(keybinds.translate(KEY_W), None);
}

#[test]
fn default_bindings_and_later_pairs_win() {
    let keybinds = Keybinds::default();
    assert_eq!(keybinds.translate(KEY_ENTER), Some(Action::Joypad(JoypadInput::Start)));
    assert_eq!(keybinds.translate(KEY_W), Some(Action::Joypad(JoypadInput::Up)));
    assert_eq!(keybinds.get_bindings().len(), 8);
    let keybinds = Keybinds::new(vec![
        (KEY_W, Action::Joypad(JoypadInput::Up)),
        (KEY_W, Action::Control(EmuControl::Pause)),
    ]);
    assert_eq!(keybinds.translate(KEY_W), Some(Action::Control(EmuControl::Pause)));
}

#[test]
fn remap_keeps_other_actions() {
    let mut keybinds = Keybinds::default();
    keybinds.remap(KEY_ESCAPE, Action::Control(EmuControl::Reset));
    assert_eq!(keybinds.translate(KEY_ESCAPE), Some(Action::Control(EmuControl::Reset)));
    assert_eq!(keybinds.get_bindings().len(), 9);
    keybinds.remap(KEY_ESCAPE, Action::Joypad(JoypadInput::Select));
    assert_eq!(keybinds.translate(KEY_SPACE), None);
    assert_eq!(keybinds.get_bindings().len(), 8);
}
