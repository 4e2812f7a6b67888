use avk::input::{
    key_binding, pad_button_input, sdl_keycode_to_keycode, GamepadInput, InputState, Keycode,
    PadAxis, PadButton, Player,
};
use avk::sprite::Sprite;

#[test]
fn player_indices() {
    assert_eq!(Player::Alpha.index(), 0);
    assert_eq!(Player::Bravo.index(), 1);
    assert_eq!(Player::Charlie.index(), 2);
    assert_eq!(Player::Delta.index(), 3);
}

#[test]
fn inputs_start_released() {
    let s = InputState::new();
    assert!(!s.get_input(Player::Alpha, GamepadInput::DirUp));
    assert!(!s.get_input(Player::Delta, GamepadInput::Menu));
}

#[test]
fn sources_or_combine() {
    let mut s = InputState::new();
    s.set_key_state(Player::Alpha, GamepadInput::FaceDown, true);
    assert!(s.get_input(Player::Alpha, GamepadInput::FaceDown));
    s.set_pad_state(Player::Alpha, GamepadInput::FaceDown, true);
    assert!(s.get_input(Player::Alpha, GamepadInput::FaceDown));
    // releasing one source leaves the other holding the input down
    s.set_key_state(Player::Alpha, GamepadInput::FaceDown, false);
    assert!(s.get_input(Player::Alpha, GamepadInput::FaceDown));
    s.set_pad_state(Player::Alpha, GamepadInput::FaceDown, false);
    assert!(!s.get_input(Player::Alpha, GamepadInput::FaceDown));
}

#[test]
fn players_do_not_share_state() {
    let mut s = InputState::new();
    s.set_key_state(Player::Bravo, GamepadInput::DirLeft, true);
    assert!(s.get_input(Player::Bravo, GamepadInput::DirLeft));
    assert!(!s.get_input(Player::Alpha, GamepadInput::DirLeft));
    assert!(!s.get_input(Player::Charlie, GamepadInput::DirLeft));
    assert!(!s.get_input(Player::Bravo, GamepadInput::DirRight));
}

#[test]
fn axis_thresholds_quarter_range() {
    let mut s = InputState::new();
    s.apply_pad_axis(Player::Alpha, PadAxis::Horizontal, 8192);
    assert!(s.get_input(Player::Alpha, GamepadInput::DirRight));
    assert!(!s.get_input(Player::Alpha, GamepadInput::DirLeft));
    // just inside the dead zone
    s.apply_pad_axis(Player::Alpha, PadAxis::Horizontal, 8191);
    assert!(!s.get_input(Player::Alpha, GamepadInput::DirRight));
    assert!(!s.get_input(Player::Alpha, GamepadInput::DirLeft));
    s.apply_pad_axis(Player::Alpha, PadAxis::Horizontal, -8193);
    assert!(s.get_input(Player::Alpha, GamepadInput::DirLeft));
    assert!(!s.get_input(Player::Alpha, GamepadInput::DirRight));
    s.apply_pad_axis(Player::Alpha, PadAxis::Horizontal, -8192);
    assert!(!s.get_input(Player::Alpha, GamepadInput::DirLeft));
}

#[test]
fn vertical_axis_drives_up_and_down() {
    let mut s = InputState::new();
    s.apply_pad_axis(Player::Bravo, PadAxis::Vertical, 20000);
    assert!(s.get_input(Player::Bravo, GamepadInput::DirDown));
    assert!(!s.get_input(Player::Bravo, GamepadInput::DirUp));
    s.apply_pad_axis(Player::Bravo, PadAxis::Vertical, -20000);
    assert!(s.get_input(Player::Bravo, GamepadInput::DirUp));
    assert!(!s.get_input(Player::Bravo, GamepadInput::DirDown));
}

#[test]
fn keycodes_follow_character_codes() {
    assert_eq!(sdl_keycode_to_keycode(13), Keycode::Return);
    assert_eq!(sdl_keycode_to_keycode(27), Keycode::Escape);
    assert_eq!(sdl_keycode_to_keycode(32), Keycode::Space);
    assert_eq!(sdl_keycode_to_keycode(97), Keycode::A);
    assert_eq!(sdl_keycode_to_keycode(122), Keycode::Z);
    assert_eq!(sdl_keycode_to_keycode(48), Keycode::Num0);
    assert_eq!(sdl_keycode_to_keycode(57), Keycode::Num9);
    assert_eq!(sdl_keycode_to_keycode(44), Keycode::Comma);
    assert_eq!(sdl_keycode_to_keycode(46), Keycode::Period);
    assert_eq!(sdl_keycode_to_keycode(0x40000046), Keycode::PrintScreen);
    assert_eq!(sdl_keycode_to_keycode(0x40000048), Keycode::PauseBreak);
    assert_eq!(sdl_keycode_to_keycode(1), Keycode::Unknown);
    assert_eq!(sdl_keycode_to_keycode(0xDEAD), Keycode::Unknown);
}

#[test]
fn wasd_cluster_drives_first_player() {
    assert_eq!(key_binding(Keycode::W), Some((Player::Alpha, GamepadInput::DirUp)));
    assert_eq!(key_binding(Keycode::A), Some((Player::Alpha, GamepadInput::DirLeft)));
    assert_eq!(key_binding(Keycode::S), Some((Player::Alpha, GamepadInput::DirDown)));
    assert_eq!(key_binding(Keycode::D), Some((Player::Alpha, GamepadInput::DirRight)));
    assert_eq!(key_binding(Keycode::Q), Some((Player::Alpha, GamepadInput::TriggerLeft)));
    assert_eq!(key_binding(Keycode::E), Some((Player::Alpha, GamepadInput::TriggerRight)));
    assert_eq!(key_binding(Keycode::X), Some((Player::Alpha, GamepadInput::FaceUp)));
    assert_eq!(key_binding(Keycode::V), Some((Player::Alpha, GamepadInput::FaceDown)));
}

#[test]
fn ijkl_cluster_drives_second_player() {
    assert_eq!(key_binding(Keycode::I), Some((Player::Bravo, GamepadInput::DirUp)));
    assert_eq!(key_binding(Keycode::J), Some((Player::Bravo, GamepadInput::DirLeft)));
    assert_eq!(key_binding(Keycode::K), Some((Player::Bravo, GamepadInput::DirDown)));
    assert_eq!(key_binding(Keycode::L), Some((Player::Bravo, GamepadInput::DirRight)));
    assert_eq!(key_binding(Keycode::Comma), Some((Player::Bravo, GamepadInput::FaceUp)));
    assert_eq!(key_binding(Keycode::Period), Some((Player::Bravo, GamepadInput::FaceDown)));
    assert_eq!(key_binding(Keycode::Return), None);
    assert_eq!(key_binding(Keycode::Num5), None);
}

#[test]
fn gamepad_buttons_map_to_logical_inputs() {
    assert_eq!(pad_button_input(PadButton::North), Some(GamepadInput::FaceUp));
    assert_eq!(pad_button_input(PadButton::South), Some(GamepadInput::FaceDown));
    assert_eq!(pad_button_input(PadButton::DpadLeft), Some(GamepadInput::DirLeft));
    assert_eq!(pad_button_input(PadButton::LeftShoulder), Some(GamepadInput::TriggerLeft));
    assert_eq!(pad_button_input(PadButton::Back), Some(GamepadInput::Menu));
    assert_eq!(pad_button_input(PadButton::Start), Some(GamepadInput::Menu));
    assert_eq!(pad_button_input(PadButton::Other), None);
}

#[test]
fn transform_byte_packs_palette_and_flips() {
    let mut s = Sprite { image_id: 0, palette_transform: 0b0101, x: 0, y: 0 };
    assert_eq!(s.get_palette_id(), 5);
    assert!(!s.get_flip_x());
    assert!(!s.get_flip_y());
    s.set_flip_x(true);
    assert!(s.get_flip_x());
    assert!(!s.get_flip_y());
    assert_eq!(s.get_palette_id(), 5);
    assert_eq!(s.palette_transform, 0b0010_0101);
    s.set_flip_y(true);
    assert!(s.get_flip_x());
    assert!(s.get_flip_y());
    assert_eq!(s.palette_transform, 0b0011_0101);
    s.set_flip_x(false);
    assert!(!s.get_flip_x());
    assert!(s.get_flip_y());
    assert_eq!(s.get_palette_id(), 5);
    assert_eq!(s.palette_transform, 0b0001_0101);
}

#[test]
fn flip_setters_preserve_padding_bits_and_are_idempotent() {
    let mut s = Sprite { image_id: 3, palette_transform: 0b1100_0101, x: 1, y: 2 };
    s.set_flip_x(true);
    assert_eq!(s.palette_transform, 0b1110_0101);
    s.set_flip_x(true);
    assert_eq!(s.palette_transform, 0b1110_0101);
    s.set_flip_y(true);
    assert_eq!(s.palette_transform, 0b1111_0101);
    s.set_flip_y(true);
    assert_eq!(s.palette_transform, 0b1111_0101);
    s.set_flip_x(false);
    assert_eq!(s.palette_transform, 0b1101_0101);
    s.set_flip_x(false);
    assert_eq!(s.palette_transform, 0b1101_0101);
    s.set_flip_y(false);
    assert_eq!(s.palette_transform, 0b1100_0101);
    assert_eq!(s.image_id, 3);
    assert_eq!((s.x, s.y), (1, 2));
}

#[test]
fn sprite_masks_match_layout() {
    assert_eq!(Sprite::FLIP_X_MASK, 0b0010_0000);
    assert_eq!(Sprite::FLIP_Y_MASK, 0b0001_0000);
    assert_eq!(Sprite::PALETTE_MASK, 0b1111);
}
