use chip8::keypad::from_keycode;

#[test]
fn keyboard_block_maps_onto_the_pad() {
    let rows: [(&str, [u8; 4]); 4] = [
        ("1234", [0x1, 0x2, 0x3, 0xC]),
        ("qwer", [0x4, 0x5, 0x6, 0xD]),
        ("asdf", [0x7, 0x8, 0x9, 0xE]),
        ("zxcv", [0xA, 0x0, 0xB, 0xF]),
    ];
    for (keys, pad) in rows {
        for (key, expected) in keys.chars().zip(pad) {
            assert_eq!(from_keycode(key as i32), Some(expected), "{}", key);
        }
    }
}

#[test]
fn other_keys_map_to_nothing() {
    for keycode in [0, 27, 0x20, 0x30, 0x35, 0x39, 0x62, 0x51, -1, i32::MAX, i32::MIN, 0x4000_0000] {
        assert_eq!(from_keycode(keycode), None, "{}", keycode);
    }
}

#[test]
fn every_pad_key_has_one_keyboard_key() {
    for key in 0..16u8 {
        let keycodes = (0..0x100).filter(|&keycode| from_keycode(keycode) == Some(key)).count();
        assert_eq!(keycodes, 1);
    }
}
