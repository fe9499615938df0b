use key_debounce::windows::keys::{get_all_keys_code, parse_name, MappedKey};

/// The virtual-key codes that have a name, each with its key.
fn named_codes() -> Vec<(u16, MappedKey)> {
    vec![
        (0x08, MappedKey::KEY_BACKSPACE),
        (0x09, MappedKey::KEY_TAB),
        (0x0D, MappedKey::KEY_ENTER),
        (0x1B, MappedKey::KEY_ESC),
        (0x20, MappedKey::KEY_SPACE),
        (0x21, MappedKey::KEY_PAGEUP),
        (0x22, MappedKey::KEY_PAGEDOWN),
        (0x23, MappedKey::KEY_END),
        (0x24, MappedKey::KEY_HOME),
        (0x25, MappedKey::KEY_LEFT),
        (0x26, MappedKey::KEY_UP),
        (0x27, MappedKey::KEY_RIGHT),
        (0x28, MappedKey::KEY_DOWN),
        (0x2D, MappedKey::KEY_INSERT),
        (0x2E, MappedKey::KEY_DELETE),
        (0x30, MappedKey::KEY_0),
        (0x31, MappedKey::KEY_1),
        (0x32, MappedKey::KEY_2),
        (0x33, MappedKey::KEY_3),
        (0x34, MappedKey::KEY_4),
        (0x35, MappedKey::KEY_5),
        (0x36, MappedKey::KEY_6),
        (0x37, MappedKey::KEY_7),
        (0x38, MappedKey::KEY_8),
        (0x39, MappedKey::KEY_9),
        (0x41, MappedKey::KEY_A),
        (0x42, MappedKey::KEY_B),
        (0x43, MappedKey::KEY_C),
        (0x44, MappedKey::KEY_D),
        (0x45, MappedKey::KEY_E),
        (0x46, MappedKey::KEY_F),
        (0x47, MappedKey::KEY_G),
        (0x48, MappedKey::KEY_H),
        (0x49, MappedKey::KEY_I),
        (0x4A, MappedKey::KEY_J),
        (0x4B, MappedKey::KEY_K),
        (0x4C, MappedKey::KEY_L),
        (0x4D, MappedKey::KEY_M),
        (0x4E, MappedKey::KEY_N),
        (0x4F, MappedKey::KEY_O),
        (0x50, MappedKey::KEY_P),
        (0x51, MappedKey::KEY_Q),
        (0x52, MappedKey::KEY_R),
        (0x53, MappedKey::KEY_S),
        (0x54, MappedKey::KEY_T),
        (0x55, MappedKey::KEY_U),
        (0x56, MappedKey::KEY_V),
        (0x57, MappedKey::KEY_W),
        (0x58, MappedKey::KEY_X),
        (0x59, MappedKey::KEY_Y),
        (0x5A, MappedKey::KEY_Z),
        (0x5B, MappedKey::KEY_LEFTMETA),
        (0x5C, MappedKey::KEY_RIGHTMETA),
        (0x6A, MappedKey::KEY_MULTIPLY),
        (0x60, MappedKey::KEY_KP0),
        (0x61, MappedKey::KEY_KP1),
        (0x62, MappedKey::KEY_KP2),
        (0x63, MappedKey::KEY_KP3),
        (0x64, MappedKey::KEY_KP4),
        (0x65, MappedKey::KEY_KP5),
        (0x66, MappedKey::KEY_KP6),
        (0x67, MappedKey::KEY_KP7),
        (0x68, MappedKey::KEY_KP8),
        (0x69, MappedKey::KEY_KP9),
        (0x70, MappedKey::KEY_F1),
        (0x71, MappedKey::KEY_F2),
        (0x72, MappedKey::KEY_F3),
        (0x73, MappedKey::KEY_F4),
        (0x74, MappedKey::KEY_F5),
        (0x75, MappedKey::KEY_F6),
        (0x76, MappedKey::KEY_F7),
        (0x77, MappedKey::KEY_F8),
        (0x78, MappedKey::KEY_F9),
        (0x79, MappedKey::KEY_F10),
        (0x7A, MappedKey::KEY_F11),
        (0x7B, MappedKey::KEY_F12),
        (0x90, MappedKey::KEY_NUMLOCK),
        (0x91, MappedKey::KEY_SCROLLLOCK),
        (0x14, MappedKey::KEY_CAPSLOCK),
        (0xA0, MappedKey::KEY_LEFTSHIFT),
        (0xA1, MappedKey::KEY_RIGHTSHIFT),
        (0xA2, MappedKey::KEY_LEFTCTRL),
        (0xA3, MappedKey::KEY_RIGHTCTRL),
        (0xA4, MappedKey::KEY_LEFTALT),
        (0xA5, MappedKey::KEY_RIGHTALT),
        (0xAD, MappedKey::KEY_MUTE),
        (0xAE, MappedKey::KEY_VOLUMEDOWN),
        (0xAF, MappedKey::KEY_VOLUMEUP),
        (0xB0, MappedKey::KEY_NEXTSONG),
        (0xB1, MappedKey::KEY_PREVIOUSSONG),
        (0xB2, MappedKey::KEY_STOPCD),
        (0xB3, MappedKey::KEY_PLAYPAUSE),
        (0xC0, MappedKey::KEY_GRAVE),
        (0xBF, MappedKey::KEY_SLASH),
        (0xDC, MappedKey::KEY_BACKSLASH),
        (0xBC, MappedKey::KEY_COMMA),
        (0xBE, MappedKey::KEY_DOT),
        (0xBD, MappedKey::KEY_MINUS),
        (0xDE, MappedKey::KEY_APOSTROPHE),
        (0xBA, MappedKey::KEY_SEMICOLON),
        (0xDB, MappedKey::KEY_LEFTBRACE),
        (0xDD, MappedKey::KEY_RIGHTBRACE),
        (0xBB, MappedKey::KEY_EQUAL),
    ]
}

#[test]
fn windows_named_codes_become_their_keys() {
    let table = named_codes();
    assert_eq!(table.len(), 103);
    for (code, key) in table {
        assert_eq!(MappedKey::from(code), key);
        assert_eq!(key.code(), code);
    }
}

#[test]
fn windows_every_other_code_is_kept_in_key_other() {
    let table = named_codes();
    let mut others = 0;
    for code in 0..=u16::MAX {
        let key = MappedKey::from(code);
        assert_eq!(key.code(), code);
        if table.iter().any(|(named, _)| *named == code) {
            assert!(!matches!(key, MappedKey::KEY_OTHER(_)));
            assert_eq!(MappedKey::from(key.code()), key);
        } else {
            assert_eq!(key, MappedKey::KEY_OTHER(code));
            assert_eq!(key.name(), None);
            others += 1;
        }
    }
    assert_eq!(others, 65536 - 103);
    assert_eq!(MappedKey::from(0x00), MappedKey::KEY_OTHER(0));
    assert_eq!(MappedKey::from(0x07), MappedKey::KEY_OTHER(7));
    assert_eq!(MappedKey::from(0xFFFF), MappedKey::KEY_OTHER(0xFFFF));
    assert_eq!(MappedKey::KEY_OTHER(0x41).code(), 0x41);
}

#[test]
fn windows_all_keys_in_the_order_of_the_key_list() {
    let names: Vec<String> =
        get_all_keys_code().iter().map(|key| format!("{:?}", key)).collect();
    let expected = vec![
        "KEY_ESC",
        "KEY_1",
        "KEY_2",
        "KEY_3",
        "KEY_4",
        "KEY_5",
        "KEY_6",
        "KEY_7",
        "KEY_8",
        "KEY_9",
        "KEY_0",
        "KEY_MINUS",
        "KEY_EQUAL",
        "KEY_BACKSPACE",
        "KEY_MULTIPLY",
        "KEY_TAB",
        "KEY_Q",
        "KEY_W",
        "KEY_E",
        "KEY_R",
        "KEY_T",
        "KEY_Y",
        "KEY_U",
        "KEY_I",
        "KEY_O",
        "KEY_P",
        "KEY_LEFTBRACE",
        "KEY_RIGHTBRACE",
        "KEY_ENTER",
        "KEY_LEFTCTRL",
        "KEY_A",
        "KEY_S",
        "KEY_D",
        "KEY_F",
        "KEY_G",
        "KEY_H",
        "KEY_J",
        "KEY_K",
        "KEY_L",
        "KEY_SEMICOLON",
        "KEY_APOSTROPHE",
        "KEY_GRAVE",
        "KEY_LEFTSHIFT",
        "KEY_BACKSLASH",
        "KEY_Z",
        "KEY_X",
        "KEY_C",
        "KEY_V",
        "KEY_B",
        "KEY_N",
        "KEY_M",
        "KEY_COMMA",
        "KEY_DOT",
        "KEY_SLASH",
        "KEY_RIGHTSHIFT",
        "KEY_LEFTALT",
        "KEY_SPACE",
        "KEY_CAPSLOCK",
        "KEY_F1",
        "KEY_F2",
        "KEY_F3",
        "KEY_F4",
        "KEY_F5",
        "KEY_F6",
        "KEY_F7",
        "KEY_F8",
        "KEY_F9",
        "KEY_F10",
        "KEY_NUMLOCK",
        "KEY_SCROLLLOCK",
        "KEY_KP7",
        "KEY_KP8",
        "KEY_KP9",
        "KEY_KP4",
        "KEY_KP5",
        "KEY_KP6",
        "KEY_KP1",
        "KEY_KP2",
        "KEY_KP3",
        "KEY_KP0",
        "KEY_F11",
        "KEY_F12",
        "KEY_HOME",
        "KEY_UP",
        "KEY_PAGEUP",
        "KEY_LEFT",
        "KEY_RIGHT",
        "KEY_END",
        "KEY_DOWN",
        "KEY_PAGEDOWN",
        "KEY_INSERT",
        "KEY_DELETE",
        "KEY_MUTE",
        "KEY_VOLUMEDOWN",
        "KEY_VOLUMEUP",
        "KEY_PLAYPAUSE",
        "KEY_STOPCD",
        "KEY_NEXTSONG",
        "KEY_PREVIOUSSONG",
        "KEY_RIGHTCTRL",
        "KEY_RIGHTALT",
        "KEY_LEFTMETA",
        "KEY_RIGHTMETA",
    ];
    assert_eq!(names, expected);
}

#[test]
fn windows_all_keys_are_named_and_differ() {
    let keys = get_all_keys_code();
    assert_eq!(keys.len(), 103);
    for (i, key) in keys.iter().enumerate() {
        assert!(!matches!(key, MappedKey::KEY_OTHER(_)));
        assert!(keys.iter().skip(i + 1).all(|later| later != key));
        assert_eq!(MappedKey::from(key.code()), *key);
    }
}

#[test]
fn windows_name_is_the_name_of_the_variant() {
    for key in get_all_keys_code() {
        assert_eq!(key.name().map(String::from), Some(format!("{:?}", key)));
    }
    assert_eq!(MappedKey::KEY_ESC.name(), Some("KEY_ESC"));
    assert_eq!(MappedKey::KEY_RIGHTMETA.name(), Some("KEY_RIGHTMETA"));
    assert_eq!(MappedKey::KEY_OTHER(7).name(), None);
}

#[test]
fn windows_name_round_trip() {
    for key in get_all_keys_code() {
        let name = key.name().unwrap();
        let parsed = parse_name(name);
        assert_eq!(parsed, Some(key));
        assert_eq!(parsed.unwrap().name(), Some(name));
    }
}

#[test]
fn windows_parse_name_wants_the_exact_name() {
    assert_eq!(parse_name("KEY_A"), Some(MappedKey::KEY_A));
    assert_eq!(parse_name("KEY_F1"), Some(MappedKey::KEY_F1));
    assert_eq!(parse_name("KEY_F10"), Some(MappedKey::KEY_F10));
    assert_eq!(parse_name("KEY_MULTIPLY"), Some(MappedKey::KEY_MULTIPLY));
    for wrong in [
        "", "KEY_", "key_a", "Key_A", " KEY_A", "KEY_A ", "KEY_AA", "KEY_A\n", "A", "KEY_OTHER",
        "KEY_OTHER(7)", "KEY_F13", "KEY_SYSRQ", "KEY_KPASTERISK", "KEY_\u{c4}",
    ] {
        assert_eq!(parse_name(wrong), None, "{:?}", wrong);
    }
}
