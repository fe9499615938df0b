use evdev::KeyCode;
use key_debounce::linux::keys::{
    get_all_keys_code, get_available_keys_code, key_name, parse_name,
};

/// Every key of an ordinary keyboard as the input layer names it.
fn keys_by_name() -> Vec<KeyCode> {
    vec![
        KeyCode::KEY_RESERVED,
        KeyCode::KEY_ESC,
        KeyCode::KEY_1,
        KeyCode::KEY_2,
        KeyCode::KEY_3,
        KeyCode::KEY_4,
        KeyCode::KEY_5,
        KeyCode::KEY_6,
        KeyCode::KEY_7,
        KeyCode::KEY_8,
        KeyCode::KEY_9,
        KeyCode::KEY_0,
        KeyCode::KEY_MINUS,
        KeyCode::KEY_EQUAL,
        KeyCode::KEY_BACKSPACE,
        KeyCode::KEY_TAB,
        KeyCode::KEY_Q,
        KeyCode::KEY_W,
        KeyCode::KEY_E,
        KeyCode::KEY_R,
        KeyCode::KEY_T,
        KeyCode::KEY_Y,
        KeyCode::KEY_U,
        KeyCode::KEY_I,
        KeyCode::KEY_O,
        KeyCode::KEY_P,
        KeyCode::KEY_LEFTBRACE,
        KeyCode::KEY_RIGHTBRACE,
        KeyCode::KEY_ENTER,
        KeyCode::KEY_LEFTCTRL,
        KeyCode::KEY_A,
        KeyCode::KEY_S,
        KeyCode::KEY_D,
        KeyCode::KEY_F,
        KeyCode::KEY_G,
        KeyCode::KEY_H,
        KeyCode::KEY_J,
        KeyCode::KEY_K,
        KeyCode::KEY_L,
        KeyCode::KEY_SEMICOLON,
        KeyCode::KEY_APOSTROPHE,
        KeyCode::KEY_GRAVE,
        KeyCode::KEY_LEFTSHIFT,
        KeyCode::KEY_BACKSLASH,
        KeyCode::KEY_Z,
        KeyCode::KEY_X,
        KeyCode::KEY_C,
        KeyCode::KEY_V,
        KeyCode::KEY_B,
        KeyCode::KEY_N,
        KeyCode::KEY_M,
        KeyCode::KEY_COMMA,
        KeyCode::KEY_DOT,
        KeyCode::KEY_SLASH,
        KeyCode::KEY_RIGHTSHIFT,
        KeyCode::KEY_KPASTERISK,
        KeyCode::KEY_LEFTALT,
        KeyCode::KEY_SPACE,
        KeyCode::KEY_CAPSLOCK,
        KeyCode::KEY_F1,
        KeyCode::KEY_F2,
        KeyCode::KEY_F3,
        KeyCode::KEY_F4,
        KeyCode::KEY_F5,
        KeyCode::KEY_F6,
        KeyCode::KEY_F7,
        KeyCode::KEY_F8,
        KeyCode::KEY_F9,
        KeyCode::KEY_F10,
        KeyCode::KEY_NUMLOCK,
        KeyCode::KEY_SCROLLLOCK,
        KeyCode::KEY_KP7,
        KeyCode::KEY_KP8,
        KeyCode::KEY_KP9,
        KeyCode::KEY_KPMINUS,
        KeyCode::KEY_KP4,
        KeyCode::KEY_KP5,
        KeyCode::KEY_KP6,
        KeyCode::KEY_KPPLUS,
        KeyCode::KEY_KP1,
        KeyCode::KEY_KP2,
        KeyCode::KEY_KP3,
        KeyCode::KEY_KP0,
        KeyCode::KEY_KPDOT,
        KeyCode::KEY_ZENKAKUHANKAKU,
        KeyCode::KEY_102ND,
        KeyCode::KEY_F11,
        KeyCode::KEY_F12,
        KeyCode::KEY_RO,
        KeyCode::KEY_KATAKANA,
        KeyCode::KEY_HIRAGANA,
        KeyCode::KEY_HENKAN,
        KeyCode::KEY_KATAKANAHIRAGANA,
        KeyCode::KEY_MUHENKAN,
        KeyCode::KEY_KPJPCOMMA,
        KeyCode::KEY_KPENTER,
        KeyCode::KEY_RIGHTCTRL,
        KeyCode::KEY_KPSLASH,
        KeyCode::KEY_SYSRQ,
        KeyCode::KEY_RIGHTALT,
        KeyCode::KEY_LINEFEED,
        KeyCode::KEY_HOME,
        KeyCode::KEY_UP,
        KeyCode::KEY_PAGEUP,
        KeyCode::KEY_LEFT,
        KeyCode::KEY_RIGHT,
        KeyCode::KEY_END,
        KeyCode::KEY_DOWN,
        KeyCode::KEY_PAGEDOWN,
        KeyCode::KEY_INSERT,
        KeyCode::KEY_DELETE,
        KeyCode::KEY_MACRO,
        KeyCode::KEY_MUTE,
        KeyCode::KEY_VOLUMEDOWN,
        KeyCode::KEY_VOLUMEUP,
        KeyCode::KEY_POWER,
        KeyCode::KEY_KPEQUAL,
        KeyCode::KEY_KPPLUSMINUS,
        KeyCode::KEY_PAUSE,
        KeyCode::KEY_SCALE,
        KeyCode::KEY_KPCOMMA,
        KeyCode::KEY_HANGEUL,
        KeyCode::KEY_HANJA,
        KeyCode::KEY_YEN,
        KeyCode::KEY_LEFTMETA,
        KeyCode::KEY_RIGHTMETA,
        KeyCode::KEY_COMPOSE,
        KeyCode::KEY_STOP,
        KeyCode::KEY_AGAIN,
        KeyCode::KEY_PROPS,
        KeyCode::KEY_UNDO,
        KeyCode::KEY_FRONT,
        KeyCode::KEY_COPY,
        KeyCode::KEY_OPEN,
        KeyCode::KEY_PASTE,
        KeyCode::KEY_FIND,
        KeyCode::KEY_CUT,
        KeyCode::KEY_HELP,
        KeyCode::KEY_MENU,
        KeyCode::KEY_CALC,
        KeyCode::KEY_SETUP,
        KeyCode::KEY_SLEEP,
        KeyCode::KEY_WAKEUP,
        KeyCode::KEY_FILE,
        KeyCode::KEY_SENDFILE,
        KeyCode::KEY_DELETEFILE,
        KeyCode::KEY_XFER,
        KeyCode::KEY_PROG1,
        KeyCode::KEY_PROG2,
        KeyCode::KEY_WWW,
        KeyCode::KEY_MSDOS,
        KeyCode::KEY_COFFEE,
        KeyCode::KEY_DIRECTION,
        KeyCode::KEY_ROTATE_DISPLAY,
        KeyCode::KEY_CYCLEWINDOWS,
        KeyCode::KEY_MAIL,
        KeyCode::KEY_BOOKMARKS,
        KeyCode::KEY_COMPUTER,
        KeyCode::KEY_BACK,
        KeyCode::KEY_FORWARD,
        KeyCode::KEY_CLOSECD,
        KeyCode::KEY_EJECTCD,
        KeyCode::KEY_EJECTCLOSECD,
        KeyCode::KEY_NEXTSONG,
        KeyCode::KEY_PLAYPAUSE,
        KeyCode::KEY_PREVIOUSSONG,
        KeyCode::KEY_STOPCD,
        KeyCode::KEY_RECORD,
        KeyCode::KEY_REWIND,
        KeyCode::KEY_PHONE,
        KeyCode::KEY_ISO,
        KeyCode::KEY_CONFIG,
        KeyCode::KEY_HOMEPAGE,
        KeyCode::KEY_REFRESH,
        KeyCode::KEY_EXIT,
        KeyCode::KEY_MOVE,
        KeyCode::KEY_EDIT,
        KeyCode::KEY_SCROLLUP,
        KeyCode::KEY_SCROLLDOWN,
        KeyCode::KEY_KPLEFTPAREN,
        KeyCode::KEY_KPRIGHTPAREN,
        KeyCode::KEY_NEW,
        KeyCode::KEY_REDO,
        KeyCode::KEY_F13,
        KeyCode::KEY_F14,
        KeyCode::KEY_F15,
        KeyCode::KEY_F16,
        KeyCode::KEY_F17,
        KeyCode::KEY_F18,
        KeyCode::KEY_F19,
        KeyCode::KEY_F20,
        KeyCode::KEY_F21,
        KeyCode::KEY_F22,
        KeyCode::KEY_F23,
        KeyCode::KEY_F24,
        KeyCode::KEY_PLAYCD,
        KeyCode::KEY_PAUSECD,
        KeyCode::KEY_PROG3,
        KeyCode::KEY_PROG4,
        KeyCode::KEY_DASHBOARD,
        KeyCode::KEY_SUSPEND,
        KeyCode::KEY_CLOSE,
        KeyCode::KEY_PLAY,
        KeyCode::KEY_FASTFORWARD,
        KeyCode::KEY_BASSBOOST,
        KeyCode::KEY_PRINT,
        KeyCode::KEY_HP,
        KeyCode::KEY_CAMERA,
        KeyCode::KEY_SOUND,
        KeyCode::KEY_QUESTION,
        KeyCode::KEY_EMAIL,
        KeyCode::KEY_CHAT,
        KeyCode::KEY_SEARCH,
        KeyCode::KEY_CONNECT,
        KeyCode::KEY_FINANCE,
        KeyCode::KEY_SPORT,
        KeyCode::KEY_SHOP,
        KeyCode::KEY_ALTERASE,
        KeyCode::KEY_CANCEL,
        KeyCode::KEY_BRIGHTNESSDOWN,
        KeyCode::KEY_BRIGHTNESSUP,
        KeyCode::KEY_MEDIA,
        KeyCode::KEY_SWITCHVIDEOMODE,
        KeyCode::KEY_KBDILLUMTOGGLE,
        KeyCode::KEY_KBDILLUMDOWN,
        KeyCode::KEY_KBDILLUMUP,
        KeyCode::KEY_SEND,
        KeyCode::KEY_REPLY,
        KeyCode::KEY_FORWARDMAIL,
        KeyCode::KEY_SAVE,
        KeyCode::KEY_DOCUMENTS,
        KeyCode::KEY_BATTERY,
        KeyCode::KEY_BLUETOOTH,
        KeyCode::KEY_WLAN,
        KeyCode::KEY_UWB,
        KeyCode::KEY_UNKNOWN,
        KeyCode::KEY_VIDEO_NEXT,
        KeyCode::KEY_VIDEO_PREV,
        KeyCode::KEY_BRIGHTNESS_CYCLE,
        KeyCode::KEY_BRIGHTNESS_AUTO,
        KeyCode::KEY_DISPLAY_OFF,
        KeyCode::KEY_WWAN,
        KeyCode::KEY_RFKILL,
        KeyCode::KEY_MICMUTE,
    ]
}

/// The keys that a key list can name.
fn names_and_keys() -> Vec<(&'static str, KeyCode)> {
    vec![
        ("KEY_ESC", KeyCode::KEY_ESC),
        ("KEY_1", KeyCode::KEY_1),
        ("KEY_2", KeyCode::KEY_2),
        ("KEY_3", KeyCode::KEY_3),
        ("KEY_4", KeyCode::KEY_4),
        ("KEY_5", KeyCode::KEY_5),
        ("KEY_6", KeyCode::KEY_6),
        ("KEY_7", KeyCode::KEY_7),
        ("KEY_8", KeyCode::KEY_8),
        ("KEY_9", KeyCode::KEY_9),
        ("KEY_0", KeyCode::KEY_0),
        ("KEY_MINUS", KeyCode::KEY_MINUS),
        ("KEY_EQUAL", KeyCode::KEY_EQUAL),
        ("KEY_BACKSPACE", KeyCode::KEY_BACKSPACE),
        ("KEY_TAB", KeyCode::KEY_TAB),
        ("KEY_Q", KeyCode::KEY_Q),
        ("KEY_W", KeyCode::KEY_W),
        ("KEY_E", KeyCode::KEY_E),
        ("KEY_R", KeyCode::KEY_R),
        ("KEY_T", KeyCode::KEY_T),
        ("KEY_Y", KeyCode::KEY_Y),
        ("KEY_U", KeyCode::KEY_U),
        ("KEY_I", KeyCode::KEY_I),
        ("KEY_O", KeyCode::KEY_O),
        ("KEY_P", KeyCode::KEY_P),
        ("KEY_LEFTBRACE", KeyCode::KEY_LEFTBRACE),
        ("KEY_RIGHTBRACE", KeyCode::KEY_RIGHTBRACE),
        ("KEY_ENTER", KeyCode::KEY_ENTER),
        ("KEY_LEFTCTRL", KeyCode::KEY_LEFTCTRL),
        ("KEY_A", KeyCode::KEY_A),
        ("KEY_S", KeyCode::KEY_S),
        ("KEY_D", KeyCode::KEY_D),
        ("KEY_F", KeyCode::KEY_F),
        ("KEY_G", KeyCode::KEY_G),
        ("KEY_H", KeyCode::KEY_H),
        ("KEY_J", KeyCode::KEY_J),
        ("KEY_K", KeyCode::KEY_K),
        ("KEY_L", KeyCode::KEY_L),
        ("KEY_SEMICOLON", KeyCode::KEY_SEMICOLON),
        ("KEY_APOSTROPHE", KeyCode::KEY_APOSTROPHE),
        ("KEY_GRAVE", KeyCode::KEY_GRAVE),
        ("KEY_LEFTSHIFT", KeyCode::KEY_LEFTSHIFT),
        ("KEY_BACKSLASH", KeyCode::KEY_BACKSLASH),
        ("KEY_Z", KeyCode::KEY_Z),
        ("KEY_X", KeyCode::KEY_X),
        ("KEY_C", KeyCode::KEY_C),
        ("KEY_V", KeyCode::KEY_V),
        ("KEY_B", KeyCode::KEY_B),
        ("KEY_N", KeyCode::KEY_N),
        ("KEY_M", KeyCode::KEY_M),
        ("KEY_COMMA", KeyCode::KEY_COMMA),
        ("KEY_DOT", KeyCode::KEY_DOT),
        ("KEY_SLASH", KeyCode::KEY_SLASH),
        ("KEY_RIGHTSHIFT", KeyCode::KEY_RIGHTSHIFT),
        ("KEY_KPASTERISK", KeyCode::KEY_KPASTERISK),
        ("KEY_LEFTALT", KeyCode::KEY_LEFTALT),
        ("KEY_SPACE", KeyCode::KEY_SPACE),
        ("KEY_CAPSLOCK", KeyCode::KEY_CAPSLOCK),
        ("KEY_F1", KeyCode::KEY_F1),
        ("KEY_F2", KeyCode::KEY_F2),
        ("KEY_F3", KeyCode::KEY_F3),
        ("KEY_F4", KeyCode::KEY_F4),
        ("KEY_F5", KeyCode::KEY_F5),
        ("KEY_F6", KeyCode::KEY_F6),
        ("KEY_F7", KeyCode::KEY_F7),
        ("KEY_F8", KeyCode::KEY_F8),
        ("KEY_F9", KeyCode::KEY_F9),
        ("KEY_F10", KeyCode::KEY_F10),
        ("KEY_NUMLOCK", KeyCode::KEY_NUMLOCK),
        ("KEY_SCROLLLOCK", KeyCode::KEY_SCROLLLOCK),
        ("KEY_F11", KeyCode::KEY_F11),
        ("KEY_F12", KeyCode::KEY_F12),
        ("KEY_SYSRQ", KeyCode::KEY_SYSRQ),
        ("KEY_RIGHTALT", KeyCode::KEY_RIGHTALT),
        ("KEY_HOME", KeyCode::KEY_HOME),
        ("KEY_UP", KeyCode::KEY_UP),
        ("KEY_PAGEUP", KeyCode::KEY_PAGEUP),
        ("KEY_LEFT", KeyCode::KEY_LEFT),
        ("KEY_RIGHT", KeyCode::KEY_RIGHT),
        ("KEY_END", KeyCode::KEY_END),
        ("KEY_DOWN", KeyCode::KEY_DOWN),
        ("KEY_PAGEDOWN", KeyCode::KEY_PAGEDOWN),
        ("KEY_INSERT", KeyCode::KEY_INSERT),
        ("KEY_DELETE", KeyCode::KEY_DELETE),
        ("KEY_PAUSE", KeyCode::KEY_PAUSE),
        ("KEY_NUMERIC_0", KeyCode::KEY_NUMERIC_0),
        ("KEY_NUMERIC_1", KeyCode::KEY_NUMERIC_1),
        ("KEY_NUMERIC_2", KeyCode::KEY_NUMERIC_2),
        ("KEY_NUMERIC_3", KeyCode::KEY_NUMERIC_3),
        ("KEY_NUMERIC_4", KeyCode::KEY_NUMERIC_4),
        ("KEY_NUMERIC_5", KeyCode::KEY_NUMERIC_5),
        ("KEY_NUMERIC_6", KeyCode::KEY_NUMERIC_6),
        ("KEY_NUMERIC_7", KeyCode::KEY_NUMERIC_7),
        ("KEY_NUMERIC_8", KeyCode::KEY_NUMERIC_8),
        ("KEY_NUMERIC_9", KeyCode::KEY_NUMERIC_9),
    ]
}

#[test]
fn linux_all_keys_are_those_of_the_input_layer() {
    let expected: Vec<u16> = keys_by_name().iter().map(|key| key.code()).collect();
    assert_eq!(expected.len(), 244);
    assert_eq!(get_all_keys_code(), expected);
}

#[test]
fn linux_all_keys_edges() {
    let keys = get_all_keys_code();
    assert_eq!(keys[0], 0);
    assert_eq!(keys[83], 83);
    assert_eq!(keys[84], 85);
    assert_eq!(&keys[151..155], &[152, 153, 153, 154]);
    assert_eq!(&keys[193..197], &[193, 194, 200, 201]);
    assert_eq!(keys[243], 248);
    assert!(!keys.contains(&84));
    assert!(!keys.contains(&199));
    assert!(!keys.contains(&249));
}

#[test]
fn linux_available_keys_are_those_of_the_input_layer() {
    let expected: Vec<u16> = names_and_keys().iter().map(|(_, key)| key.code()).collect();
    assert_eq!(expected.len(), 95);
    assert_eq!(get_available_keys_code(), expected);
}

#[test]
fn linux_key_names_are_those_of_the_input_layer() {
    for (name, key) in names_and_keys() {
        assert_eq!(key_name(key.code()), Some(name));
        assert_eq!(format!("{:?}", key), name);
    }
    let named: Vec<u16> = get_available_keys_code();
    for code in 0..=u16::MAX {
        assert_eq!(key_name(code).is_some(), named.contains(&code), "{}", code);
    }
    assert_eq!(key_name(0), None);
    assert_eq!(key_name(71), None);
    assert_eq!(key_name(1), Some("KEY_ESC"));
    assert_eq!(key_name(521), Some("KEY_NUMERIC_9"));
}

#[test]
fn linux_name_round_trip() {
    for (name, key) in names_and_keys() {
        let parsed = parse_name(name);
        assert_eq!(parsed, Some(key.code()));
        assert_eq!(key_name(parsed.unwrap()), Some(name));
    }
    for code in get_available_keys_code() {
        assert_eq!(parse_name(key_name(code).unwrap()), Some(code));
    }
}

#[test]
fn linux_parse_name_wants_the_exact_name() {
    assert_eq!(parse_name("KEY_A"), Some(30));
    assert_eq!(parse_name("KEY_ENTER"), Some(28));
    assert_eq!(parse_name("KEY_F1"), Some(59));
    assert_eq!(parse_name("KEY_F10"), Some(68));
    assert_eq!(parse_name("KEY_NUMERIC_0"), Some(512));
    for wrong in [
        "", "KEY_", "key_a", "Key_A", " KEY_A", "KEY_A ", "KEY_AA", "KEY_A\n", "A", "30",
        "KEY_RESERVED", "KEY_KP7", "KEY_MUTE", "KEY_MULTIPLY", "KEY_\u{c4}",
    ] {
        assert_eq!(parse_name(wrong), None, "{:?}", wrong);
    }
}
