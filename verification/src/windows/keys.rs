//! The keys this library knows by name, as the virtual-key codes of a raw
//! keyboard hook report them.

use crate::text::str_eq;
use vstd::prelude::*;
use vstd::std_specs::convert::FromSpecImpl;

verus! {

/// One physical key. Every virtual-key code has exactly one identity: a named
/// key where the code is a known one, `KEY_OTHER` with the code itself where it
/// is not.
#[derive(Debug, Eq, PartialEq, Hash, Copy, Clone, Structural)]
#[allow(non_camel_case_types)]
pub enum MappedKey {
    KEY_ESC,
    KEY_1,
    KEY_2,
    KEY_3,
    KEY_4,
    KEY_5,
    KEY_6,
    KEY_7,
    KEY_8,
    KEY_9,
    KEY_0,
    KEY_MINUS,
    KEY_EQUAL,
    KEY_BACKSPACE,
    KEY_MULTIPLY,
    KEY_TAB,
    KEY_Q,
    KEY_W,
    KEY_E,
    KEY_R,
    KEY_T,
    KEY_Y,
    KEY_U,
    KEY_I,
    KEY_O,
    KEY_P,
    KEY_LEFTBRACE,
    KEY_RIGHTBRACE,
    KEY_ENTER,
    KEY_LEFTCTRL,
    KEY_A,
    KEY_S,
    KEY_D,
    KEY_F,
    KEY_G,
    KEY_H,
    KEY_J,
    KEY_K,
    KEY_L,
    KEY_SEMICOLON,
    KEY_APOSTROPHE,
    KEY_GRAVE,
    KEY_LEFTSHIFT,
    KEY_BACKSLASH,
    KEY_Z,
    KEY_X,
    KEY_C,
    KEY_V,
    KEY_B,
    KEY_N,
    KEY_M,
    KEY_COMMA,
    KEY_DOT,
    KEY_SLASH,
    KEY_RIGHTSHIFT,
    KEY_LEFTALT,
    KEY_SPACE,
    KEY_CAPSLOCK,
    KEY_F1,
    KEY_F2,
    KEY_F3,
    KEY_F4,
    KEY_F5,
    KEY_F6,
    KEY_F7,
    KEY_F8,
    KEY_F9,
    KEY_F10,
    KEY_NUMLOCK,
    KEY_SCROLLLOCK,
    KEY_KP7,
    KEY_KP8,
    KEY_KP9,
    KEY_KP4,
    KEY_KP5,
    KEY_KP6,
    KEY_KP1,
    KEY_KP2,
    KEY_KP3,
    KEY_KP0,
    KEY_F11,
    KEY_F12,
    KEY_HOME,
    KEY_UP,
    KEY_PAGEUP,
    KEY_LEFT,
    KEY_RIGHT,
    KEY_END,
    KEY_DOWN,
    KEY_PAGEDOWN,
    KEY_INSERT,
    KEY_DELETE,
    KEY_MUTE,
    KEY_VOLUMEDOWN,
    KEY_VOLUMEUP,
    KEY_PLAYPAUSE,
    KEY_STOPCD,
    KEY_NEXTSONG,
    KEY_PREVIOUSSONG,
    KEY_RIGHTCTRL,
    KEY_RIGHTALT,
    KEY_LEFTMETA,
    KEY_RIGHTMETA,
    /// A key without a name, with the virtual-key code it was reported under.
    KEY_OTHER(u16),
}

/// The identity of a virtual-key code.
pub open spec fn key_of_code(code: u16) -> MappedKey {
    match code {
        0x08 => MappedKey::KEY_BACKSPACE,
        0x09 => MappedKey::KEY_TAB,
        0x0D => MappedKey::KEY_ENTER,
        0x1B => MappedKey::KEY_ESC,
        0x20 => MappedKey::KEY_SPACE,
        0x21 => MappedKey::KEY_PAGEUP,
        0x22 => MappedKey::KEY_PAGEDOWN,
        0x23 => MappedKey::KEY_END,
        0x24 => MappedKey::KEY_HOME,
        0x25 => MappedKey::KEY_LEFT,
        0x26 => MappedKey::KEY_UP,
        0x27 => MappedKey::KEY_RIGHT,
        0x28 => MappedKey::KEY_DOWN,
        0x2D => MappedKey::KEY_INSERT,
        0x2E => MappedKey::KEY_DELETE,
        0x30 => MappedKey::KEY_0,
        0x31 => MappedKey::KEY_1,
        0x32 => MappedKey::KEY_2,
        0x33 => MappedKey::KEY_3,
        0x34 => MappedKey::KEY_4,
        0x35 => MappedKey::KEY_5,
        0x36 => MappedKey::KEY_6,
        0x37 => MappedKey::KEY_7,
        0x38 => MappedKey::KEY_8,
        0x39 => MappedKey::KEY_9,
        0x41 => MappedKey::KEY_A,
        0x42 => MappedKey::KEY_B,
        0x43 => MappedKey::KEY_C,
        0x44 => MappedKey::KEY_D,
        0x45 => MappedKey::KEY_E,
        0x46 => MappedKey::KEY_F,
        0x47 => MappedKey::KEY_G,
        0x48 => MappedKey::KEY_H,
        0x49 => MappedKey::KEY_I,
        0x4A => MappedKey::KEY_J,
        0x4B => MappedKey::KEY_K,
        0x4C => MappedKey::KEY_L,
        0x4D => MappedKey::KEY_M,
        0x4E => MappedKey::KEY_N,
        0x4F => MappedKey::KEY_O,
        0x50 => MappedKey::KEY_P,
        0x51 => MappedKey::KEY_Q,
        0x52 => MappedKey::KEY_R,
        0x53 => MappedKey::KEY_S,
        0x54 => MappedKey::KEY_T,
        0x55 => MappedKey::KEY_U,
        0x56 => MappedKey::KEY_V,
        0x57 => MappedKey::KEY_W,
        0x58 => MappedKey::KEY_X,
        0x59 => MappedKey::KEY_Y,
        0x5A => MappedKey::KEY_Z,
        0x5B => MappedKey::KEY_LEFTMETA,
        0x5C => MappedKey::KEY_RIGHTMETA,
        0x6A => MappedKey::KEY_MULTIPLY,
        0x60 => MappedKey::KEY_KP0,
        0x61 => MappedKey::KEY_KP1,
        0x62 => MappedKey::KEY_KP2,
        0x63 => MappedKey::KEY_KP3,
        0x64 => MappedKey::KEY_KP4,
        0x65 => MappedKey::KEY_KP5,
        0x66 => MappedKey::KEY_KP6,
        0x67 => MappedKey::KEY_KP7,
        0x68 => MappedKey::KEY_KP8,
        0x69 => MappedKey::KEY_KP9,
        0x70 => MappedKey::KEY_F1,
        0x71 => MappedKey::KEY_F2,
        0x72 => MappedKey::KEY_F3,
        0x73 => MappedKey::KEY_F4,
        0x74 => MappedKey::KEY_F5,
        0x75 => MappedKey::KEY_F6,
        0x76 => MappedKey::KEY_F7,
        0x77 => MappedKey::KEY_F8,
        0x78 => MappedKey::KEY_F9,
        0x79 => MappedKey::KEY_F10,
        0x7A => MappedKey::KEY_F11,
        0x7B => MappedKey::KEY_F12,
        0x90 => MappedKey::KEY_NUMLOCK,
        0x91 => MappedKey::KEY_SCROLLLOCK,
        0x14 => MappedKey::KEY_CAPSLOCK,
        0xA0 => MappedKey::KEY_LEFTSHIFT,
        0xA1 => MappedKey::KEY_RIGHTSHIFT,
        0xA2 => MappedKey::KEY_LEFTCTRL,
        0xA3 => MappedKey::KEY_RIGHTCTRL,
        0xA4 => MappedKey::KEY_LEFTALT,
        0xA5 => MappedKey::KEY_RIGHTALT,
        0xAD => MappedKey::KEY_MUTE,
        0xAE => MappedKey::KEY_VOLUMEDOWN,
        0xAF => MappedKey::KEY_VOLUMEUP,
        0xB0 => MappedKey::KEY_NEXTSONG,
        0xB1 => MappedKey::KEY_PREVIOUSSONG,
        0xB2 => MappedKey::KEY_STOPCD,
        0xB3 => MappedKey::KEY_PLAYPAUSE,
        0xC0 => MappedKey::KEY_GRAVE,
        0xBF => MappedKey::KEY_SLASH,
        0xDC => MappedKey::KEY_BACKSLASH,
        0xBC => MappedKey::KEY_COMMA,
        0xBE => MappedKey::KEY_DOT,
        0xBD => MappedKey::KEY_MINUS,
        0xDE => MappedKey::KEY_APOSTROPHE,
        0xBA => MappedKey::KEY_SEMICOLON,
        0xDB => MappedKey::KEY_LEFTBRACE,
        0xDD => MappedKey::KEY_RIGHTBRACE,
        0xBB => MappedKey::KEY_EQUAL,
        _ => MappedKey::KEY_OTHER(code),
    }
}

impl FromSpecImpl<u16> for MappedKey {
    open spec fn obeys_from_spec() -> bool {
        true
    }

    open spec fn from_spec(code: u16) -> MappedKey {
        key_of_code(code)
    }
}

impl From<u16> for MappedKey {
    /// The identity of a virtual-key code; every code has one.
    fn from(code: u16) -> (key: MappedKey) {
        match code {
            0x08 => MappedKey::KEY_BACKSPACE,
            0x09 => MappedKey::KEY_TAB,
            0x0D => MappedKey::KEY_ENTER,
            0x1B => MappedKey::KEY_ESC,
            0x20 => MappedKey::KEY_SPACE,
            0x21 => MappedKey::KEY_PAGEUP,
            0x22 => MappedKey::KEY_PAGEDOWN,
            0x23 => MappedKey::KEY_END,
            0x24 => MappedKey::KEY_HOME,
            0x25 => MappedKey::KEY_LEFT,
            0x26 => MappedKey::KEY_UP,
            0x27 => MappedKey::KEY_RIGHT,
            0x28 => MappedKey::KEY_DOWN,
            0x2D => MappedKey::KEY_INSERT,
            0x2E => MappedKey::KEY_DELETE,
            0x30 => MappedKey::KEY_0,
            0x31 => MappedKey::KEY_1,
            0x32 => MappedKey::KEY_2,
            0x33 => MappedKey::KEY_3,
            0x34 => MappedKey::KEY_4,
            0x35 => MappedKey::KEY_5,
            0x36 => MappedKey::KEY_6,
            0x37 => MappedKey::KEY_7,
            0x38 => MappedKey::KEY_8,
            0x39 => MappedKey::KEY_9,
            0x41 => MappedKey::KEY_A,
            0x42 => MappedKey::KEY_B,
            0x43 => MappedKey::KEY_C,
            0x44 => MappedKey::KEY_D,
            0x45 => MappedKey::KEY_E,
            0x46 => MappedKey::KEY_F,
            0x47 => MappedKey::KEY_G,
            0x48 => MappedKey::KEY_H,
            0x49 => MappedKey::KEY_I,
            0x4A => MappedKey::KEY_J,
            0x4B => MappedKey::KEY_K,
            0x4C => MappedKey::KEY_L,
            0x4D => MappedKey::KEY_M,
            0x4E => MappedKey::KEY_N,
            0x4F => MappedKey::KEY_O,
            0x50 => MappedKey::KEY_P,
            0x51 => MappedKey::KEY_Q,
            0x52 => MappedKey::KEY_R,
            0x53 => MappedKey::KEY_S,
            0x54 => MappedKey::KEY_T,
            0x55 => MappedKey::KEY_U,
            0x56 => MappedKey::KEY_V,
            0x57 => MappedKey::KEY_W,
            0x58 => MappedKey::KEY_X,
            0x59 => MappedKey::KEY_Y,
            0x5A => MappedKey::KEY_Z,
            0x5B => MappedKey::KEY_LEFTMETA,
            0x5C => MappedKey::KEY_RIGHTMETA,
            0x6A => MappedKey::KEY_MULTIPLY,
            0x60 => MappedKey::KEY_KP0,
            0x61 => MappedKey::KEY_KP1,
            0x62 => MappedKey::KEY_KP2,
            0x63 => MappedKey::KEY_KP3,
            0x64 => MappedKey::KEY_KP4,
            0x65 => MappedKey::KEY_KP5,
            0x66 => MappedKey::KEY_KP6,
            0x67 => MappedKey::KEY_KP7,
            0x68 => MappedKey::KEY_KP8,
            0x69 => MappedKey::KEY_KP9,
            0x70 => MappedKey::KEY_F1,
            0x71 => MappedKey::KEY_F2,
            0x72 => MappedKey::KEY_F3,
            0x73 => MappedKey::KEY_F4,
            0x74 => MappedKey::KEY_F5,
            0x75 => MappedKey::KEY_F6,
            0x76 => MappedKey::KEY_F7,
            0x77 => MappedKey::KEY_F8,
            0x78 => MappedKey::KEY_F9,
            0x79 => MappedKey::KEY_F10,
            0x7A => MappedKey::KEY_F11,
            0x7B => MappedKey::KEY_F12,
            0x90 => MappedKey::KEY_NUMLOCK,
            0x91 => MappedKey::KEY_SCROLLLOCK,
            0x14 => MappedKey::KEY_CAPSLOCK,
            0xA0 => MappedKey::KEY_LEFTSHIFT,
            0xA1 => MappedKey::KEY_RIGHTSHIFT,
            0xA2 => MappedKey::KEY_LEFTCTRL,
            0xA3 => MappedKey::KEY_RIGHTCTRL,
            0xA4 => MappedKey::KEY_LEFTALT,
            0xA5 => MappedKey::KEY_RIGHTALT,
            0xAD => MappedKey::KEY_MUTE,
            0xAE => MappedKey::KEY_VOLUMEDOWN,
            0xAF => MappedKey::KEY_VOLUMEUP,
            0xB0 => MappedKey::KEY_NEXTSONG,
            0xB1 => MappedKey::KEY_PREVIOUSSONG,
            0xB2 => MappedKey::KEY_STOPCD,
            0xB3 => MappedKey::KEY_PLAYPAUSE,
            0xC0 => MappedKey::KEY_GRAVE,
            0xBF => MappedKey::KEY_SLASH,
            0xDC => MappedKey::KEY_BACKSLASH,
            0xBC => MappedKey::KEY_COMMA,
            0xBE => MappedKey::KEY_DOT,
            0xBD => MappedKey::KEY_MINUS,
            0xDE => MappedKey::KEY_APOSTROPHE,
            0xBA => MappedKey::KEY_SEMICOLON,
            0xDB => MappedKey::KEY_LEFTBRACE,
            0xDD => MappedKey::KEY_RIGHTBRACE,
            0xBB => MappedKey::KEY_EQUAL,
            _ => MappedKey::KEY_OTHER(code),
        }
    }
}

impl MappedKey {
    /// Whether the key is one of the named keys.
    pub open spec fn is_named(self) -> bool {
        !(self is KEY_OTHER)
    }

    /// The virtual-key code of the key.
    pub open spec fn code_spec(self) -> u16 {
        match self {
            MappedKey::KEY_ESC => 0x1B,
            MappedKey::KEY_1 => 0x31,
            MappedKey::KEY_2 => 0x32,
            MappedKey::KEY_3 => 0x33,
            MappedKey::KEY_4 => 0x34,
            MappedKey::KEY_5 => 0x35,
            MappedKey::KEY_6 => 0x36,
            MappedKey::KEY_7 => 0x37,
            MappedKey::KEY_8 => 0x38,
            MappedKey::KEY_9 => 0x39,
            MappedKey::KEY_0 => 0x30,
            MappedKey::KEY_MINUS => 0xBD,
            MappedKey::KEY_EQUAL => 0xBB,
            MappedKey::KEY_BACKSPACE => 0x08,
            MappedKey::KEY_MULTIPLY => 0x6A,
            MappedKey::KEY_TAB => 0x09,
            MappedKey::KEY_Q => 0x51,
            MappedKey::KEY_W => 0x57,
            MappedKey::KEY_E => 0x45,
            MappedKey::KEY_R => 0x52,
            MappedKey::KEY_T => 0x54,
            MappedKey::KEY_Y => 0x59,
            MappedKey::KEY_U => 0x55,
            MappedKey::KEY_I => 0x49,
            MappedKey::KEY_O => 0x4F,
            MappedKey::KEY_P => 0x50,
            MappedKey::KEY_LEFTBRACE => 0xDB,
            MappedKey::KEY_RIGHTBRACE => 0xDD,
            MappedKey::KEY_ENTER => 0x0D,
            MappedKey::KEY_LEFTCTRL => 0xA2,
            MappedKey::KEY_A => 0x41,
            MappedKey::KEY_S => 0x53,
            MappedKey::KEY_D => 0x44,
            MappedKey::KEY_F => 0x46,
            MappedKey::KEY_G => 0x47,
            MappedKey::KEY_H => 0x48,
            MappedKey::KEY_J => 0x4A,
            MappedKey::KEY_K => 0x4B,
            MappedKey::KEY_L => 0x4C,
            MappedKey::KEY_SEMICOLON => 0xBA,
            MappedKey::KEY_APOSTROPHE => 0xDE,
            MappedKey::KEY_GRAVE => 0xC0,
            MappedKey::KEY_LEFTSHIFT => 0xA0,
            MappedKey::KEY_BACKSLASH => 0xDC,
            MappedKey::KEY_Z => 0x5A,
            MappedKey::KEY_X => 0x58,
            MappedKey::KEY_C => 0x43,
            MappedKey::KEY_V => 0x56,
            MappedKey::KEY_B => 0x42,
            MappedKey::KEY_N => 0x4E,
            MappedKey::KEY_M => 0x4D,
            MappedKey::KEY_COMMA => 0xBC,
            MappedKey::KEY_DOT => 0xBE,
            MappedKey::KEY_SLASH => 0xBF,
            MappedKey::KEY_RIGHTSHIFT => 0xA1,
            MappedKey::KEY_LEFTALT => 0xA4,
            MappedKey::KEY_SPACE => 0x20,
            MappedKey::KEY_CAPSLOCK => 0x14,
            MappedKey::KEY_F1 => 0x70,
            MappedKey::KEY_F2 => 0x71,
            MappedKey::KEY_F3 => 0x72,
            MappedKey::KEY_F4 => 0x73,
            MappedKey::KEY_F5 => 0x74,
            MappedKey::KEY_F6 => 0x75,
            MappedKey::KEY_F7 => 0x76,
            MappedKey::KEY_F8 => 0x77,
            MappedKey::KEY_F9 => 0x78,
            MappedKey::KEY_F10 => 0x79,
            MappedKey::KEY_NUMLOCK => 0x90,
            MappedKey::KEY_SCROLLLOCK => 0x91,
            MappedKey::KEY_KP7 => 0x67,
            MappedKey::KEY_KP8 => 0x68,
            MappedKey::KEY_KP9 => 0x69,
            MappedKey::KEY_KP4 => 0x64,
            MappedKey::KEY_KP5 => 0x65,
            MappedKey::KEY_KP6 => 0x66,
            MappedKey::KEY_KP1 => 0x61,
            MappedKey::KEY_KP2 => 0x62,
            MappedKey::KEY_KP3 => 0x63,
            MappedKey::KEY_KP0 => 0x60,
            MappedKey::KEY_F11 => 0x7A,
            MappedKey::KEY_F12 => 0x7B,
            MappedKey::KEY_HOME => 0x24,
            MappedKey::KEY_UP => 0x26,
            MappedKey::KEY_PAGEUP => 0x21,
            MappedKey::KEY_LEFT => 0x25,
            MappedKey::KEY_RIGHT => 0x27,
            MappedKey::KEY_END => 0x23,
            MappedKey::KEY_DOWN => 0x28,
            MappedKey::KEY_PAGEDOWN => 0x22,
            MappedKey::KEY_INSERT => 0x2D,
            MappedKey::KEY_DELETE => 0x2E,
            MappedKey::KEY_MUTE => 0xAD,
            MappedKey::KEY_VOLUMEDOWN => 0xAE,
            MappedKey::KEY_VOLUMEUP => 0xAF,
            MappedKey::KEY_PLAYPAUSE => 0xB3,
            MappedKey::KEY_STOPCD => 0xB2,
            MappedKey::KEY_NEXTSONG => 0xB0,
            MappedKey::KEY_PREVIOUSSONG => 0xB1,
            MappedKey::KEY_RIGHTCTRL => 0xA3,
            MappedKey::KEY_RIGHTALT => 0xA5,
            MappedKey::KEY_LEFTMETA => 0x5B,
            MappedKey::KEY_RIGHTMETA => 0x5C,
            MappedKey::KEY_OTHER(code) => code,
        }
    }

    /// The name of the key in a key list; a key without a name has none.
    pub open spec fn name_spec(self) -> Option<Seq<char>> {
        match self {
            MappedKey::KEY_ESC => Some("KEY_ESC"@),
            MappedKey::KEY_1 => Some("KEY_1"@),
            MappedKey::KEY_2 => Some("KEY_2"@),
            MappedKey::KEY_3 => Some("KEY_3"@),
            MappedKey::KEY_4 => Some("KEY_4"@),
            MappedKey::KEY_5 => Some("KEY_5"@),
            MappedKey::KEY_6 => Some("KEY_6"@),
            MappedKey::KEY_7 => Some("KEY_7"@),
            MappedKey::KEY_8 => Some("KEY_8"@),
            MappedKey::KEY_9 => Some("KEY_9"@),
            MappedKey::KEY_0 => Some("KEY_0"@),
            MappedKey::KEY_MINUS => Some("KEY_MINUS"@),
            MappedKey::KEY_EQUAL => Some("KEY_EQUAL"@),
            MappedKey::KEY_BACKSPACE => Some("KEY_BACKSPACE"@),
            MappedKey::KEY_MULTIPLY => Some("KEY_MULTIPLY"@),
            MappedKey::KEY_TAB => Some("KEY_TAB"@),
            MappedKey::KEY_Q => Some("KEY_Q"@),
            MappedKey::KEY_W => Some("KEY_W"@),
            MappedKey::KEY_E => Some("KEY_E"@),
            MappedKey::KEY_R => Some("KEY_R"@),
            MappedKey::KEY_T => Some("KEY_T"@),
            MappedKey::KEY_Y => Some("KEY_Y"@),
            MappedKey::KEY_U => Some("KEY_U"@),
            MappedKey::KEY_I => Some("KEY_I"@),
            MappedKey::KEY_O => Some("KEY_O"@),
            MappedKey::KEY_P => Some("KEY_P"@),
            MappedKey::KEY_LEFTBRACE => Some("KEY_LEFTBRACE"@),
            MappedKey::KEY_RIGHTBRACE => Some("KEY_RIGHTBRACE"@),
            MappedKey::KEY_ENTER => Some("KEY_ENTER"@),
            MappedKey::KEY_LEFTCTRL => Some("KEY_LEFTCTRL"@),
            MappedKey::KEY_A => Some("KEY_A"@),
            MappedKey::KEY_S => Some("KEY_S"@),
            MappedKey::KEY_D => Some("KEY_D"@),
            MappedKey::KEY_F => Some("KEY_F"@),
            MappedKey::KEY_G => Some("KEY_G"@),
            MappedKey::KEY_H => Some("KEY_H"@),
            MappedKey::KEY_J => Some("KEY_J"@),
            MappedKey::KEY_K => Some("KEY_K"@),
            MappedKey::KEY_L => Some("KEY_L"@),
            MappedKey::KEY_SEMICOLON => Some("KEY_SEMICOLON"@),
            MappedKey::KEY_APOSTROPHE => Some("KEY_APOSTROPHE"@),
            MappedKey::KEY_GRAVE => Some("KEY_GRAVE"@),
            MappedKey::KEY_LEFTSHIFT => Some("KEY_LEFTSHIFT"@),
            MappedKey::KEY_BACKSLASH => Some("KEY_BACKSLASH"@),
            MappedKey::KEY_Z => Some("KEY_Z"@),
            MappedKey::KEY_X => Some("KEY_X"@),
            MappedKey::KEY_C => Some("KEY_C"@),
            MappedKey::KEY_V => Some("KEY_V"@),
            MappedKey::KEY_B => Some("KEY_B"@),
            MappedKey::KEY_N => Some("KEY_N"@),
            MappedKey::KEY_M => Some("KEY_M"@),
            MappedKey::KEY_COMMA => Some("KEY_COMMA"@),
            MappedKey::KEY_DOT => Some("KEY_DOT"@),
            MappedKey::KEY_SLASH => Some("KEY_SLASH"@),
            MappedKey::KEY_RIGHTSHIFT => Some("KEY_RIGHTSHIFT"@),
            MappedKey::KEY_LEFTALT => Some("KEY_LEFTALT"@),
            MappedKey::KEY_SPACE => Some("KEY_SPACE"@),
            MappedKey::KEY_CAPSLOCK => Some("KEY_CAPSLOCK"@),
            MappedKey::KEY_F1 => Some("KEY_F1"@),
            MappedKey::KEY_F2 => Some("KEY_F2"@),
            MappedKey::KEY_F3 => Some("KEY_F3"@),
            MappedKey::KEY_F4 => Some("KEY_F4"@),
            MappedKey::KEY_F5 => Some("KEY_F5"@),
            MappedKey::KEY_F6 => Some("KEY_F6"@),
            MappedKey::KEY_F7 => Some("KEY_F7"@),
            MappedKey::KEY_F8 => Some("KEY_F8"@),
            MappedKey::KEY_F9 => Some("KEY_F9"@),
            MappedKey::KEY_F10 => Some("KEY_F10"@),
            MappedKey::KEY_NUMLOCK => Some("KEY_NUMLOCK"@),
            MappedKey::KEY_SCROLLLOCK => Some("KEY_SCROLLLOCK"@),
            MappedKey::KEY_KP7 => Some("KEY_KP7"@),
            MappedKey::KEY_KP8 => Some("KEY_KP8"@),
            MappedKey::KEY_KP9 => Some("KEY_KP9"@),
            MappedKey::KEY_KP4 => Some("KEY_KP4"@),
            MappedKey::KEY_KP5 => Some("KEY_KP5"@),
            MappedKey::KEY_KP6 => Some("KEY_KP6"@),
            MappedKey::KEY_KP1 => Some("KEY_KP1"@),
            MappedKey::KEY_KP2 => Some("KEY_KP2"@),
            MappedKey::KEY_KP3 => Some("KEY_KP3"@),
            MappedKey::KEY_KP0 => Some("KEY_KP0"@),
            MappedKey::KEY_F11 => Some("KEY_F11"@),
            MappedKey::KEY_F12 => Some("KEY_F12"@),
            MappedKey::KEY_HOME => Some("KEY_HOME"@),
            MappedKey::KEY_UP => Some("KEY_UP"@),
            MappedKey::KEY_PAGEUP => Some("KEY_PAGEUP"@),
            MappedKey::KEY_LEFT => Some("KEY_LEFT"@),
            MappedKey::KEY_RIGHT => Some("KEY_RIGHT"@),
            MappedKey::KEY_END => Some("KEY_END"@),
            MappedKey::KEY_DOWN => Some("KEY_DOWN"@),
            MappedKey::KEY_PAGEDOWN => Some("KEY_PAGEDOWN"@),
            MappedKey::KEY_INSERT => Some("KEY_INSERT"@),
            MappedKey::KEY_DELETE => Some("KEY_DELETE"@),
            MappedKey::KEY_MUTE => Some("KEY_MUTE"@),
            MappedKey::KEY_VOLUMEDOWN => Some("KEY_VOLUMEDOWN"@),
            MappedKey::KEY_VOLUMEUP => Some("KEY_VOLUMEUP"@),
            MappedKey::KEY_PLAYPAUSE => Some("KEY_PLAYPAUSE"@),
            MappedKey::KEY_STOPCD => Some("KEY_STOPCD"@),
            MappedKey::KEY_NEXTSONG => Some("KEY_NEXTSONG"@),
            MappedKey::KEY_PREVIOUSSONG => Some("KEY_PREVIOUSSONG"@),
            MappedKey::KEY_RIGHTCTRL => Some("KEY_RIGHTCTRL"@),
            MappedKey::KEY_RIGHTALT => Some("KEY_RIGHTALT"@),
            MappedKey::KEY_LEFTMETA => Some("KEY_LEFTMETA"@),
            MappedKey::KEY_RIGHTMETA => Some("KEY_RIGHTMETA"@),
            MappedKey::KEY_OTHER(_) => None,
        }
    }

    /// The virtual-key code of the key.
    pub fn code(&self) -> (code: u16)
        ensures
            code == self.code_spec(),
    {
        match self {
            MappedKey::KEY_ESC => 0x1B,
            MappedKey::KEY_1 => 0x31,
            MappedKey::KEY_2 => 0x32,
            MappedKey::KEY_3 => 0x33,
            MappedKey::KEY_4 => 0x34,
            MappedKey::KEY_5 => 0x35,
            MappedKey::KEY_6 => 0x36,
            MappedKey::KEY_7 => 0x37,
            MappedKey::KEY_8 => 0x38,
            MappedKey::KEY_9 => 0x39,
            MappedKey::KEY_0 => 0x30,
            MappedKey::KEY_MINUS => 0xBD,
            MappedKey::KEY_EQUAL => 0xBB,
            MappedKey::KEY_BACKSPACE => 0x08,
            MappedKey::KEY_MULTIPLY => 0x6A,
            MappedKey::KEY_TAB => 0x09,
            MappedKey::KEY_Q => 0x51,
            MappedKey::KEY_W => 0x57,
            MappedKey::KEY_E => 0x45,
            MappedKey::KEY_R => 0x52,
            MappedKey::KEY_T => 0x54,
            MappedKey::KEY_Y => 0x59,
            MappedKey::KEY_U => 0x55,
            MappedKey::KEY_I => 0x49,
            MappedKey::KEY_O => 0x4F,
            MappedKey::KEY_P => 0x50,
            MappedKey::KEY_LEFTBRACE => 0xDB,
            MappedKey::KEY_RIGHTBRACE => 0xDD,
            MappedKey::KEY_ENTER => 0x0D,
            MappedKey::KEY_LEFTCTRL => 0xA2,
            MappedKey::KEY_A => 0x41,
            MappedKey::KEY_S => 0x53,
            MappedKey::KEY_D => 0x44,
            MappedKey::KEY_F => 0x46,
            MappedKey::KEY_G => 0x47,
            MappedKey::KEY_H => 0x48,
            MappedKey::KEY_J => 0x4A,
            MappedKey::KEY_K => 0x4B,
            MappedKey::KEY_L => 0x4C,
            MappedKey::KEY_SEMICOLON => 0xBA,
            MappedKey::KEY_APOSTROPHE => 0xDE,
            MappedKey::KEY_GRAVE => 0xC0,
            MappedKey::KEY_LEFTSHIFT => 0xA0,
            MappedKey::KEY_BACKSLASH => 0xDC,
            MappedKey::KEY_Z => 0x5A,
            MappedKey::KEY_X => 0x58,
            MappedKey::KEY_C => 0x43,
            MappedKey::KEY_V => 0x56,
            MappedKey::KEY_B => 0x42,
            MappedKey::KEY_N => 0x4E,
            MappedKey::KEY_M => 0x4D,
            MappedKey::KEY_COMMA => 0xBC,
            MappedKey::KEY_DOT => 0xBE,
            MappedKey::KEY_SLASH => 0xBF,
            MappedKey::KEY_RIGHTSHIFT => 0xA1,
            MappedKey::KEY_LEFTALT => 0xA4,
            MappedKey::KEY_SPACE => 0x20,
            MappedKey::KEY_CAPSLOCK => 0x14,
            MappedKey::KEY_F1 => 0x70,
            MappedKey::KEY_F2 => 0x71,
            MappedKey::KEY_F3 => 0x72,
            MappedKey::KEY_F4 => 0x73,
            MappedKey::KEY_F5 => 0x74,
            MappedKey::KEY_F6 => 0x75,
            MappedKey::KEY_F7 => 0x76,
            MappedKey::KEY_F8 => 0x77,
            MappedKey::KEY_F9 => 0x78,
            MappedKey::KEY_F10 => 0x79,
            MappedKey::KEY_NUMLOCK => 0x90,
            MappedKey::KEY_SCROLLLOCK => 0x91,
            MappedKey::KEY_KP7 => 0x67,
            MappedKey::KEY_KP8 => 0x68,
            MappedKey::KEY_KP9 => 0x69,
            MappedKey::KEY_KP4 => 0x64,
            MappedKey::KEY_KP5 => 0x65,
            MappedKey::KEY_KP6 => 0x66,
            MappedKey::KEY_KP1 => 0x61,
            MappedKey::KEY_KP2 => 0x62,
            MappedKey::KEY_KP3 => 0x63,
            MappedKey::KEY_KP0 => 0x60,
            MappedKey::KEY_F11 => 0x7A,
            MappedKey::KEY_F12 => 0x7B,
            MappedKey::KEY_HOME => 0x24,
            MappedKey::KEY_UP => 0x26,
            MappedKey::KEY_PAGEUP => 0x21,
            MappedKey::KEY_LEFT => 0x25,
            MappedKey::KEY_RIGHT => 0x27,
            MappedKey::KEY_END => 0x23,
            MappedKey::KEY_DOWN => 0x28,
            MappedKey::KEY_PAGEDOWN => 0x22,
            MappedKey::KEY_INSERT => 0x2D,
            MappedKey::KEY_DELETE => 0x2E,
            MappedKey::KEY_MUTE => 0xAD,
            MappedKey::KEY_VOLUMEDOWN => 0xAE,
            MappedKey::KEY_VOLUMEUP => 0xAF,
            MappedKey::KEY_PLAYPAUSE => 0xB3,
            MappedKey::KEY_STOPCD => 0xB2,
            MappedKey::KEY_NEXTSONG => 0xB0,
            MappedKey::KEY_PREVIOUSSONG => 0xB1,
            MappedKey::KEY_RIGHTCTRL => 0xA3,
            MappedKey::KEY_RIGHTALT => 0xA5,
            MappedKey::KEY_LEFTMETA => 0x5B,
            MappedKey::KEY_RIGHTMETA => 0x5C,
            MappedKey::KEY_OTHER(code) => *code,
        }
    }

    /// The name of the key in a key list.
    pub fn name(&self) -> (name: Option<&'static str>)
        ensures
            match name {
                Some(text) => self.name_spec() == Some(text@),
                None => self.name_spec() is None,
            },
    {
        match self {
            MappedKey::KEY_ESC => Some("KEY_ESC"),
            MappedKey::KEY_1 => Some("KEY_1"),
            MappedKey::KEY_2 => Some("KEY_2"),
            MappedKey::KEY_3 => Some("KEY_3"),
            MappedKey::KEY_4 => Some("KEY_4"),
            MappedKey::KEY_5 => Some("KEY_5"),
            MappedKey::KEY_6 => Some("KEY_6"),
            MappedKey::KEY_7 => Some("KEY_7"),
            MappedKey::KEY_8 => Some("KEY_8"),
            MappedKey::KEY_9 => Some("KEY_9"),
            MappedKey::KEY_0 => Some("KEY_0"),
            MappedKey::KEY_MINUS => Some("KEY_MINUS"),
            MappedKey::KEY_EQUAL => Some("KEY_EQUAL"),
            MappedKey::KEY_BACKSPACE => Some("KEY_BACKSPACE"),
            MappedKey::KEY_MULTIPLY => Some("KEY_MULTIPLY"),
            MappedKey::KEY_TAB => Some("KEY_TAB"),
            MappedKey::KEY_Q => Some("KEY_Q"),
            MappedKey::KEY_W => Some("KEY_W"),
            MappedKey::KEY_E => Some("KEY_E"),
            MappedKey::KEY_R => Some("KEY_R"),
            MappedKey::KEY_T => Some("KEY_T"),
            MappedKey::KEY_Y => Some("KEY_Y"),
            MappedKey::KEY_U => Some("KEY_U"),
            MappedKey::KEY_I => Some("KEY_I"),
            MappedKey::KEY_O => Some("KEY_O"),
            MappedKey::KEY_P => Some("KEY_P"),
            MappedKey::KEY_LEFTBRACE => Some("KEY_LEFTBRACE"),
            MappedKey::KEY_RIGHTBRACE => Some("KEY_RIGHTBRACE"),
            MappedKey::KEY_ENTER => Some("KEY_ENTER"),
            MappedKey::KEY_LEFTCTRL => Some("KEY_LEFTCTRL"),
            MappedKey::KEY_A => Some("KEY_A"),
            MappedKey::KEY_S => Some("KEY_S"),
            MappedKey::KEY_D => Some("KEY_D"),
            MappedKey::KEY_F => Some("KEY_F"),
            MappedKey::KEY_G => Some("KEY_G"),
            MappedKey::KEY_H => Some("KEY_H"),
            MappedKey::KEY_J => Some("KEY_J"),
            MappedKey::KEY_K => Some("KEY_K"),
            MappedKey::KEY_L => Some("KEY_L"),
            MappedKey::KEY_SEMICOLON => Some("KEY_SEMICOLON"),
            MappedKey::KEY_APOSTROPHE => Some("KEY_APOSTROPHE"),
            MappedKey::KEY_GRAVE => Some("KEY_GRAVE"),
            MappedKey::KEY_LEFTSHIFT => Some("KEY_LEFTSHIFT"),
            MappedKey::KEY_BACKSLASH => Some("KEY_BACKSLASH"),
            MappedKey::KEY_Z => Some("KEY_Z"),
            MappedKey::KEY_X => Some("KEY_X"),
            MappedKey::KEY_C => Some("KEY_C"),
            MappedKey::KEY_V => Some("KEY_V"),
            MappedKey::KEY_B => Some("KEY_B"),
            MappedKey::KEY_N => Some("KEY_N"),
            MappedKey::KEY_M => Some("KEY_M"),
            MappedKey::KEY_COMMA => Some("KEY_COMMA"),
            MappedKey::KEY_DOT => Some("KEY_DOT"),
            MappedKey::KEY_SLASH => Some("KEY_SLASH"),
            MappedKey::KEY_RIGHTSHIFT => Some("KEY_RIGHTSHIFT"),
            MappedKey::KEY_LEFTALT => Some("KEY_LEFTALT"),
            MappedKey::KEY_SPACE => Some("KEY_SPACE"),
            MappedKey::KEY_CAPSLOCK => Some("KEY_CAPSLOCK"),
            MappedKey::KEY_F1 => Some("KEY_F1"),
            MappedKey::KEY_F2 => Some("KEY_F2"),
            MappedKey::KEY_F3 => Some("KEY_F3"),
            MappedKey::KEY_F4 => Some("KEY_F4"),
            MappedKey::KEY_F5 => Some("KEY_F5"),
            MappedKey::KEY_F6 => Some("KEY_F6"),
            MappedKey::KEY_F7 => Some("KEY_F7"),
            MappedKey::KEY_F8 => Some("KEY_F8"),
            MappedKey::KEY_F9 => Some("KEY_F9"),
            MappedKey::KEY_F10 => Some("KEY_F10"),
            MappedKey::KEY_NUMLOCK => Some("KEY_NUMLOCK"),
            MappedKey::KEY_SCROLLLOCK => Some("KEY_SCROLLLOCK"),
            MappedKey::KEY_KP7 => Some("KEY_KP7"),
            MappedKey::KEY_KP8 => Some("KEY_KP8"),
            MappedKey::KEY_KP9 => Some("KEY_KP9"),
            MappedKey::KEY_KP4 => Some("KEY_KP4"),
            MappedKey::KEY_KP5 => Some("KEY_KP5"),
            MappedKey::KEY_KP6 => Some("KEY_KP6"),
            MappedKey::KEY_KP1 => Some("KEY_KP1"),
            MappedKey::KEY_KP2 => Some("KEY_KP2"),
            MappedKey::KEY_KP3 => Some("KEY_KP3"),
            MappedKey::KEY_KP0 => Some("KEY_KP0"),
            MappedKey::KEY_F11 => Some("KEY_F11"),
            MappedKey::KEY_F12 => Some("KEY_F12"),
            MappedKey::KEY_HOME => Some("KEY_HOME"),
            MappedKey::KEY_UP => Some("KEY_UP"),
            MappedKey::KEY_PAGEUP => Some("KEY_PAGEUP"),
            MappedKey::KEY_LEFT => Some("KEY_LEFT"),
            MappedKey::KEY_RIGHT => Some("KEY_RIGHT"),
            MappedKey::KEY_END => Some("KEY_END"),
            MappedKey::KEY_DOWN => Some("KEY_DOWN"),
            MappedKey::KEY_PAGEDOWN => Some("KEY_PAGEDOWN"),
            MappedKey::KEY_INSERT => Some("KEY_INSERT"),
            MappedKey::KEY_DELETE => Some("KEY_DELETE"),
            MappedKey::KEY_MUTE => Some("KEY_MUTE"),
            MappedKey::KEY_VOLUMEDOWN => Some("KEY_VOLUMEDOWN"),
            MappedKey::KEY_VOLUMEUP => Some("KEY_VOLUMEUP"),
            MappedKey::KEY_PLAYPAUSE => Some("KEY_PLAYPAUSE"),
            MappedKey::KEY_STOPCD => Some("KEY_STOPCD"),
            MappedKey::KEY_NEXTSONG => Some("KEY_NEXTSONG"),
            MappedKey::KEY_PREVIOUSSONG => Some("KEY_PREVIOUSSONG"),
            MappedKey::KEY_RIGHTCTRL => Some("KEY_RIGHTCTRL"),
            MappedKey::KEY_RIGHTALT => Some("KEY_RIGHTALT"),
            MappedKey::KEY_LEFTMETA => Some("KEY_LEFTMETA"),
            MappedKey::KEY_RIGHTMETA => Some("KEY_RIGHTMETA"),
            MappedKey::KEY_OTHER(_) => None,
        }
    }
}

/// Every named key once, in the order in which a key list is written out.
pub open spec fn all_keys() -> Seq<MappedKey> {
    seq![
        MappedKey::KEY_ESC,
        MappedKey::KEY_1,
        MappedKey::KEY_2,
        MappedKey::KEY_3,
        MappedKey::KEY_4,
        MappedKey::KEY_5,
        MappedKey::KEY_6,
        MappedKey::KEY_7,
        MappedKey::KEY_8,
        MappedKey::KEY_9,
        MappedKey::KEY_0,
        MappedKey::KEY_MINUS,
        MappedKey::KEY_EQUAL,
        MappedKey::KEY_BACKSPACE,
        MappedKey::KEY_MULTIPLY,
        MappedKey::KEY_TAB,
        MappedKey::KEY_Q,
        MappedKey::KEY_W,
        MappedKey::KEY_E,
        MappedKey::KEY_R,
        MappedKey::KEY_T,
        MappedKey::KEY_Y,
        MappedKey::KEY_U,
        MappedKey::KEY_I,
        MappedKey::KEY_O,
        MappedKey::KEY_P,
        MappedKey::KEY_LEFTBRACE,
        MappedKey::KEY_RIGHTBRACE,
        MappedKey::KEY_ENTER,
        MappedKey::KEY_LEFTCTRL,
        MappedKey::KEY_A,
        MappedKey::KEY_S,
        MappedKey::KEY_D,
        MappedKey::KEY_F,
        MappedKey::KEY_G,
        MappedKey::KEY_H,
        MappedKey::KEY_J,
        MappedKey::KEY_K,
        MappedKey::KEY_L,
        MappedKey::KEY_SEMICOLON,
        MappedKey::KEY_APOSTROPHE,
        MappedKey::KEY_GRAVE,
        MappedKey::KEY_LEFTSHIFT,
        MappedKey::KEY_BACKSLASH,
        MappedKey::KEY_Z,
        MappedKey::KEY_X,
        MappedKey::KEY_C,
        MappedKey::KEY_V,
        MappedKey::KEY_B,
        MappedKey::KEY_N,
        MappedKey::KEY_M,
        MappedKey::KEY_COMMA,
        MappedKey::KEY_DOT,
        MappedKey::KEY_SLASH,
        MappedKey::KEY_RIGHTSHIFT,
        MappedKey::KEY_LEFTALT,
        MappedKey::KEY_SPACE,
        MappedKey::KEY_CAPSLOCK,
        MappedKey::KEY_F1,
        MappedKey::KEY_F2,
        MappedKey::KEY_F3,
        MappedKey::KEY_F4,
        MappedKey::KEY_F5,
        MappedKey::KEY_F6,
        MappedKey::KEY_F7,
        MappedKey::KEY_F8,
        MappedKey::KEY_F9,
        MappedKey::KEY_F10,
        MappedKey::KEY_NUMLOCK,
        MappedKey::KEY_SCROLLLOCK,
        MappedKey::KEY_KP7,
        MappedKey::KEY_KP8,
        MappedKey::KEY_KP9,
        MappedKey::KEY_KP4,
        MappedKey::KEY_KP5,
        MappedKey::KEY_KP6,
        MappedKey::KEY_KP1,
        MappedKey::KEY_KP2,
        MappedKey::KEY_KP3,
        MappedKey::KEY_KP0,
        MappedKey::KEY_F11,
        MappedKey::KEY_F12,
        MappedKey::KEY_HOME,
        MappedKey::KEY_UP,
        MappedKey::KEY_PAGEUP,
        MappedKey::KEY_LEFT,
        MappedKey::KEY_RIGHT,
        MappedKey::KEY_END,
        MappedKey::KEY_DOWN,
        MappedKey::KEY_PAGEDOWN,
        MappedKey::KEY_INSERT,
        MappedKey::KEY_DELETE,
        MappedKey::KEY_MUTE,
        MappedKey::KEY_VOLUMEDOWN,
        MappedKey::KEY_VOLUMEUP,
        MappedKey::KEY_PLAYPAUSE,
        MappedKey::KEY_STOPCD,
        MappedKey::KEY_NEXTSONG,
        MappedKey::KEY_PREVIOUSSONG,
        MappedKey::KEY_RIGHTCTRL,
        MappedKey::KEY_RIGHTALT,
        MappedKey::KEY_LEFTMETA,
        MappedKey::KEY_RIGHTMETA,
    ]
}

/// Every named key: the keys that are watched where no key list says which.
pub fn get_all_keys_code() -> (keys: Vec<MappedKey>)
    ensures
        keys@ == all_keys(),
{
    vec![
        MappedKey::KEY_ESC,
        MappedKey::KEY_1,
        MappedKey::KEY_2,
        MappedKey::KEY_3,
        MappedKey::KEY_4,
        MappedKey::KEY_5,
        MappedKey::KEY_6,
        MappedKey::KEY_7,
        MappedKey::KEY_8,
        MappedKey::KEY_9,
        MappedKey::KEY_0,
        MappedKey::KEY_MINUS,
        MappedKey::KEY_EQUAL,
        MappedKey::KEY_BACKSPACE,
        MappedKey::KEY_MULTIPLY,
        MappedKey::KEY_TAB,
        MappedKey::KEY_Q,
        MappedKey::KEY_W,
        MappedKey::KEY_E,
        MappedKey::KEY_R,
        MappedKey::KEY_T,
        MappedKey::KEY_Y,
        MappedKey::KEY_U,
        MappedKey::KEY_I,
        MappedKey::KEY_O,
        MappedKey::KEY_P,
        MappedKey::KEY_LEFTBRACE,
        MappedKey::KEY_RIGHTBRACE,
        MappedKey::KEY_ENTER,
        MappedKey::KEY_LEFTCTRL,
        MappedKey::KEY_A,
        MappedKey::KEY_S,
        MappedKey::KEY_D,
        MappedKey::KEY_F,
        MappedKey::KEY_G,
        MappedKey::KEY_H,
        MappedKey::KEY_J,
        MappedKey::KEY_K,
        MappedKey::KEY_L,
        MappedKey::KEY_SEMICOLON,
        MappedKey::KEY_APOSTROPHE,
        MappedKey::KEY_GRAVE,
        MappedKey::KEY_LEFTSHIFT,
        MappedKey::KEY_BACKSLASH,
        MappedKey::KEY_Z,
        MappedKey::KEY_X,
        MappedKey::KEY_C,
        MappedKey::KEY_V,
        MappedKey::KEY_B,
        MappedKey::KEY_N,
        MappedKey::KEY_M,
        MappedKey::KEY_COMMA,
        MappedKey::KEY_DOT,
        MappedKey::KEY_SLASH,
        MappedKey::KEY_RIGHTSHIFT,
        MappedKey::KEY_LEFTALT,
        MappedKey::KEY_SPACE,
        MappedKey::KEY_CAPSLOCK,
        MappedKey::KEY_F1,
        MappedKey::KEY_F2,
        MappedKey::KEY_F3,
        MappedKey::KEY_F4,
        MappedKey::KEY_F5,
        MappedKey::KEY_F6,
        MappedKey::KEY_F7,
        MappedKey::KEY_F8,
        MappedKey::KEY_F9,
        MappedKey::KEY_F10,
        MappedKey::KEY_NUMLOCK,
        MappedKey::KEY_SCROLLLOCK,
        MappedKey::KEY_KP7,
        MappedKey::KEY_KP8,
        MappedKey::KEY_KP9,
        MappedKey::KEY_KP4,
        MappedKey::KEY_KP5,
        MappedKey::KEY_KP6,
        MappedKey::KEY_KP1,
        MappedKey::KEY_KP2,
        MappedKey::KEY_KP3,
        MappedKey::KEY_KP0,
        MappedKey::KEY_F11,
        MappedKey::KEY_F12,
        MappedKey::KEY_HOME,
        MappedKey::KEY_UP,
        MappedKey::KEY_PAGEUP,
        MappedKey::KEY_LEFT,
        MappedKey::KEY_RIGHT,
        MappedKey::KEY_END,
        MappedKey::KEY_DOWN,
        MappedKey::KEY_PAGEDOWN,
        MappedKey::KEY_INSERT,
        MappedKey::KEY_DELETE,
        MappedKey::KEY_MUTE,
        MappedKey::KEY_VOLUMEDOWN,
        MappedKey::KEY_VOLUMEUP,
        MappedKey::KEY_PLAYPAUSE,
        MappedKey::KEY_STOPCD,
        MappedKey::KEY_NEXTSONG,
        MappedKey::KEY_PREVIOUSSONG,
        MappedKey::KEY_RIGHTCTRL,
        MappedKey::KEY_RIGHTALT,
        MappedKey::KEY_LEFTMETA,
        MappedKey::KEY_RIGHTMETA,
    ]
}

/// The key that a name in a key list stands for: the one key that has the
/// name, if there is one.
pub open spec fn parse_name_spec(name: Seq<char>) -> Option<MappedKey> {
    if exists|key: MappedKey| key.name_spec() == Some(name) {
        Some(choose|key: MappedKey| key.name_spec() == Some(name))
    } else {
        None
    }
}

/// Looks a key up by its name. The name has to match exactly: no other case,
/// no space around it.
pub fn parse_name(name: &str) -> (key: Option<MappedKey>)
    ensures
        key == parse_name_spec(name@),
        match key {
            Some(found) => found.name_spec() == Some(name@),
            None => forall|other: MappedKey| other.name_spec() != Some(name@),
        },
{
    let keys = get_all_keys_code();
    let mut i: usize = 0;
    while i < keys.len()
        invariant
            i <= keys.len(),
            keys@ == all_keys(),
            forall|j: int| 0 <= j < i ==> all_keys()[j].name_spec() != Some(name@),
        decreases keys.len() - i,
    {
        let key = keys[i];
        if let Some(text) = key.name() {
            if str_eq(text, name) {
                proof {
                    let chosen = choose|other: MappedKey| other.name_spec() == Some(name@);
                    lemma_names_differ(key, chosen);
                }
                return Some(key);
            }
        }
        i += 1;
    }
    proof {
        assert forall|other: MappedKey| other.name_spec() != Some(name@) by {
            if other.is_named() {
                lemma_all_keys_hold(other);
            }
        }
    }
    None
}

/// Where a named key stands in `all_keys`.
pub open spec fn position(key: MappedKey) -> int {
    match key {
        MappedKey::KEY_ESC => 0,
        MappedKey::KEY_1 => 1,
        MappedKey::KEY_2 => 2,
        MappedKey::KEY_3 => 3,
        MappedKey::KEY_4 => 4,
        MappedKey::KEY_5 => 5,
        MappedKey::KEY_6 => 6,
        MappedKey::KEY_7 => 7,
        MappedKey::KEY_8 => 8,
        MappedKey::KEY_9 => 9,
        MappedKey::KEY_0 => 10,
        MappedKey::KEY_MINUS => 11,
        MappedKey::KEY_EQUAL => 12,
        MappedKey::KEY_BACKSPACE => 13,
        MappedKey::KEY_MULTIPLY => 14,
        MappedKey::KEY_TAB => 15,
        MappedKey::KEY_Q => 16,
        MappedKey::KEY_W => 17,
        MappedKey::KEY_E => 18,
        MappedKey::KEY_R => 19,
        MappedKey::KEY_T => 20,
        MappedKey::KEY_Y => 21,
        MappedKey::KEY_U => 22,
        MappedKey::KEY_I => 23,
        MappedKey::KEY_O => 24,
        MappedKey::KEY_P => 25,
        MappedKey::KEY_LEFTBRACE => 26,
        MappedKey::KEY_RIGHTBRACE => 27,
        MappedKey::KEY_ENTER => 28,
        MappedKey::KEY_LEFTCTRL => 29,
        MappedKey::KEY_A => 30,
        MappedKey::KEY_S => 31,
        MappedKey::KEY_D => 32,
        MappedKey::KEY_F => 33,
        MappedKey::KEY_G => 34,
        MappedKey::KEY_H => 35,
        MappedKey::KEY_J => 36,
        MappedKey::KEY_K => 37,
        MappedKey::KEY_L => 38,
        MappedKey::KEY_SEMICOLON => 39,
        MappedKey::KEY_APOSTROPHE => 40,
        MappedKey::KEY_GRAVE => 41,
        MappedKey::KEY_LEFTSHIFT => 42,
        MappedKey::KEY_BACKSLASH => 43,
        MappedKey::KEY_Z => 44,
        MappedKey::KEY_X => 45,
        MappedKey::KEY_C => 46,
        MappedKey::KEY_V => 47,
        MappedKey::KEY_B => 48,
        MappedKey::KEY_N => 49,
        MappedKey::KEY_M => 50,
        MappedKey::KEY_COMMA => 51,
        MappedKey::KEY_DOT => 52,
        MappedKey::KEY_SLASH => 53,
        MappedKey::KEY_RIGHTSHIFT => 54,
        MappedKey::KEY_LEFTALT => 55,
        MappedKey::KEY_SPACE => 56,
        MappedKey::KEY_CAPSLOCK => 57,
        MappedKey::KEY_F1 => 58,
        MappedKey::KEY_F2 => 59,
        MappedKey::KEY_F3 => 60,
        MappedKey::KEY_F4 => 61,
        MappedKey::KEY_F5 => 62,
        MappedKey::KEY_F6 => 63,
        MappedKey::KEY_F7 => 64,
        MappedKey::KEY_F8 => 65,
        MappedKey::KEY_F9 => 66,
        MappedKey::KEY_F10 => 67,
        MappedKey::KEY_NUMLOCK => 68,
        MappedKey::KEY_SCROLLLOCK => 69,
        MappedKey::KEY_KP7 => 70,
        MappedKey::KEY_KP8 => 71,
        MappedKey::KEY_KP9 => 72,
        MappedKey::KEY_KP4 => 73,
        MappedKey::KEY_KP5 => 74,
        MappedKey::KEY_KP6 => 75,
        MappedKey::KEY_KP1 => 76,
        MappedKey::KEY_KP2 => 77,
        MappedKey::KEY_KP3 => 78,
        MappedKey::KEY_KP0 => 79,
        MappedKey::KEY_F11 => 80,
        MappedKey::KEY_F12 => 81,
        MappedKey::KEY_HOME => 82,
        MappedKey::KEY_UP => 83,
        MappedKey::KEY_PAGEUP => 84,
        MappedKey::KEY_LEFT => 85,
        MappedKey::KEY_RIGHT => 86,
        MappedKey::KEY_END => 87,
        MappedKey::KEY_DOWN => 88,
        MappedKey::KEY_PAGEDOWN => 89,
        MappedKey::KEY_INSERT => 90,
        MappedKey::KEY_DELETE => 91,
        MappedKey::KEY_MUTE => 92,
        MappedKey::KEY_VOLUMEDOWN => 93,
        MappedKey::KEY_VOLUMEUP => 94,
        MappedKey::KEY_PLAYPAUSE => 95,
        MappedKey::KEY_STOPCD => 96,
        MappedKey::KEY_NEXTSONG => 97,
        MappedKey::KEY_PREVIOUSSONG => 98,
        MappedKey::KEY_RIGHTCTRL => 99,
        MappedKey::KEY_RIGHTALT => 100,
        MappedKey::KEY_LEFTMETA => 101,
        MappedKey::KEY_RIGHTMETA => 102,
        MappedKey::KEY_OTHER(_) => -1,
    }
}

/// What tells a name from every other name in the table: its length, its
/// fifth character and its last.
spec fn name_marks(name: Seq<char>) -> (nat, char, char) {
    (name.len(), name[4], name[name.len() - 1])
}

proof fn lemma_name_marks(key: MappedKey)
    requires
        key.is_named(),
    ensures
        name_marks(key.name_spec().unwrap()) == match key {
            MappedKey::KEY_ESC => (7nat, 'E', 'C'),
            MappedKey::KEY_1 => (5nat, '1', '1'),
            MappedKey::KEY_2 => (5nat, '2', '2'),
            MappedKey::KEY_3 => (5nat, '3', '3'),
            MappedKey::KEY_4 => (5nat, '4', '4'),
            MappedKey::KEY_5 => (5nat, '5', '5'),
            MappedKey::KEY_6 => (5nat, '6', '6'),
            MappedKey::KEY_7 => (5nat, '7', '7'),
            MappedKey::KEY_8 => (5nat, '8', '8'),
            MappedKey::KEY_9 => (5nat, '9', '9'),
            MappedKey::KEY_0 => (5nat, '0', '0'),
            MappedKey::KEY_MINUS => (9nat, 'M', 'S'),
            MappedKey::KEY_EQUAL => (9nat, 'E', 'L'),
            MappedKey::KEY_BACKSPACE => (13nat, 'B', 'E'),
            MappedKey::KEY_MULTIPLY => (12nat, 'M', 'Y'),
            MappedKey::KEY_TAB => (7nat, 'T', 'B'),
            MappedKey::KEY_Q => (5nat, 'Q', 'Q'),
            MappedKey::KEY_W => (5nat, 'W', 'W'),
            MappedKey::KEY_E => (5nat, 'E', 'E'),
            MappedKey::KEY_R => (5nat, 'R', 'R'),
            MappedKey::KEY_T => (5nat, 'T', 'T'),
            MappedKey::KEY_Y => (5nat, 'Y', 'Y'),
            MappedKey::KEY_U => (5nat, 'U', 'U'),
            MappedKey::KEY_I => (5nat, 'I', 'I'),
            MappedKey::KEY_O => (5nat, 'O', 'O'),
            MappedKey::KEY_P => (5nat, 'P', 'P'),
            MappedKey::KEY_LEFTBRACE => (13nat, 'L', 'E'),
            MappedKey::KEY_RIGHTBRACE => (14nat, 'R', 'E'),
            MappedKey::KEY_ENTER => (9nat, 'E', 'R'),
            MappedKey::KEY_LEFTCTRL => (12nat, 'L', 'L'),
            MappedKey::KEY_A => (5nat, 'A', 'A'),
            MappedKey::KEY_S => (5nat, 'S', 'S'),
            MappedKey::KEY_D => (5nat, 'D', 'D'),
            MappedKey::KEY_F => (5nat, 'F', 'F'),
            MappedKey::KEY_G => (5nat, 'G', 'G'),
            MappedKey::KEY_H => (5nat, 'H', 'H'),
            MappedKey::KEY_J => (5nat, 'J', 'J'),
            MappedKey::KEY_K => (5nat, 'K', 'K'),
            MappedKey::KEY_L => (5nat, 'L', 'L'),
            MappedKey::KEY_SEMICOLON => (13nat, 'S', 'N'),
            MappedKey::KEY_APOSTROPHE => (14nat, 'A', 'E'),
            MappedKey::KEY_GRAVE => (9nat, 'G', 'E'),
            MappedKey::KEY_LEFTSHIFT => (13nat, 'L', 'T'),
            MappedKey::KEY_BACKSLASH => (13nat, 'B', 'H'),
            MappedKey::KEY_Z => (5nat, 'Z', 'Z'),
            MappedKey::KEY_X => (5nat, 'X', 'X'),
            MappedKey::KEY_C => (5nat, 'C', 'C'),
            MappedKey::KEY_V => (5nat, 'V', 'V'),
            MappedKey::KEY_B => (5nat, 'B', 'B'),
            MappedKey::KEY_N => (5nat, 'N', 'N'),
            MappedKey::KEY_M => (5nat, 'M', 'M'),
            MappedKey::KEY_COMMA => (9nat, 'C', 'A'),
            MappedKey::KEY_DOT => (7nat, 'D', 'T'),
            MappedKey::KEY_SLASH => (9nat, 'S', 'H'),
            MappedKey::KEY_RIGHTSHIFT => (14nat, 'R', 'T'),
            MappedKey::KEY_LEFTALT => (11nat, 'L', 'T'),
            MappedKey::KEY_SPACE => (9nat, 'S', 'E'),
            MappedKey::KEY_CAPSLOCK => (12nat, 'C', 'K'),
            MappedKey::KEY_F1 => (6nat, 'F', '1'),
            MappedKey::KEY_F2 => (6nat, 'F', '2'),
            MappedKey::KEY_F3 => (6nat, 'F', '3'),
            MappedKey::KEY_F4 => (6nat, 'F', '4'),
            MappedKey::KEY_F5 => (6nat, 'F', '5'),
            MappedKey::KEY_F6 => (6nat, 'F', '6'),
            MappedKey::KEY_F7 => (6nat, 'F', '7'),
            MappedKey::KEY_F8 => (6nat, 'F', '8'),
            MappedKey::KEY_F9 => (6nat, 'F', '9'),
            MappedKey::KEY_F10 => (7nat, 'F', '0'),
            MappedKey::KEY_NUMLOCK => (11nat, 'N', 'K'),
            MappedKey::KEY_SCROLLLOCK => (14nat, 'S', 'K'),
            MappedKey::KEY_KP7 => (7nat, 'K', '7'),
            MappedKey::KEY_KP8 => (7nat, 'K', '8'),
            MappedKey::KEY_KP9 => (7nat, 'K', '9'),
            MappedKey::KEY_KP4 => (7nat, 'K', '4'),
            MappedKey::KEY_KP5 => (7nat, 'K', '5'),
            MappedKey::KEY_KP6 => (7nat, 'K', '6'),
            MappedKey::KEY_KP1 => (7nat, 'K', '1'),
            MappedKey::KEY_KP2 => (7nat, 'K', '2'),
            MappedKey::KEY_KP3 => (7nat, 'K', '3'),
            MappedKey::KEY_KP0 => (7nat, 'K', '0'),
            MappedKey::KEY_F11 => (7nat, 'F', '1'),
            MappedKey::KEY_F12 => (7nat, 'F', '2'),
            MappedKey::KEY_HOME => (8nat, 'H', 'E'),
            MappedKey::KEY_UP => (6nat, 'U', 'P'),
            MappedKey::KEY_PAGEUP => (10nat, 'P', 'P'),
            MappedKey::KEY_LEFT => (8nat, 'L', 'T'),
            MappedKey::KEY_RIGHT => (9nat, 'R', 'T'),
            MappedKey::KEY_END => (7nat, 'E', 'D'),
            MappedKey::KEY_DOWN => (8nat, 'D', 'N'),
            MappedKey::KEY_PAGEDOWN => (12nat, 'P', 'N'),
            MappedKey::KEY_INSERT => (10nat, 'I', 'T'),
            MappedKey::KEY_DELETE => (10nat, 'D', 'E'),
            MappedKey::KEY_MUTE => (8nat, 'M', 'E'),
            MappedKey::KEY_VOLUMEDOWN => (14nat, 'V', 'N'),
            MappedKey::KEY_VOLUMEUP => (12nat, 'V', 'P'),
            MappedKey::KEY_PLAYPAUSE => (13nat, 'P', 'E'),
            MappedKey::KEY_STOPCD => (10nat, 'S', 'D'),
            MappedKey::KEY_NEXTSONG => (12nat, 'N', 'G'),
            MappedKey::KEY_PREVIOUSSONG => (16nat, 'P', 'G'),
            MappedKey::KEY_RIGHTCTRL => (13nat, 'R', 'L'),
            MappedKey::KEY_RIGHTALT => (12nat, 'R', 'T'),
            MappedKey::KEY_LEFTMETA => (12nat, 'L', 'A'),
            MappedKey::KEY_RIGHTMETA => (13nat, 'R', 'A'),
            MappedKey::KEY_OTHER(_) => arbitrary(),
        },
{
    reveal_strlit("KEY_ESC");
    reveal_strlit("KEY_1");
    reveal_strlit("KEY_2");
    reveal_strlit("KEY_3");
    reveal_strlit("KEY_4");
    reveal_strlit("KEY_5");
    reveal_strlit("KEY_6");
    reveal_strlit("KEY_7");
    reveal_strlit("KEY_8");
    reveal_strlit("KEY_9");
    reveal_strlit("KEY_0");
    reveal_strlit("KEY_MINUS");
    reveal_strlit("KEY_EQUAL");
    reveal_strlit("KEY_BACKSPACE");
    reveal_strlit("KEY_MULTIPLY");
    reveal_strlit("KEY_TAB");
    reveal_strlit("KEY_Q");
    reveal_strlit("KEY_W");
    reveal_strlit("KEY_E");
    reveal_strlit("KEY_R");
    reveal_strlit("KEY_T");
    reveal_strlit("KEY_Y");
    reveal_strlit("KEY_U");
    reveal_strlit("KEY_I");
    reveal_strlit("KEY_O");
    reveal_strlit("KEY_P");
    reveal_strlit("KEY_LEFTBRACE");
    reveal_strlit("KEY_RIGHTBRACE");
    reveal_strlit("KEY_ENTER");
    reveal_strlit("KEY_LEFTCTRL");
    reveal_strlit("KEY_A");
    reveal_strlit("KEY_S");
    reveal_strlit("KEY_D");
    reveal_strlit("KEY_F");
    reveal_strlit("KEY_G");
    reveal_strlit("KEY_H");
    reveal_strlit("KEY_J");
    reveal_strlit("KEY_K");
    reveal_strlit("KEY_L");
    reveal_strlit("KEY_SEMICOLON");
    reveal_strlit("KEY_APOSTROPHE");
    reveal_strlit("KEY_GRAVE");
    reveal_strlit("KEY_LEFTSHIFT");
    reveal_strlit("KEY_BACKSLASH");
    reveal_strlit("KEY_Z");
    reveal_strlit("KEY_X");
    reveal_strlit("KEY_C");
    reveal_strlit("KEY_V");
    reveal_strlit("KEY_B");
    reveal_strlit("KEY_N");
    reveal_strlit("KEY_M");
    reveal_strlit("KEY_COMMA");
    reveal_strlit("KEY_DOT");
    reveal_strlit("KEY_SLASH");
    reveal_strlit("KEY_RIGHTSHIFT");
    reveal_strlit("KEY_LEFTALT");
    reveal_strlit("KEY_SPACE");
    reveal_strlit("KEY_CAPSLOCK");
    reveal_strlit("KEY_F1");
    reveal_strlit("KEY_F2");
    reveal_strlit("KEY_F3");
    reveal_strlit("KEY_F4");
    reveal_strlit("KEY_F5");
    reveal_strlit("KEY_F6");
    reveal_strlit("KEY_F7");
    reveal_strlit("KEY_F8");
    reveal_strlit("KEY_F9");
    reveal_strlit("KEY_F10");
    reveal_strlit("KEY_NUMLOCK");
    reveal_strlit("KEY_SCROLLLOCK");
    reveal_strlit("KEY_KP7");
    reveal_strlit("KEY_KP8");
    reveal_strlit("KEY_KP9");
    reveal_strlit("KEY_KP4");
    reveal_strlit("KEY_KP5");
    reveal_strlit("KEY_KP6");
    reveal_strlit("KEY_KP1");
    reveal_strlit("KEY_KP2");
    reveal_strlit("KEY_KP3");
    reveal_strlit("KEY_KP0");
    reveal_strlit("KEY_F11");
    reveal_strlit("KEY_F12");
    reveal_strlit("KEY_HOME");
    reveal_strlit("KEY_UP");
    reveal_strlit("KEY_PAGEUP");
    reveal_strlit("KEY_LEFT");
    reveal_strlit("KEY_RIGHT");
    reveal_strlit("KEY_END");
    reveal_strlit("KEY_DOWN");
    reveal_strlit("KEY_PAGEDOWN");
    reveal_strlit("KEY_INSERT");
    reveal_strlit("KEY_DELETE");
    reveal_strlit("KEY_MUTE");
    reveal_strlit("KEY_VOLUMEDOWN");
    reveal_strlit("KEY_VOLUMEUP");
    reveal_strlit("KEY_PLAYPAUSE");
    reveal_strlit("KEY_STOPCD");
    reveal_strlit("KEY_NEXTSONG");
    reveal_strlit("KEY_PREVIOUSSONG");
    reveal_strlit("KEY_RIGHTCTRL");
    reveal_strlit("KEY_RIGHTALT");
    reveal_strlit("KEY_LEFTMETA");
    reveal_strlit("KEY_RIGHTMETA");
}

/// No two keys share a name.
pub proof fn lemma_names_differ(a: MappedKey, b: MappedKey)
    requires
        a.name_spec() is Some,
        a.name_spec() == b.name_spec(),
    ensures
        a == b,
{
    lemma_name_marks(a);
    lemma_name_marks(b);
}

/// `all_keys` holds the named keys, each at its position and nowhere else.
pub proof fn lemma_all_keys_hold(key: MappedKey)
    ensures
        all_keys().len() == 103,
        key.is_named() ==> 0 <= position(key) < all_keys().len() && all_keys()[position(key)] == key,
        forall|i: int| 0 <= i < all_keys().len() ==> (#[trigger] all_keys()[i]).is_named() && position(all_keys()[i]) == i,
{
}

/// A code keeps its value when it is turned into a key: the code of the key
/// is the code that was given, whether the key has a name or not.
pub proof fn lemma_code_is_kept(code: u16)
    ensures
        key_of_code(code).code_spec() == code,
{
}

/// Each named key is the identity of its own code, so that the named keys and
/// their codes stand one to one.
pub proof fn lemma_key_of_its_code(key: MappedKey)
    requires
        key.is_named(),
    ensures
        key_of_code(key.code_spec()) == key,
{
}

/// Reading a key's name gives the key back: for every key of the table,
/// `parse_name_spec` of its name is that key, whose name is the one read.
pub proof fn lemma_name_round_trip(key: MappedKey)
    requires
        key.is_named(),
    ensures
        key.name_spec() is Some,
        parse_name_spec(key.name_spec().unwrap()) == Some(key),
        parse_name_spec(key.name_spec().unwrap()).unwrap().name_spec() == key.name_spec(),
{
    let name = key.name_spec().unwrap();
    let chosen = choose|other: MappedKey| other.name_spec() == Some(name);
    lemma_names_differ(key, chosen);
}

} // verus!
