//! The key codes of the Linux input layer that this library deals with,
//! and the names under which a key list mentions them.

use crate::text::str_eq;
use vstd::prelude::*;

verus! {

/// The key codes from `first` up to and including `last`, in rising order.
pub open spec fn code_run(first: u16, last: u16) -> Seq<u16> {
    Seq::new((last - first + 1) as nat, |i: int| (first + i) as u16)
}

/// The codes of every key of an ordinary keyboard, in the order in which the
/// input layer numbers them: `KEY_RESERVED` (0) to `KEY_MICMUTE` (248) without
/// the numbers that stand for no key (84 and 195 to 199). Code 153 has two
/// names in the input layer and is listed under each.
pub open spec fn all_keys() -> Seq<u16> {
    code_run(0, 83) + code_run(85, 153) + code_run(153, 194) + code_run(200, 248)
}

/// The codes of the keys that have a name in a key list, in the order in
/// which a key list is written out.
pub open spec fn available_keys() -> Seq<u16> {
    code_run(1, 70) + seq![87u16, 88, 99, 100] + code_run(102, 111) + seq![119u16] + code_run(
        512,
        521,
    )
}

/// The name of a key code in a key list; a code outside `available_keys` has
/// none.
pub open spec fn key_name_spec(code: u16) -> Option<Seq<char>> {
    match code {
        1 => Some("KEY_ESC"@),
        2 => Some("KEY_1"@),
        3 => Some("KEY_2"@),
        4 => Some("KEY_3"@),
        5 => Some("KEY_4"@),
        6 => Some("KEY_5"@),
        7 => Some("KEY_6"@),
        8 => Some("KEY_7"@),
        9 => Some("KEY_8"@),
        10 => Some("KEY_9"@),
        11 => Some("KEY_0"@),
        12 => Some("KEY_MINUS"@),
        13 => Some("KEY_EQUAL"@),
        14 => Some("KEY_BACKSPACE"@),
        15 => Some("KEY_TAB"@),
        16 => Some("KEY_Q"@),
        17 => Some("KEY_W"@),
        18 => Some("KEY_E"@),
        19 => Some("KEY_R"@),
        20 => Some("KEY_T"@),
        21 => Some("KEY_Y"@),
        22 => Some("KEY_U"@),
        23 => Some("KEY_I"@),
        24 => Some("KEY_O"@),
        25 => Some("KEY_P"@),
        26 => Some("KEY_LEFTBRACE"@),
        27 => Some("KEY_RIGHTBRACE"@),
        28 => Some("KEY_ENTER"@),
        29 => Some("KEY_LEFTCTRL"@),
        30 => Some("KEY_A"@),
        31 => Some("KEY_S"@),
        32 => Some("KEY_D"@),
        33 => Some("KEY_F"@),
        34 => Some("KEY_G"@),
        35 => Some("KEY_H"@),
        36 => Some("KEY_J"@),
        37 => Some("KEY_K"@),
        38 => Some("KEY_L"@),
        39 => Some("KEY_SEMICOLON"@),
        40 => Some("KEY_APOSTROPHE"@),
        41 => Some("KEY_GRAVE"@),
        42 => Some("KEY_LEFTSHIFT"@),
        43 => Some("KEY_BACKSLASH"@),
        44 => Some("KEY_Z"@),
        45 => Some("KEY_X"@),
        46 => Some("KEY_C"@),
        47 => Some("KEY_V"@),
        48 => Some("KEY_B"@),
        49 => Some("KEY_N"@),
        50 => Some("KEY_M"@),
        51 => Some("KEY_COMMA"@),
        52 => Some("KEY_DOT"@),
        53 => Some("KEY_SLASH"@),
        54 => Some("KEY_RIGHTSHIFT"@),
        55 => Some("KEY_KPASTERISK"@),
        56 => Some("KEY_LEFTALT"@),
        57 => Some("KEY_SPACE"@),
        58 => Some("KEY_CAPSLOCK"@),
        59 => Some("KEY_F1"@),
        60 => Some("KEY_F2"@),
        61 => Some("KEY_F3"@),
        62 => Some("KEY_F4"@),
        63 => Some("KEY_F5"@),
        64 => Some("KEY_F6"@),
        65 => Some("KEY_F7"@),
        66 => Some("KEY_F8"@),
        67 => Some("KEY_F9"@),
        68 => Some("KEY_F10"@),
        69 => Some("KEY_NUMLOCK"@),
        70 => Some("KEY_SCROLLLOCK"@),
        87 => Some("KEY_F11"@),
        88 => Some("KEY_F12"@),
        99 => Some("KEY_SYSRQ"@),
        100 => Some("KEY_RIGHTALT"@),
        102 => Some("KEY_HOME"@),
        103 => Some("KEY_UP"@),
        104 => Some("KEY_PAGEUP"@),
        105 => Some("KEY_LEFT"@),
        106 => Some("KEY_RIGHT"@),
        107 => Some("KEY_END"@),
        108 => Some("KEY_DOWN"@),
        109 => Some("KEY_PAGEDOWN"@),
        110 => Some("KEY_INSERT"@),
        111 => Some("KEY_DELETE"@),
        119 => Some("KEY_PAUSE"@),
        512 => Some("KEY_NUMERIC_0"@),
        513 => Some("KEY_NUMERIC_1"@),
        514 => Some("KEY_NUMERIC_2"@),
        515 => Some("KEY_NUMERIC_3"@),
        516 => Some("KEY_NUMERIC_4"@),
        517 => Some("KEY_NUMERIC_5"@),
        518 => Some("KEY_NUMERIC_6"@),
        519 => Some("KEY_NUMERIC_7"@),
        520 => Some("KEY_NUMERIC_8"@),
        521 => Some("KEY_NUMERIC_9"@),
        _ => None,
    }
}

/// The code that a name in a key list stands for: the one code that has the
/// name, if there is one.
pub open spec fn parse_name_spec(name: Seq<char>) -> Option<u16> {
    if exists|code: u16| key_name_spec(code) == Some(name) {
        Some(choose|code: u16| key_name_spec(code) == Some(name))
    } else {
        None
    }
}

/// Appends the codes from `first` up to and including `last` to `codes`.
fn push_run(codes: &mut Vec<u16>, first: u16, last: u16)
    requires
        first <= last,
    ensures
        final(codes)@ == old(codes)@ + code_run(first, last),
{
    let mut code = first;
    while code < last
        invariant
            first <= code <= last,
            codes@ == old(codes)@ + code_run(first, code).drop_last(),
        decreases last - code,
    {
        codes.push(code);
        code += 1;
    }
    codes.push(last);
}

/// The codes of every key of an ordinary keyboard: the keys that are watched
/// where no key list says which.
pub fn get_all_keys_code() -> (keys: Vec<u16>)
    ensures
        keys@ == all_keys(),
{
    let mut keys: Vec<u16> = Vec::new();
    push_run(&mut keys, 0, 83);
    push_run(&mut keys, 85, 153);
    push_run(&mut keys, 153, 194);
    push_run(&mut keys, 200, 248);
    keys
}

/// The codes of the keys that a key list can name.
pub fn get_available_keys_code() -> (keys: Vec<u16>)
    ensures
        keys@ == available_keys(),
{
    let mut keys: Vec<u16> = Vec::new();
    push_run(&mut keys, 1, 70);
    keys.push(87);
    keys.push(88);
    keys.push(99);
    keys.push(100);
    push_run(&mut keys, 102, 111);
    keys.push(119);
    push_run(&mut keys, 512, 521);
    keys
}

/// The name of a key code in a key list.
pub fn key_name(code: u16) -> (name: Option<&'static str>)
    ensures
        match name {
            Some(text) => key_name_spec(code) == Some(text@),
            None => key_name_spec(code) is None,
        },
{
    match code {
        1 => Some("KEY_ESC"),
        2 => Some("KEY_1"),
        3 => Some("KEY_2"),
        4 => Some("KEY_3"),
        5 => Some("KEY_4"),
        6 => Some("KEY_5"),
        7 => Some("KEY_6"),
        8 => Some("KEY_7"),
        9 => Some("KEY_8"),
        10 => Some("KEY_9"),
        11 => Some("KEY_0"),
        12 => Some("KEY_MINUS"),
        13 => Some("KEY_EQUAL"),
        14 => Some("KEY_BACKSPACE"),
        15 => Some("KEY_TAB"),
        16 => Some("KEY_Q"),
        17 => Some("KEY_W"),
        18 => Some("KEY_E"),
        19 => Some("KEY_R"),
        20 => Some("KEY_T"),
        21 => Some("KEY_Y"),
        22 => Some("KEY_U"),
        23 => Some("KEY_I"),
        24 => Some("KEY_O"),
        25 => Some("KEY_P"),
        26 => Some("KEY_LEFTBRACE"),
        27 => Some("KEY_RIGHTBRACE"),
        28 => Some("KEY_ENTER"),
        29 => Some("KEY_LEFTCTRL"),
        30 => Some("KEY_A"),
        31 => Some("KEY_S"),
        32 => Some("KEY_D"),
        33 => Some("KEY_F"),
        34 => Some("KEY_G"),
        35 => Some("KEY_H"),
        36 => Some("KEY_J"),
        37 => Some("KEY_K"),
        38 => Some("KEY_L"),
        39 => Some("KEY_SEMICOLON"),
        40 => Some("KEY_APOSTROPHE"),
        41 => Some("KEY_GRAVE"),
        42 => Some("KEY_LEFTSHIFT"),
        43 => Some("KEY_BACKSLASH"),
        44 => Some("KEY_Z"),
        45 => Some("KEY_X"),
        46 => Some("KEY_C"),
        47 => Some("KEY_V"),
        48 => Some("KEY_B"),
        49 => Some("KEY_N"),
        50 => Some("KEY_M"),
        51 => Some("KEY_COMMA"),
        52 => Some("KEY_DOT"),
        53 => Some("KEY_SLASH"),
        54 => Some("KEY_RIGHTSHIFT"),
        55 => Some("KEY_KPASTERISK"),
        56 => Some("KEY_LEFTALT"),
        57 => Some("KEY_SPACE"),
        58 => Some("KEY_CAPSLOCK"),
        59 => Some("KEY_F1"),
        60 => Some("KEY_F2"),
        61 => Some("KEY_F3"),
        62 => Some("KEY_F4"),
        63 => Some("KEY_F5"),
        64 => Some("KEY_F6"),
        65 => Some("KEY_F7"),
        66 => Some("KEY_F8"),
        67 => Some("KEY_F9"),
        68 => Some("KEY_F10"),
        69 => Some("KEY_NUMLOCK"),
        70 => Some("KEY_SCROLLLOCK"),
        87 => Some("KEY_F11"),
        88 => Some("KEY_F12"),
        99 => Some("KEY_SYSRQ"),
        100 => Some("KEY_RIGHTALT"),
        102 => Some("KEY_HOME"),
        103 => Some("KEY_UP"),
        104 => Some("KEY_PAGEUP"),
        105 => Some("KEY_LEFT"),
        106 => Some("KEY_RIGHT"),
        107 => Some("KEY_END"),
        108 => Some("KEY_DOWN"),
        109 => Some("KEY_PAGEDOWN"),
        110 => Some("KEY_INSERT"),
        111 => Some("KEY_DELETE"),
        119 => Some("KEY_PAUSE"),
        512 => Some("KEY_NUMERIC_0"),
        513 => Some("KEY_NUMERIC_1"),
        514 => Some("KEY_NUMERIC_2"),
        515 => Some("KEY_NUMERIC_3"),
        516 => Some("KEY_NUMERIC_4"),
        517 => Some("KEY_NUMERIC_5"),
        518 => Some("KEY_NUMERIC_6"),
        519 => Some("KEY_NUMERIC_7"),
        520 => Some("KEY_NUMERIC_8"),
        521 => Some("KEY_NUMERIC_9"),
        _ => None,
    }
}

/// Looks a key code up by its name. The name has to match exactly: no other
/// case, no space around it.
pub fn parse_name(name: &str) -> (code: Option<u16>)
    ensures
        code == parse_name_spec(name@),
        match code {
            Some(found) => key_name_spec(found) == Some(name@),
            None => forall|other: u16| key_name_spec(other) != Some(name@),
        },
{
    let keys = get_available_keys_code();
    let mut i: usize = 0;
    while i < keys.len()
        invariant
            i <= keys.len(),
            keys@ == available_keys(),
            forall|j: int| 0 <= j < i ==> key_name_spec(available_keys()[j]) != Some(name@),
        decreases keys.len() - i,
    {
        let code = keys[i];
        if let Some(text) = key_name(code) {
            if str_eq(text, name) {
                proof {
                    let chosen = choose|other: u16| key_name_spec(other) == Some(name@);
                    lemma_names_differ(code, chosen);
                }
                return Some(code);
            }
        }
        i += 1;
    }
    proof {
        assert forall|other: u16| key_name_spec(other) != Some(name@) by {
            if key_name_spec(other) is Some {
                lemma_available_keys_hold(other);
            }
        }
    }
    None
}

/// What tells a name from every other name in the table: its length, its
/// fifth character and its last.
spec fn name_marks(name: Seq<char>) -> (nat, char, char) {
    (name.len(), name[4], name[name.len() - 1])
}

proof fn lemma_name_marks(code: u16)
    requires
        key_name_spec(code) is Some,
    ensures
        name_marks(key_name_spec(code).unwrap()) == match code {
            1 => (7nat, 'E', 'C'),
            2 => (5nat, '1', '1'),
            3 => (5nat, '2', '2'),
            4 => (5nat, '3', '3'),
            5 => (5nat, '4', '4'),
            6 => (5nat, '5', '5'),
            7 => (5nat, '6', '6'),
            8 => (5nat, '7', '7'),
            9 => (5nat, '8', '8'),
            10 => (5nat, '9', '9'),
            11 => (5nat, '0', '0'),
            12 => (9nat, 'M', 'S'),
            13 => (9nat, 'E', 'L'),
            14 => (13nat, 'B', 'E'),
            15 => (7nat, 'T', 'B'),
            16 => (5nat, 'Q', 'Q'),
            17 => (5nat, 'W', 'W'),
            18 => (5nat, 'E', 'E'),
            19 => (5nat, 'R', 'R'),
            20 => (5nat, 'T', 'T'),
            21 => (5nat, 'Y', 'Y'),
            22 => (5nat, 'U', 'U'),
            23 => (5nat, 'I', 'I'),
            24 => (5nat, 'O', 'O'),
            25 => (5nat, 'P', 'P'),
            26 => (13nat, 'L', 'E'),
            27 => (14nat, 'R', 'E'),
            28 => (9nat, 'E', 'R'),
            29 => (12nat, 'L', 'L'),
            30 => (5nat, 'A', 'A'),
            31 => (5nat, 'S', 'S'),
            32 => (5nat, 'D', 'D'),
            33 => (5nat, 'F', 'F'),
            34 => (5nat, 'G', 'G'),
            35 => (5nat, 'H', 'H'),
            36 => (5nat, 'J', 'J'),
            37 => (5nat, 'K', 'K'),
            38 => (5nat, 'L', 'L'),
            39 => (13nat, 'S', 'N'),
            40 => (14nat, 'A', 'E'),
            41 => (9nat, 'G', 'E'),
            42 => (13nat, 'L', 'T'),
            43 => (13nat, 'B', 'H'),
            44 => (5nat, 'Z', 'Z'),
            45 => (5nat, 'X', 'X'),
            46 => (5nat, 'C', 'C'),
            47 => (5nat, 'V', 'V'),
            48 => (5nat, 'B', 'B'),
            49 => (5nat, 'N', 'N'),
            50 => (5nat, 'M', 'M'),
            51 => (9nat, 'C', 'A'),
            52 => (7nat, 'D', 'T'),
            53 => (9nat, 'S', 'H'),
            54 => (14nat, 'R', 'T'),
            55 => (14nat, 'K', 'K'),
            56 => (11nat, 'L', 'T'),
            57 => (9nat, 'S', 'E'),
            58 => (12nat, 'C', 'K'),
            59 => (6nat, 'F', '1'),
            60 => (6nat, 'F', '2'),
            61 => (6nat, 'F', '3'),
            62 => (6nat, 'F', '4'),
            63 => (6nat, 'F', '5'),
            64 => (6nat, 'F', '6'),
            65 => (6nat, 'F', '7'),
            66 => (6nat, 'F', '8'),
            67 => (6nat, 'F', '9'),
            68 => (7nat, 'F', '0'),
            69 => (11nat, 'N', 'K'),
            70 => (14nat, 'S', 'K'),
            87 => (7nat, 'F', '1'),
            88 => (7nat, 'F', '2'),
            99 => (9nat, 'S', 'Q'),
            100 => (12nat, 'R', 'T'),
            102 => (8nat, 'H', 'E'),
            103 => (6nat, 'U', 'P'),
            104 => (10nat, 'P', 'P'),
            105 => (8nat, 'L', 'T'),
            106 => (9nat, 'R', 'T'),
            107 => (7nat, 'E', 'D'),
            108 => (8nat, 'D', 'N'),
            109 => (12nat, 'P', 'N'),
            110 => (10nat, 'I', 'T'),
            111 => (10nat, 'D', 'E'),
            119 => (9nat, 'P', 'E'),
            512 => (13nat, 'N', '0'),
            513 => (13nat, 'N', '1'),
            514 => (13nat, 'N', '2'),
            515 => (13nat, 'N', '3'),
            516 => (13nat, 'N', '4'),
            517 => (13nat, 'N', '5'),
            518 => (13nat, 'N', '6'),
            519 => (13nat, 'N', '7'),
            520 => (13nat, 'N', '8'),
            521 => (13nat, 'N', '9'),
            _ => arbitrary(),
        },
{
    reveal_strlit("KEY_ESC");
    reveal_strlit("KEY_1");
    reveal_strlit("KEY_2");
    reveal_strlit("KEY_3");
    reveal_strlit("KEY_4");
    reveal_strlit("KEY_5");
    reveal_strlit("KEY_6");
    reveal_strlit("KEY_7");
    reveal_strlit("KEY_8");
    reveal_strlit("KEY_9");
    reveal_strlit("KEY_0");
    reveal_strlit("KEY_MINUS");
    reveal_strlit("KEY_EQUAL");
    reveal_strlit("KEY_BACKSPACE");
    reveal_strlit("KEY_TAB");
    reveal_strlit("KEY_Q");
    reveal_strlit("KEY_W");
    reveal_strlit("KEY_E");
    reveal_strlit("KEY_R");
    reveal_strlit("KEY_T");
    reveal_strlit("KEY_Y");
    reveal_strlit("KEY_U");
    reveal_strlit("KEY_I");
    reveal_strlit("KEY_O");
    reveal_strlit("KEY_P");
    reveal_strlit("KEY_LEFTBRACE");
    reveal_strlit("KEY_RIGHTBRACE");
    reveal_strlit("KEY_ENTER");
    reveal_strlit("KEY_LEFTCTRL");
    reveal_strlit("KEY_A");
    reveal_strlit("KEY_S");
    reveal_strlit("KEY_D");
    reveal_strlit("KEY_F");
    reveal_strlit("KEY_G");
    reveal_strlit("KEY_H");
    reveal_strlit("KEY_J");
    reveal_strlit("KEY_K");
    reveal_strlit("KEY_L");
    reveal_strlit("KEY_SEMICOLON");
    reveal_strlit("KEY_APOSTROPHE");
    reveal_strlit("KEY_GRAVE");
    reveal_strlit("KEY_LEFTSHIFT");
    reveal_strlit("KEY_BACKSLASH");
    reveal_strlit("KEY_Z");
    reveal_strlit("KEY_X");
    reveal_strlit("KEY_C");
    reveal_strlit("KEY_V");
    reveal_strlit("KEY_B");
    reveal_strlit("KEY_N");
    reveal_strlit("KEY_M");
    reveal_strlit("KEY_COMMA");
    reveal_strlit("KEY_DOT");
    reveal_strlit("KEY_SLASH");
    reveal_strlit("KEY_RIGHTSHIFT");
    reveal_strlit("KEY_KPASTERISK");
    reveal_strlit("KEY_LEFTALT");
    reveal_strlit("KEY_SPACE");
    reveal_strlit("KEY_CAPSLOCK");
    reveal_strlit("KEY_F1");
    reveal_strlit("KEY_F2");
    reveal_strlit("KEY_F3");
    reveal_strlit("KEY_F4");
    reveal_strlit("KEY_F5");
    reveal_strlit("KEY_F6");
    reveal_strlit("KEY_F7");
    reveal_strlit("KEY_F8");
    reveal_strlit("KEY_F9");
    reveal_strlit("KEY_F10");
    reveal_strlit("KEY_NUMLOCK");
    reveal_strlit("KEY_SCROLLLOCK");
    reveal_strlit("KEY_F11");
    reveal_strlit("KEY_F12");
    reveal_strlit("KEY_SYSRQ");
    reveal_strlit("KEY_RIGHTALT");
    reveal_strlit("KEY_HOME");
    reveal_strlit("KEY_UP");
    reveal_strlit("KEY_PAGEUP");
    reveal_strlit("KEY_LEFT");
    reveal_strlit("KEY_RIGHT");
    reveal_strlit("KEY_END");
    reveal_strlit("KEY_DOWN");
    reveal_strlit("KEY_PAGEDOWN");
    reveal_strlit("KEY_INSERT");
    reveal_strlit("KEY_DELETE");
    reveal_strlit("KEY_PAUSE");
    reveal_strlit("KEY_NUMERIC_0");
    reveal_strlit("KEY_NUMERIC_1");
    reveal_strlit("KEY_NUMERIC_2");
    reveal_strlit("KEY_NUMERIC_3");
    reveal_strlit("KEY_NUMERIC_4");
    reveal_strlit("KEY_NUMERIC_5");
    reveal_strlit("KEY_NUMERIC_6");
    reveal_strlit("KEY_NUMERIC_7");
    reveal_strlit("KEY_NUMERIC_8");
    reveal_strlit("KEY_NUMERIC_9");
}

/// No two key codes share a name.
pub proof fn lemma_names_differ(a: u16, b: u16)
    requires
        key_name_spec(a) is Some,
        key_name_spec(a) == key_name_spec(b),
    ensures
        a == b,
{
    lemma_name_marks(a);
    lemma_name_marks(b);
}

/// Where a code stands in `available_keys`.
pub open spec fn position(code: u16) -> int {
    if 1 <= code <= 70 {
        code - 1
    } else if code == 87 || code == 88 {
        code - 87 + 70
    } else if code == 99 || code == 100 {
        code - 99 + 72
    } else if 102 <= code <= 111 {
        code - 102 + 74
    } else if code == 119 {
        84
    } else if 512 <= code <= 521 {
        code - 512 + 85
    } else {
        -1
    }
}

/// `available_keys` holds the codes that have a name, each at its position
/// and nowhere else.
pub proof fn lemma_available_keys_hold(code: u16)
    ensures
        available_keys().len() == 95,
        key_name_spec(code) is Some ==> 0 <= position(code) < available_keys().len()
            && available_keys()[position(code)] == code,
        forall|i: int|
            0 <= i < available_keys().len() ==> key_name_spec(#[trigger] available_keys()[i])
                is Some && position(available_keys()[i]) == i,
{
}

/// Every code of `all_keys` fits the limits of the input layer, which numbers
/// its keys below 0x300.
pub proof fn lemma_all_keys_bounds()
    ensures
        all_keys().len() == 244,
        forall|i: int| 0 <= i < all_keys().len() ==> #[trigger] all_keys()[i] <= 248,
{
}

/// Reading a key's name gives the key back: for every code of
/// `available_keys`, `parse_name_spec` of its name is that code, whose name is
/// the one read.
pub proof fn lemma_name_round_trip(code: u16)
    requires
        available_keys().contains(code),
    ensures
        key_name_spec(code) is Some,
        parse_name_spec(key_name_spec(code).unwrap()) == Some(code),
        key_name_spec(parse_name_spec(key_name_spec(code).unwrap()).unwrap()) == key_name_spec(code),
{
    lemma_available_keys_hold(code);
    let name = key_name_spec(code).unwrap();
    let chosen = choose|other: u16| key_name_spec(other) == Some(name);
    lemma_names_differ(code, chosen);
}

} // verus!
