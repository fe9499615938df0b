//! Whole numbers in decimal notation, as a settings file holds them.

use vstd::prelude::*;
use vstd::string::StringExecFns;

verus! {

/// The decimal digit that stands for `value`, for a value below ten.
pub open spec fn digit_char(value: int) -> char {
    if value == 0 {
        '0'
    } else if value == 1 {
        '1'
    } else if value == 2 {
        '2'
    } else if value == 3 {
        '3'
    } else if value == 4 {
        '4'
    } else if value == 5 {
        '5'
    } else if value == 6 {
        '6'
    } else if value == 7 {
        '7'
    } else if value == 8 {
        '8'
    } else {
        '9'
    }
}

/// The value of a decimal digit; no other character has one.
pub open spec fn digit_value(digit: char) -> Option<int> {
    if digit == '0' {
        Some(0)
    } else if digit == '1' {
        Some(1)
    } else if digit == '2' {
        Some(2)
    } else if digit == '3' {
        Some(3)
    } else if digit == '4' {
        Some(4)
    } else if digit == '5' {
        Some(5)
    } else if digit == '6' {
        Some(6)
    } else if digit == '7' {
        Some(7)
    } else if digit == '8' {
        Some(8)
    } else if digit == '9' {
        Some(9)
    } else {
        None
    }
}

/// Whether a text is made of decimal digits only.
pub open spec fn all_digits(text: Seq<char>) -> bool {
    forall|i: int| 0 <= i < text.len() ==> digit_value(#[trigger] text[i]) is Some
}

/// The number that a run of decimal digits stands for.
pub open spec fn decimal_value(digits: Seq<char>) -> int
    decreases digits.len(),
{
    if digits.len() == 0 {
        0
    } else {
        decimal_value(digits.drop_last()) * 10 + digit_value(digits.last()).unwrap()
    }
}

/// A text without the `+` that it may start with.
pub open spec fn unsigned_part(text: Seq<char>) -> Seq<char> {
    if text.len() > 0 && text[0] == '+' {
        text.drop_first()
    } else {
        text
    }
}

/// The number that a text stands for, if it stands for one that is at most
/// `max`: the text is a run of at least one decimal digit, which a `+` may
/// precede. Nothing else is accepted, no space, no sign alone, no `-`.
pub open spec fn parse_number_spec(text: Seq<char>, max: int) -> Option<int> {
    let digits = unsigned_part(text);
    if digits.len() > 0 && all_digits(digits) && decimal_value(digits) <= max {
        Some(decimal_value(digits))
    } else {
        None
    }
}

/// A number in decimal notation, without sign and without leading zeros.
pub open spec fn decimal_spec(number: nat) -> Seq<char>
    decreases number,
{
    if number < 10 {
        seq![digit_char(number as int)]
    } else {
        decimal_spec(number / 10).push(digit_char((number % 10) as int))
    }
}

fn digit_of(digit: char) -> (value: Option<u64>)
    ensures
        match value {
            Some(v) => digit_value(digit) == Some(v as int),
            None => digit_value(digit) is None,
        },
{
    match digit {
        '0' => Some(0),
        '1' => Some(1),
        '2' => Some(2),
        '3' => Some(3),
        '4' => Some(4),
        '5' => Some(5),
        '6' => Some(6),
        '7' => Some(7),
        '8' => Some(8),
        '9' => Some(9),
        _ => None,
    }
}

fn digit_text(value: u64) -> (text: &'static str)
    requires
        value < 10,
    ensures
        text@ == seq![digit_char(value as int)],
{
    proof {
        reveal_strlit("0");
        reveal_strlit("1");
        reveal_strlit("2");
        reveal_strlit("3");
        reveal_strlit("4");
        reveal_strlit("5");
        reveal_strlit("6");
        reveal_strlit("7");
        reveal_strlit("8");
        reveal_strlit("9");
    }
    match value {
        0 => "0",
        1 => "1",
        2 => "2",
        3 => "3",
        4 => "4",
        5 => "5",
        6 => "6",
        7 => "7",
        8 => "8",
        _ => "9",
    }
}

/// A run of digits stands for at least as much as any run it starts with.
proof fn lemma_decimal_value_grows(digits: Seq<char>, length: int)
    requires
        all_digits(digits),
        0 <= length <= digits.len(),
    ensures
        0 <= decimal_value(digits.take(length)) <= decimal_value(digits),
    decreases digits.len() - length,
{
    if length == digits.len() {
        assert(digits.take(length) == digits);
        lemma_decimal_value_is_natural(digits);
    } else {
        lemma_decimal_value_grows(digits, length + 1);
        assert(digits.take(length + 1).drop_last() == digits.take(length));
        lemma_decimal_value_is_natural(digits.take(length));
    }
}

proof fn lemma_decimal_value_is_natural(digits: Seq<char>)
    requires
        all_digits(digits),
    ensures
        0 <= decimal_value(digits),
    decreases digits.len(),
{
    if digits.len() > 0 {
        lemma_decimal_value_is_natural(digits.drop_last());
    }
}

/// Reads a number of at most 64 bits.
pub fn parse_u64(text: &str) -> (number: Option<u64>)
    ensures
        match number {
            Some(n) => parse_number_spec(text@, u64::MAX as int) == Some(n as int),
            None => parse_number_spec(text@, u64::MAX as int) is None,
        },
{
    let length = text.unicode_len();
    let digits = if length > 0 && text.get_char(0) == '+' {
        text.substring_char(1, length)
    } else {
        text
    };
    let mut value: u64 = 0;
    let mut empty = true;
    for c in it: digits.chars()
        invariant
            it.seq() == digits@,
            digits@ == unsigned_part(text@),
            empty == (it.index() == 0),
            all_digits(digits@.take(it.index())),
            value == decimal_value(digits@.take(it.index())),
    {
        assert(digits@.take(it.index() + 1).drop_last() == digits@.take(it.index()));
        let digit = match digit_of(c) {
            Some(digit) => digit,
            None => {
                return None;
            },
        };
        let grown = match value.checked_mul(10) {
            Some(tenfold) => tenfold.checked_add(digit),
            None => None,
        };
        match grown {
            Some(grown) => {
                value = grown;
            },
            None => {
                proof {
                    if all_digits(digits@) {
                        lemma_decimal_value_grows(digits@, it.index() + 1);
                    }
                }
                return None;
            },
        }
        empty = false;
    }
    assert(digits@.take(digits@.len() as int) == digits@);
    if empty {
        None
    } else {
        Some(value)
    }
}

/// Reads a number of at most 32 bits.
pub fn parse_u32(text: &str) -> (number: Option<u32>)
    ensures
        match number {
            Some(n) => parse_number_spec(text@, u32::MAX as int) == Some(n as int),
            None => parse_number_spec(text@, u32::MAX as int) is None,
        },
{
    match parse_u64(text) {
        Some(wide) => if wide <= u32::MAX as u64 {
            Some(wide as u32)
        } else {
            None
        },
        None => None,
    }
}

/// Writes a number in decimal notation.
pub fn to_decimal(number: u64) -> (text: String)
    ensures
        text@ == decimal_spec(number as nat),
    decreases number,
{
    if number < 10 {
        String::from_str(digit_text(number))
    } else {
        let mut text = to_decimal(number / 10);
        text.append(digit_text(number % 10));
        text
    }
}

/// What is written can be read: a number in decimal notation stands for that
/// number.
pub proof fn lemma_decimal_round_trip(number: nat, max: int)
    requires
        number <= max,
    ensures
        parse_number_spec(decimal_spec(number), max) == Some(number as int),
{
    lemma_decimal_is_digits(number);
    let text = decimal_spec(number);
    assert(text[0] != '+') by {
        assert(digit_value(text[0]) is Some);
    }
}

proof fn lemma_decimal_is_digits(number: nat)
    ensures
        decimal_spec(number).len() > 0,
        all_digits(decimal_spec(number)),
        decimal_value(decimal_spec(number)) == number,
    decreases number,
{
    let text = decimal_spec(number);
    if number < 10 {
        assert(decimal_value(text.drop_last()) == 0);
    } else {
        lemma_decimal_is_digits(number / 10);
        assert(text.drop_last() == decimal_spec(number / 10));
    }
}

} // verus!
