//! Whole numbers as decimal text, both ways.

use vstd::prelude::*;
use vstd::string::StringExecFns;

verus! {

/// Whether `c` is one of the ten decimal digits.
pub open spec fn is_digit(c: char) -> bool {
    '0' <= c <= '9'
}

/// The number that a run of decimal digits stands for.
pub open spec fn digits_value(digits: Seq<char>) -> nat
    decreases digits.len(),
{
    if digits.len() == 0 {
        0
    } else {
        (digits_value(digits.drop_last()) * 10 + (digits.last() as u32 - '0' as u32)) as nat
    }
}

/// What remains of `text` once one leading plus sign, if there is one, is taken off.
pub open spec fn without_plus_sign(text: Seq<char>) -> Seq<char> {
    if text.len() > 0 && text[0] == '+' {
        text.subrange(1, text.len() as int)
    } else {
        text
    }
}

/// The number that `text` stands for, where the text is an optional plus sign
/// followed by one or more decimal digits and nothing else, and the number is
/// at most `max`; `None` for every other text.
pub open spec fn unsigned_from_text(text: Seq<char>, max: nat) -> Option<nat> {
    let digits = without_plus_sign(text);
    if digits.len() > 0 && (forall|i: int| 0 <= i < digits.len() ==> is_digit(#[trigger] digits[i]))
        && digits_value(digits) <= max {
        Some(digits_value(digits))
    } else {
        None
    }
}

/// The decimal digit for a number below ten.
pub open spec fn digit_char(digit: nat) -> char {
    if digit == 0 {
        '0'
    } else if digit == 1 {
        '1'
    } else if digit == 2 {
        '2'
    } else if digit == 3 {
        '3'
    } else if digit == 4 {
        '4'
    } else if digit == 5 {
        '5'
    } else if digit == 6 {
        '6'
    } else if digit == 7 {
        '7'
    } else if digit == 8 {
        '8'
    } else {
        '9'
    }
}

/// The decimal digits of `number`, without leading zeros.
pub open spec fn decimal_digits(number: nat) -> Seq<char>
    decreases number,
{
    if number < 10 {
        seq![digit_char(number)]
    } else {
        decimal_digits(number / 10).push(digit_char(number % 10))
    }
}

/// Calls `str::parse::<u8>` of the standard library.
///
/// Trusted: as its documentation says, it accepts an optional plus sign
/// followed by decimal digits only, and fails on an empty text, on any other
/// character and on a number above 255.
#[verifier::external_body]
pub(crate) fn parse_u8(text: &str) -> (parsed: Option<u8>)
    ensures
        match parsed {
            Some(number) => unsigned_from_text(text@, 255) == Some(number as nat),
            None => unsigned_from_text(text@, 255).is_none(),
        },
{
    match text.parse::<u8>() {
        Ok(number) => Some(number),
        Err(_) => None,
    }
}

/// Calls `str::parse::<u32>` of the standard library.
///
/// Trusted: as its documentation says, it accepts an optional plus sign
/// followed by decimal digits only, and fails on an empty text, on any other
/// character and on a number above 4294967295.
#[verifier::external_body]
pub(crate) fn parse_u32(text: &str) -> (parsed: Option<u32>)
    ensures
        match parsed {
            Some(number) => unsigned_from_text(text@, 4294967295) == Some(number as nat),
            None => unsigned_from_text(text@, 4294967295).is_none(),
        },
{
    match text.parse::<u32>() {
        Ok(number) => Some(number),
        Err(_) => None,
    }
}

/// The text of one decimal digit.
fn digit_text(digit: u64) -> (text: &'static str)
    requires
        digit < 10,
    ensures
        text@ == seq![digit_char(digit as nat)],
{
    proof {
        reveal_strlit("0");
        reveal_strlit("1");
        reveal_strlit("2");
        reveal_strlit("3");
        reveal_strlit("4");
        reveal_strlit("5");
        reveal_strlit("6");
        reveal_strlit("7");
        reveal_strlit("8");
        reveal_strlit("9");
    }
    let text = if digit == 0 {
        "0"
    } else if digit == 1 {
        "1"
    } else if digit == 2 {
        "2"
    } else if digit == 3 {
        "3"
    } else if digit == 4 {
        "4"
    } else if digit == 5 {
        "5"
    } else if digit == 6 {
        "6"
    } else if digit == 7 {
        "7"
    } else if digit == 8 {
        "8"
    } else {
        "9"
    };
    assert(text@ =~= seq![digit_char(digit as nat)]);
    text
}

/// `number` written in decimal digits, without leading zeros.
pub fn decimal_text(number: u64) -> (text: String)
    ensures
        text@ == decimal_digits(number as nat),
    decreases number,
{
    if number < 10 {
        String::from_str(digit_text(number))
    } else {
        let mut text = decimal_text(number / 10);
        text.append(digit_text(number % 10));
        assert(text@ =~= decimal_digits((number / 10) as nat).push(
            digit_char((number % 10) as nat),
        ));
        text
    }
}

} // verus!
