//! Checks on the lengths that a caller asks for, given as text.
//!
//! A text is an integer when it is decimal digits, with or without a `+` in
//! front, however many digits there are. An integer outside the range asked
//! for is refused for its value, anything else for not being an integer.

use std::num::ParseIntError;
use vstd::prelude::*;
use vstd::string::{is_ascii, is_ascii_spec_bytes, StringSliceAdditionalSpecFns};

verus! {

/// `std::num::ParseIntError`, carried as it is.
#[verifier::external_type_specification]
#[verifier::external_body]
pub struct ExParseIntError(ParseIntError);

/// The number that a run of decimal digits writes.
pub open spec fn decimal_value(digits: Seq<char>) -> nat
    decreases digits.len(),
{
    if digits.len() == 0 {
        0
    } else {
        (decimal_value(digits.drop_last()) * 10 + (digits.last() as int - '0' as int)) as nat
    }
}

/// Whether `digits` is one decimal digit or more and nothing else.
pub open spec fn is_decimal(digits: Seq<char>) -> bool {
    &&& digits.len() > 0
    &&& forall|i: int| 0 <= i < digits.len() ==> '0' <= #[trigger] digits[i] <= '9'
}

/// The text without the `+` that may stand in front of it.
pub open spec fn unsigned_part(text: Seq<char>) -> Seq<char> {
    if text.len() > 0 && text[0] == '+' {
        text.drop_first()
    } else {
        text
    }
}

/// The `u32` that `text` writes: an optional `+`, then decimal digits only,
/// of a value that fits. Any other text writes none.
pub open spec fn decimal_u32(text: Seq<char>) -> Option<u32> {
    let digits = unsigned_part(text);
    if is_decimal(digits) && decimal_value(digits) <= u32::MAX {
        Some(decimal_value(digits) as u32)
    } else {
        None
    }
}

/// The decimal digit that stands for `d`.
pub open spec fn digit(d: nat) -> char {
    ('0' as nat + d) as char
}

/// The decimal text of `n`, without a sign or leading zeros.
pub open spec fn decimal_text(n: nat) -> Seq<char>
    decreases n,
{
    if n < 10 {
        seq![digit(n)]
    } else {
        decimal_text(n / 10).push(digit(n % 10))
    }
}

/// Calls `str::parse::<u32>`.
///
/// Trusted: as the standard library documents it, the text must be an
/// optional `+` sign followed by decimal digits only, and the value must fit a
/// `u32`; the number written is returned, anything else is an error.
#[verifier::external_body]
fn parse_u32(text: &str) -> (parsed: Result<u32, ParseIntError>)
    ensures
        parsed is Ok <==> decimal_u32(text@) is Some,
        parsed is Ok ==> Some(parsed->Ok_0) == decimal_u32(text@),
{
    text.parse::<u32>()
}

/// What a length check answers on `text` for the range `least..=most`: the
/// number written, or why it is refused. Only a text that is no integer is
/// refused as such; an integer is judged by its value, whatever its size.
pub open spec fn checked_length(
    text: Seq<char>,
    least: u32,
    most: u32,
    range_reason: Seq<char>,
) -> Result<u32, Seq<char>> {
    let digits = unsigned_part(text);
    if !is_decimal(digits) {
        Err("Value must be an integer"@)
    } else if least <= decimal_value(digits) <= most {
        Ok(decimal_value(digits) as u32)
    } else {
        Err(range_reason)
    }
}

/// The answer of a length check, with the reason of a refusal as a sequence of
/// characters.
pub open spec fn answer_view(answer: Result<u32, String>) -> Result<u32, Seq<char>> {
    match answer {
        Ok(n) => Ok(n),
        Err(reason) => Err(reason@),
    }
}

/// Whether `s` is decimal digits and nothing else after an optional `+`.
fn is_integer(s: &str) -> (answer: bool)
    ensures
        answer == is_decimal(unsigned_part(s@)),
{
    broadcast use is_ascii_spec_bytes;

    if !s.is_ascii() {
        proof {
            let at = choose|i: int| 0 <= i < s@.len() && !('\0' <= #[trigger] s@[i] <= '\u{7f}');
            lemma_not_decimal_is_refused(s@, at, 0, 0, Seq::empty());
        }
        return false;
    }
    let bytes = s.as_bytes();
    let end = bytes.len();
    let start: usize = if end > 0 && bytes[0] == 0x2b {
        1
    } else {
        0
    };
    assert(unsigned_part(s@) == s@.skip(start as int));
    if start == end {
        return false;
    }
    let mut at = start;
    while at < end
        invariant
            start <= at <= end,
            end == s@.len(),
            is_ascii(s),
            bytes@ == s.spec_bytes(),
            unsigned_part(s@) == s@.skip(start as int),
            forall|i: int| start <= i < at ==> '0' <= #[trigger] s@[i] <= '9',
        decreases end - at,
    {
        let byte = bytes[at];
        if byte < 0x30 || byte > 0x39 {
            assert(byte == s@[at as int] as u8);
            assert(unsigned_part(s@)[at - start] == s@[at as int]);
            return false;
        }
        at = at + 1;
    }
    true
}

/// Accepts the text of a password length from 8 to 100.
pub fn password_length_validator(s: &str) -> (answer: Result<u32, String>)
    ensures
        answer_view(answer) == checked_length(s@, 8, 100, "The number must be between 8 and 100"@),
        answer is Ok <==> is_decimal(unsigned_part(s@)) && 8 <= decimal_value(unsigned_part(s@))
            <= 100,
        answer is Ok ==> 8 <= answer->Ok_0 <= 100 && answer->Ok_0 == decimal_value(
            unsigned_part(s@),
        ),
{
    match parse_u32(s) {
        Ok(n) => {
            if 8 <= n && n <= 100 {
                Ok(n)
            } else {
                Err("The number must be between 8 and 100".to_string())
            }
        },
        Err(_) => {
            if is_integer(s) {
                Err("The number must be between 8 and 100".to_string())
            } else {
                Err("Value must be an integer".to_string())
            }
        },
    }
}

/// Accepts the text of a PIN length from 4 to 12.
pub fn pin_length_validator(s: &str) -> (answer: Result<u32, String>)
    ensures
        answer_view(answer) == checked_length(s@, 4, 12, "The number must be between 4 and 12"@),
        answer is Ok <==> is_decimal(unsigned_part(s@)) && 4 <= decimal_value(unsigned_part(s@))
            <= 12,
        answer is Ok ==> 4 <= answer->Ok_0 <= 12 && answer->Ok_0 == decimal_value(
            unsigned_part(s@),
        ),
{
    match parse_u32(s) {
        Ok(n) => {
            if 4 <= n && n <= 12 {
                Ok(n)
            } else {
                Err("The number must be between 4 and 12".to_string())
            }
        },
        Err(_) => {
            if is_integer(s) {
                Err("The number must be between 4 and 12".to_string())
            } else {
                Err("Value must be an integer".to_string())
            }
        },
    }
}

/// A length check accepts the integers of its range and no others: a text is
/// accepted exactly when it is an integer from `least` to `most`, and that
/// integer is the answer.
pub proof fn lemma_checked_length_accepts_range(
    text: Seq<char>,
    least: u32,
    most: u32,
    range_reason: Seq<char>,
)
    ensures
        checked_length(text, least, most, range_reason) is Ok <==> is_decimal(unsigned_part(text))
            && least <= decimal_value(unsigned_part(text)) <= most,
        checked_length(text, least, most, range_reason) is Ok ==> checked_length(
            text,
            least,
            most,
            range_reason,
        )->Ok_0 == decimal_value(unsigned_part(text)),
{
}

/// Every integer outside the range is refused for its value, however large
/// it is, and never as not an integer.
pub proof fn lemma_out_of_range_is_refused(
    text: Seq<char>,
    least: u32,
    most: u32,
    range_reason: Seq<char>,
)
    requires
        is_decimal(unsigned_part(text)),
        decimal_value(unsigned_part(text)) < least || decimal_value(unsigned_part(text)) > most,
    ensures
        checked_length(text, least, most, range_reason) == Err::<u32, Seq<char>>(range_reason),
{
}

/// A text that holds anything but decimal digits after an optional leading
/// `+` is no integer, so every length check refuses it as such.
pub proof fn lemma_not_decimal_is_refused(
    text: Seq<char>,
    at: int,
    least: u32,
    most: u32,
    range_reason: Seq<char>,
)
    requires
        0 <= at < text.len(),
        !('0' <= text[at] <= '9'),
        at > 0 || text[0] != '+',
    ensures
        !is_decimal(unsigned_part(text)),
        checked_length(text, least, most, range_reason) == Err::<u32, Seq<char>>(
            "Value must be an integer"@,
        ),
{
    if text[0] == '+' {
        assert(text.drop_first()[at - 1] == text[at]);
    }
}

/// The empty text and a lone `+` are no integers.
pub proof fn lemma_no_digits_is_refused(least: u32, most: u32, range_reason: Seq<char>)
    ensures
        checked_length(Seq::<char>::empty(), least, most, range_reason) == Err::<u32, Seq<char>>(
            "Value must be an integer"@,
        ),
        checked_length(seq!['+'], least, most, range_reason) == Err::<u32, Seq<char>>(
            "Value must be an integer"@,
        ),
{
}

/// The decimal text of a number is digits only and writes that number.
pub proof fn lemma_decimal_text_writes(n: nat)
    ensures
        is_decimal(decimal_text(n)),
        unsigned_part(decimal_text(n)) == decimal_text(n),
        decimal_value(decimal_text(n)) == n,
    decreases n,
{
    if n < 10 {
        assert(decimal_text(n).drop_last() =~= Seq::<char>::empty());
        assert(decimal_value(decimal_text(n).drop_last()) == 0);
    } else {
        lemma_decimal_text_writes(n / 10);
        assert(decimal_text(n).drop_last() =~= decimal_text(n / 10));
        assert(decimal_text(n)[0] == decimal_text(n / 10)[0]);
    }
}

/// A length check answers the decimal text of a number with that number when
/// it lies in the range, and with the range reason when it does not.
pub proof fn lemma_decimal_text_is_checked(n: nat, least: u32, most: u32, range_reason: Seq<char>)
    ensures
        least <= n <= most ==> checked_length(decimal_text(n), least, most, range_reason) == Ok::<
            u32,
            Seq<char>,
        >(n as u32),
        !(least <= n <= most) ==> checked_length(decimal_text(n), least, most, range_reason)
            == Err::<u32, Seq<char>>(range_reason),
{
    lemma_decimal_text_writes(n);
}

} // verus!
