//! How a date is written: `2024-01-05`.

use crate::date::DateView;
use vstd::prelude::*;

verus! {

/// The character that writes `value`, a number from 0 to 9.
#[verifier::opaque]
pub open spec fn digit(value: int) -> char {
    if value == 0 {
        '0'
    } else if value == 1 {
        '1'
    } else if value == 2 {
        '2'
    } else if value == 3 {
        '3'
    } else if value == 4 {
        '4'
    } else if value == 5 {
        '5'
    } else if value == 6 {
        '6'
    } else if value == 7 {
        '7'
    } else if value == 8 {
        '8'
    } else {
        '9'
    }
}

/// The number that the decimal digit `c` writes; -1 where `c` is no digit.
#[verifier::opaque]
pub open spec fn digit_value(c: char) -> int {
    if c == '0' {
        0
    } else if c == '1' {
        1
    } else if c == '2' {
        2
    } else if c == '3' {
        3
    } else if c == '4' {
        4
    } else if c == '5' {
        5
    } else if c == '6' {
        6
    } else if c == '7' {
        7
    } else if c == '8' {
        8
    } else if c == '9' {
        9
    } else {
        -1
    }
}

/// `value`, from 0 to 99, written with two digits.
pub open spec fn two_digits(value: int) -> Seq<char> {
    seq![digit(value / 10), digit(value % 10)]
}

/// `value` in decimal, without leading zeros.
pub open spec fn decimal(value: nat) -> Seq<char>
    decreases value,
{
    if value < 10 {
        seq![digit(value as int)]
    } else {
        decimal(value / 10).push(digit((value % 10) as int))
    }
}

/// `value` in decimal, with leading zeros up to four digits.
pub open spec fn four_digits_or_more(value: nat) -> Seq<char> {
    if value <= 9999 {
        two_digits(value as int / 100) + two_digits(value as int % 100)
    } else {
        decimal(value)
    }
}

/// The year as dates are written: four digits from 0 to 9999, and a sign
/// followed by at least four digits outside of that range.
pub open spec fn year_text(year: int) -> Seq<char> {
    if 0 <= year <= 9999 {
        four_digits_or_more(year as nat)
    } else if year < 0 {
        seq!['-'] + four_digits_or_more((-year) as nat)
    } else {
        seq!['+'] + four_digits_or_more(year as nat)
    }
}

/// The date as it is written: the year, the month with two digits and the
/// day with two digits, with `-` between.
pub open spec fn date_text(date: DateView) -> Seq<char> {
    year_text(date.year) + seq!['-'] + two_digits(date.month) + seq!['-'] + two_digits(date.day)
}

/// The date that the ten characters `YYYY-MM-DD` of `text` spell.
pub open spec fn iso_date_value(text: Seq<char>) -> DateView {
    DateView {
        year: 1000 * digit_value(text[0]) + 100 * digit_value(text[1]) + 10 * digit_value(text[2])
            + digit_value(text[3]),
        month: 10 * digit_value(text[5]) + digit_value(text[6]),
        day: 10 * digit_value(text[8]) + digit_value(text[9]),
    }
}

/// `text` has the strict form `YYYY-MM-DD`: four digits, two digits and two
/// digits, with `-` between.
pub open spec fn is_iso_shape(text: Seq<char>) -> bool {
    &&& text.len() == 10
    &&& digit_value(text[0]) >= 0
    &&& digit_value(text[1]) >= 0
    &&& digit_value(text[2]) >= 0
    &&& digit_value(text[3]) >= 0
    &&& text[4] == '-'
    &&& digit_value(text[5]) >= 0
    &&& digit_value(text[6]) >= 0
    &&& text[7] == '-'
    &&& digit_value(text[8]) >= 0
    &&& digit_value(text[9]) >= 0
}

/// `text` is a date in the strict form `YYYY-MM-DD`: it has that form, and
/// its numbers name a day that exists.
pub open spec fn is_iso_date(text: Seq<char>) -> bool {
    is_iso_shape(text) && iso_date_value(text).valid()
}

/// A digit is the character that writes its value.
pub proof fn lemma_digit_of_value(c: char)
    requires
        digit_value(c) >= 0,
    ensures
        digit_value(c) <= 9,
        digit(digit_value(c)) == c,
{
    reveal(digit);
    reveal(digit_value);
}

/// The character that writes a number from 0 to 9 is a digit of that value.
pub proof fn lemma_value_of_digit(value: int)
    requires
        0 <= value <= 9,
    ensures
        digit_value(digit(value)) == value,
{
    reveal(digit);
    reveal(digit_value);
}

/// Two digits, one after the other, are how ten times the value of the
/// first plus the value of the second is written.
proof fn lemma_two_digits(high: char, low: char)
    requires
        digit_value(high) >= 0,
        digit_value(low) >= 0,
    ensures
        two_digits(10 * digit_value(high) + digit_value(low)) == seq![high, low],
        0 <= 10 * digit_value(high) + digit_value(low) <= 99,
{
    lemma_digit_of_value(high);
    lemma_digit_of_value(low);
    let value = 10 * digit_value(high) + digit_value(low);
    assert(value / 10 == digit_value(high));
    assert(value % 10 == digit_value(low));
}

/// The two digits of a number from 0 to 99 spell that number.
proof fn lemma_two_digits_value(value: int)
    requires
        0 <= value <= 99,
    ensures
        two_digits(value).len() == 2,
        digit_value(two_digits(value)[0]) >= 0,
        digit_value(two_digits(value)[1]) >= 0,
        10 * digit_value(two_digits(value)[0]) + digit_value(two_digits(value)[1]) == value,
{
    lemma_value_of_digit(value / 10);
    lemma_value_of_digit(value % 10);
}

/// Writing out the date that a text of the form `YYYY-MM-DD` spells gives
/// that text back.
pub proof fn lemma_iso_date_text(text: Seq<char>)
    requires
        is_iso_date(text),
    ensures
        date_text(iso_date_value(text)) == text,
{
    let date = iso_date_value(text);
    lemma_two_digits(text[0], text[1]);
    lemma_two_digits(text[2], text[3]);
    lemma_two_digits(text[5], text[6]);
    lemma_two_digits(text[8], text[9]);
    let century = 10 * digit_value(text[0]) + digit_value(text[1]);
    let rest = 10 * digit_value(text[2]) + digit_value(text[3]);
    assert(date.year == 100 * century + rest);
    assert(date.year / 100 == century);
    assert(date.year % 100 == rest);
    assert(year_text(date.year) == seq![text[0], text[1]] + seq![text[2], text[3]]);
    assert(date_text(date) =~= text);
}

/// A day that exists in a year from 0 to 9999 is written in the form
/// `YYYY-MM-DD`, and that text spells the date.
pub proof fn lemma_date_text_is_iso(date: DateView)
    requires
        date.valid(),
        0 <= date.year <= 9999,
    ensures
        is_iso_date(date_text(date)),
        iso_date_value(date_text(date)) == date,
{
    let text = date_text(date);
    let century = date.year / 100;
    let rest = date.year % 100;
    lemma_two_digits_value(century);
    lemma_two_digits_value(rest);
    lemma_two_digits_value(date.month);
    lemma_two_digits_value(date.day);
    assert(text =~= two_digits(century) + two_digits(rest) + seq!['-'] + two_digits(date.month)
        + seq!['-'] + two_digits(date.day));
    assert(text[0] == two_digits(century)[0]);
    assert(text[1] == two_digits(century)[1]);
    assert(text[2] == two_digits(rest)[0]);
    assert(text[3] == two_digits(rest)[1]);
    assert(text[5] == two_digits(date.month)[0]);
    assert(text[6] == two_digits(date.month)[1]);
    assert(text[8] == two_digits(date.day)[0]);
    assert(text[9] == two_digits(date.day)[1]);
    assert(date.year == 100 * century + rest);
}

} // verus!
