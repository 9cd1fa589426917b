//! The text of a timestamp, as it is shown to the user.

use vstd::prelude::*;
use crate::sample::TimestampSample;

verus! {

/// `String::push` of the standard library appends one character to the end
/// of the string and leaves the characters before it as they were.
pub assume_specification[ String::push ](text: &mut String, ch: char)
    ensures
        final(text)@ == old(text)@.push(ch),
;

/// The code of the character `0`; the other nine digits follow it.
pub const DIGIT_ZERO: u8 = 48;

/// The character of a decimal digit.
pub open spec fn digit_char(digit: int) -> char {
    ((DIGIT_ZERO + digit) as u8) as char
}

/// A number below 1000 in decimal, with a leading zero where it has a
/// single digit.
pub open spec fn two_digits(n: int) -> Seq<char> {
    if n < 100 {
        seq![digit_char(n / 10), digit_char(n % 10)]
    } else {
        seq![digit_char(n / 100), digit_char(n / 10 % 10), digit_char(n % 10)]
    }
}

/// A number below 100,000 in decimal, with leading zeros where it has fewer
/// than four digits.
pub open spec fn four_digits(n: int) -> Seq<char> {
    let low = seq![
        digit_char(n / 1000 % 10),
        digit_char(n / 100 % 10),
        digit_char(n / 10 % 10),
        digit_char(n % 10),
    ];
    if n < 10_000 {
        low
    } else {
        seq![digit_char(n / 10_000)] + low
    }
}

/// A timestamp as `DD/MM/YYYY HH:MMZ`.
pub open spec fn utc_text(t: TimestampSample) -> Seq<char> {
    two_digits(t.day as int) + seq!['/'] + two_digits(t.month as int) + seq!['/'] + four_digits(
        t.year as int,
    ) + seq![' '] + two_digits(t.hour as int) + seq![':'] + two_digits(t.minute as int) + seq!['Z']
}

/// Appends one decimal digit.
fn push_digit(text: &mut String, digit: u8)
    requires
        digit < 10,
    ensures
        final(text)@ == old(text)@.push(digit_char(digit as int)),
{
    text.push((DIGIT_ZERO + digit) as char);
}

/// Appends a number in decimal, in at least two digits.
fn push_two_digits(text: &mut String, n: u8)
    ensures
        final(text)@ == old(text)@ + two_digits(n as int),
{
    if n >= 100 {
        push_digit(text, n / 100);
    }
    push_digit(text, n / 10 % 10);
    push_digit(text, n % 10);
}

/// Appends a number in decimal, in at least four digits.
fn push_four_digits(text: &mut String, n: u16)
    ensures
        final(text)@ == old(text)@ + four_digits(n as int),
{
    if n >= 10_000 {
        push_digit(text, (n / 10_000) as u8);
    }
    push_digit(text, (n / 1000 % 10) as u8);
    push_digit(text, (n / 100 % 10) as u8);
    push_digit(text, (n / 10 % 10) as u8);
    push_digit(text, (n % 10) as u8);
}

/// Writes a timestamp as `DD/MM/YYYY HH:MMZ`: day, month, hour and minute
/// in at least two digits and the year in at least four, each padded with
/// zeros.
pub fn format_utc(t: TimestampSample) -> (text: String)
    ensures
        text@ == utc_text(t),
{
    let mut text = String::new();
    push_two_digits(&mut text, t.day);
    text.push('/');
    push_two_digits(&mut text, t.month);
    text.push('/');
    push_four_digits(&mut text, t.year);
    text.push(' ');
    push_two_digits(&mut text, t.hour);
    text.push(':');
    push_two_digits(&mut text, t.minute);
    text.push('Z');
    text
}

} // verus!
