/* SPDX-License-Identifier: MIT
 * Copyright (c) 2023 Louis Mayencourt
 */

//! Time of day on a 24 hour clock, with its canonical text form `HH:MM:SS`.

use vstd::prelude::*;
use crate::text::{chars_of, digit_char, digit_of, digit_value, decimal_text, is_digit, push_char, push_two_digits, two_digit_text};

verus! {

/// Length of a time in its canonical text form.
pub const TIME_STRING_LENGTH: usize = 8;

/// Why a time could not be built.
#[derive(Debug, PartialEq, Eq, Structural, Clone, Copy)]
pub enum TimeError {
    /// A field exceeds its bound: hours above 23, minutes or seconds above 59.
    OutOfRange,
    /// The text is not two digits, a colon, two digits, a colon, two digits.
    InvalidFormat,
}

/// Time in 24 hour clock representation.
#[derive(Debug, PartialEq, Eq, Structural, Clone, Copy)]
pub struct Time {
    pub hour: u8,
    pub minute: u8,
    pub second: u8,
}

/// The three fields name a time of day.
pub open spec fn fields_in_range(hour: int, minute: int, second: int) -> bool {
    0 <= hour <= 23 && 0 <= minute <= 59 && 0 <= second <= 59
}

/// The text has the shape `DD:DD:DD`, where each `D` is a decimal digit.
pub open spec fn is_time_shape(s: Seq<char>) -> bool {
    &&& s.len() == 8
    &&& is_digit(s[0])
    &&& is_digit(s[1])
    &&& s[2] == ':'
    &&& is_digit(s[3])
    &&& is_digit(s[4])
    &&& s[5] == ':'
    &&& is_digit(s[6])
    &&& is_digit(s[7])
}

/// The number written by the two digits at `s[i]` and `s[i + 1]`.
pub open spec fn two_digit_value(s: Seq<char>, i: int) -> int {
    digit_value(s[i]) * 10 + digit_value(s[i + 1])
}

/// What a text reads as: the time it writes, or the reason it writes none.
pub open spec fn parse_time(s: Seq<char>) -> Result<Time, TimeError> {
    if !is_time_shape(s) {
        Err(TimeError::InvalidFormat)
    } else if !fields_in_range(two_digit_value(s, 0), two_digit_value(s, 3), two_digit_value(s, 6)) {
        Err(TimeError::OutOfRange)
    } else {
        Ok(
            Time {
                hour: two_digit_value(s, 0) as u8,
                minute: two_digit_value(s, 3) as u8,
                second: two_digit_value(s, 6) as u8,
            },
        )
    }
}

impl Time {
    /// The fields are within their bounds.
    pub open spec fn is_valid(&self) -> bool {
        fields_in_range(self.hour as int, self.minute as int, self.second as int)
    }

    /// The text form: hours, minutes and seconds in at least two decimal
    /// digits each, separated by colons. For a valid time this is the
    /// canonical `HH:MM:SS`.
    pub open spec fn text(&self) -> Seq<char> {
        two_digit_text(self.hour as nat) + seq![':'] + two_digit_text(self.minute as nat) + seq![
            ':',
        ] + two_digit_text(self.second as nat)
    }

    /// Return a time structure.
    ///
    /// # Errors
    /// `TimeError::OutOfRange` if the arguments do not represent a valid time.
    pub fn new(hour: u8, minute: u8, second: u8) -> (r: Result<Self, TimeError>)
        ensures
            fields_in_range(hour as int, minute as int, second as int) ==> r == Ok::<
                Time,
                TimeError,
            >(Time { hour, minute, second }),
            !fields_in_range(hour as int, minute as int, second as int) ==> r == Err::<
                Time,
                TimeError,
            >(TimeError::OutOfRange),
    {
        if hour > 23 || minute > 59 || second > 59 {
            return Err(TimeError::OutOfRange);
        }
        Ok(Time { hour, minute, second })
    }

    /// The text form of the time, `HH:MM:SS` zero-padded.
    pub fn to_string(&self) -> (s: String)
        ensures
            s@ == self.text(),
            self.is_valid() ==> s@.len() == TIME_STRING_LENGTH,
    {
        let mut s = String::new();
        push_two_digits(&mut s, self.hour);
        push_char(&mut s, ':');
        push_two_digits(&mut s, self.minute);
        push_char(&mut s, ':');
        push_two_digits(&mut s, self.second);
        proof {
            assert(s@ == self.text());
            if self.is_valid() {
                lemma_valid_time_text(*self);
            }
        }
        s
    }

    /// Parse a string with the `HH:MM:SS` format and return a time.
    ///
    /// # Errors
    /// `TimeError::InvalidFormat` if the text does not have that shape,
    /// `TimeError::OutOfRange` if it has but a field exceeds its bound.
    pub fn from_str(time: &str) -> (r: Result<Self, TimeError>)
        ensures
            r == parse_time(time@),
    {
        let chars = chars_of(time);
        Self::from_chars(&chars)
    }

    /// Parse the characters of a `HH:MM:SS` text.
    pub fn from_chars(chars: &Vec<char>) -> (r: Result<Self, TimeError>)
        ensures
            r == parse_time(chars@),
    {
        if chars.len() != 8 {
            return Err(TimeError::InvalidFormat);
        }
        if chars[2] != ':' || chars[5] != ':' {
            return Err(TimeError::InvalidFormat);
        }
        let h1 = digit_of(chars[0]);
        let h0 = digit_of(chars[1]);
        let m1 = digit_of(chars[3]);
        let m0 = digit_of(chars[4]);
        let s1 = digit_of(chars[6]);
        let s0 = digit_of(chars[7]);
        match (h1, h0, m1, m0, s1, s0) {
            (Some(h1), Some(h0), Some(m1), Some(m0), Some(s1), Some(s0)) => {
                let hour: u8 = h1 * 10 + h0;
                let minute: u8 = m1 * 10 + m0;
                let second: u8 = s1 * 10 + s0;
                if hour > 23 || minute > 59 || second > 59 {
                    Err(TimeError::OutOfRange)
                } else {
                    Ok(Time { hour, minute, second })
                }
            },
            _ => Err(TimeError::InvalidFormat),
        }
    }
}

/// The text of a valid time is eight characters of the shape `DD:DD:DD`, and
/// its digit pairs write the time's fields.
pub proof fn lemma_valid_time_text(t: Time)
    requires
        t.is_valid(),
    ensures
        t.text().len() == 8,
        is_time_shape(t.text()),
        two_digit_value(t.text(), 0) == t.hour,
        two_digit_value(t.text(), 3) == t.minute,
        two_digit_value(t.text(), 6) == t.second,
{
    lemma_two_digit_text(t.hour as nat);
    lemma_two_digit_text(t.minute as nat);
    lemma_two_digit_text(t.second as nat);
    let h = two_digit_text(t.hour as nat);
    let m = two_digit_text(t.minute as nat);
    let s = two_digit_text(t.second as nat);
    let text = t.text();
    assert(text == h + seq![':'] + m + seq![':'] + s);
    assert(text.len() == 8);
    assert(text[0] == h[0] && text[1] == h[1]);
    assert(text[2] == ':');
    assert(text[3] == m[0] && text[4] == m[1]);
    assert(text[5] == ':');
    assert(text[6] == s[0] && text[7] == s[1]);
}

/// The padded numeral of a number below one hundred has two digits, which
/// write that number.
pub proof fn lemma_two_digit_text(n: nat)
    requires
        n < 100,
    ensures
        two_digit_text(n).len() == 2,
        is_digit(two_digit_text(n)[0]),
        is_digit(two_digit_text(n)[1]),
        two_digit_value(two_digit_text(n), 0) == n,
{
    reveal_with_fuel(decimal_text, 2);
    if n >= 10 {
        assert(decimal_text(n) == seq![digit_char((n / 10) as int), digit_char((n % 10) as int)]);
    }
}

/// Writing a valid time and reading the text back gives the same time.
pub proof fn lemma_time_text_round_trip(t: Time)
    requires
        t.is_valid(),
    ensures
        parse_time(t.text()) == Ok::<Time, TimeError>(t),
{
    lemma_valid_time_text(t);
}

/// Reading a text and writing the time back gives the same text: the
/// canonical form is the only text that reads as a given time.
pub proof fn lemma_parse_time_canonical(s: Seq<char>)
    requires
        parse_time(s) is Ok,
    ensures
        parse_time(s)->Ok_0.is_valid(),
        parse_time(s)->Ok_0.text() == s,
{
    let t = parse_time(s)->Ok_0;
    lemma_valid_time_text(t);
    let text = t.text();
    lemma_two_digit_text(t.hour as nat);
    lemma_two_digit_text(t.minute as nat);
    lemma_two_digit_text(t.second as nat);
    lemma_digit_pair_unique(s, 0, text, 0);
    lemma_digit_pair_unique(s, 3, text, 3);
    lemma_digit_pair_unique(s, 6, text, 6);
    assert(text =~= s);
}

/// Two pairs of digits that write the same number are the same characters.
proof fn lemma_digit_pair_unique(a: Seq<char>, i: int, b: Seq<char>, j: int)
    requires
        0 <= i && i + 1 < a.len(),
        0 <= j && j + 1 < b.len(),
        is_digit(a[i]) && is_digit(a[i + 1]),
        is_digit(b[j]) && is_digit(b[j + 1]),
        two_digit_value(a, i) == two_digit_value(b, j),
    ensures
        a[i] == b[j],
        a[i + 1] == b[j + 1],
{
}

} // verus!
