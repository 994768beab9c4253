/* SPDX-License-Identifier: MIT
 * Copyright (c) 2023 Louis Mayencourt
 */

//! Display colour as three 8 bit channels, with its text form `RRGGBB`.

use vstd::prelude::*;
use crate::text::{chars_of, hex_byte_text, hex_digit_of, hex_value, is_hex_digit, push_hex_byte};

verus! {

/// Length of a colour in string representation.
pub const COLOR_AS_STRING_LENGTH: usize = 6;

/// Why a text is not a colour.
#[derive(Debug, PartialEq, Eq, Structural, Clone, Copy)]
pub enum ColorError {
    /// The text is not exactly six hexadecimal digits.
    InvalidFormat,
}

/// A colour by its red, green and blue channels.
#[derive(Debug, PartialEq, Eq, Structural, Clone, Copy)]
pub struct Color {
    pub r: u8,
    pub g: u8,
    pub b: u8,
}

/// The text is exactly six hexadecimal digits.
pub open spec fn is_hex_color(s: Seq<char>) -> bool {
    &&& s.len() == 6
    &&& forall|i: int| 0 <= i < 6 ==> is_hex_digit(#[trigger] s[i])
}

/// The byte written by the two hexadecimal digits at `s[i]` and `s[i + 1]`.
pub open spec fn hex_pair_value(s: Seq<char>, i: int) -> int {
    hex_value(s[i]) * 16 + hex_value(s[i + 1])
}

/// What a text reads as: the colour it writes, or the reason it writes none.
pub open spec fn parse_color(s: Seq<char>) -> Result<Color, ColorError> {
    if is_hex_color(s) {
        Ok(
            Color {
                r: hex_pair_value(s, 0) as u8,
                g: hex_pair_value(s, 2) as u8,
                b: hex_pair_value(s, 4) as u8,
            },
        )
    } else {
        Err(ColorError::InvalidFormat)
    }
}

/// The colour used where none is chosen: pure blue.
pub open spec fn default_color() -> Color {
    Color { r: 0, g: 0, b: 255 }
}

impl Color {
    /// The text form: the three channels in two upper-case hexadecimal
    /// digits each.
    pub open spec fn text(&self) -> Seq<char> {
        hex_byte_text(self.r as nat) + hex_byte_text(self.g as nat) + hex_byte_text(self.b as nat)
    }

    /// The colour with the given channels.
    pub fn new(r: u8, g: u8, b: u8) -> (c: Self)
        ensures
            c == (Color { r, g, b }),
    {
        Color { r, g, b }
    }

    /// Create a color from a RGB hexadecimal string, like provided by html.
    ///
    /// # Errors
    /// Fails if input is not 3 hex words as RRGGBB.
    pub fn from_rgb_hex_string(rgb: &str) -> (r: Result<Self, ColorError>)
        ensures
            r == parse_color(rgb@),
    {
        let chars = chars_of(rgb);
        Self::from_hex_chars(&chars, 0, chars.len())
    }

    /// Read the characters `chars[from..to]` as a colour in the form RRGGBB.
    pub fn from_hex_chars(chars: &Vec<char>, from: usize, to: usize) -> (r: Result<
        Self,
        ColorError,
    >)
        requires
            from <= to <= chars@.len(),
        ensures
            r == parse_color(chars@.subrange(from as int, to as int)),
    {
        let ghost s = chars@.subrange(from as int, to as int);
        if to - from != 6 {
            return Err(ColorError::InvalidFormat);
        }
        let d0 = hex_digit_of(chars[from]);
        let d1 = hex_digit_of(chars[from + 1]);
        let d2 = hex_digit_of(chars[from + 2]);
        let d3 = hex_digit_of(chars[from + 3]);
        let d4 = hex_digit_of(chars[from + 4]);
        let d5 = hex_digit_of(chars[from + 5]);
        proof {
            assert(s[0] == chars@[from as int]);
            assert(s[1] == chars@[from + 1]);
            assert(s[2] == chars@[from + 2]);
            assert(s[3] == chars@[from + 3]);
            assert(s[4] == chars@[from + 4]);
            assert(s[5] == chars@[from + 5]);
        }
        match (d0, d1, d2, d3, d4, d5) {
            (Some(d0), Some(d1), Some(d2), Some(d3), Some(d4), Some(d5)) => {
                Ok(Color { r: d0 * 16 + d1, g: d2 * 16 + d3, b: d4 * 16 + d5 })
            },
            _ => Err(ColorError::InvalidFormat),
        }
    }

    /// All three channels are zero.
    pub fn is_black(&self) -> (black: bool)
        ensures
            black == (self.r == 0 && self.g == 0 && self.b == 0),
    {
        self.r == 0 && self.g == 0 && self.b == 0
    }

    /// The text form of the colour, `RRGGBB` in upper-case hexadecimal.
    pub fn to_string(&self) -> (s: String)
        ensures
            s@ == self.text(),
            s@.len() == COLOR_AS_STRING_LENGTH,
    {
        let mut s = String::new();
        push_hex_byte(&mut s, self.r);
        push_hex_byte(&mut s, self.g);
        push_hex_byte(&mut s, self.b);
        proof {
            assert(s@ == self.text());
        }
        s
    }
}

impl Default for Color {
    /// Default screen color is blue.
    fn default() -> (c: Self)
        ensures
            c == default_color(),
    {
        Color { r: 0, g: 0, b: 255 }
    }
}

/// The text of a colour is six hexadecimal digits, whose pairs write the
/// colour's channels.
pub proof fn lemma_color_text(c: Color)
    ensures
        is_hex_color(c.text()),
        hex_pair_value(c.text(), 0) == c.r,
        hex_pair_value(c.text(), 2) == c.g,
        hex_pair_value(c.text(), 4) == c.b,
{
    let t = c.text();
    let r = hex_byte_text(c.r as nat);
    let g = hex_byte_text(c.g as nat);
    let b = hex_byte_text(c.b as nat);
    assert(t.len() == 6);
    assert(t[0] == r[0] && t[1] == r[1]);
    assert(t[2] == g[0] && t[3] == g[1]);
    assert(t[4] == b[0] && t[5] == b[1]);
    assert forall|i: int| 0 <= i < 6 implies is_hex_digit(#[trigger] t[i]) by {
        if i == 0 || i == 1 {
        } else if i == 2 || i == 3 {
        } else {
        }
    }
}

/// Writing a colour and reading the text back gives the same colour.
pub proof fn lemma_color_text_round_trip(c: Color)
    ensures
        parse_color(c.text()) == Ok::<Color, ColorError>(c),
{
    lemma_color_text(c);
}

/// A text reads as a colour exactly when it is six hexadecimal digits.
pub proof fn lemma_parse_color_accepts(s: Seq<char>)
    ensures
        parse_color(s) is Ok <==> is_hex_color(s),
        parse_color(s) is Err ==> parse_color(s) == Err::<Color, ColorError>(
            ColorError::InvalidFormat,
        ),
{
}

} // verus!
