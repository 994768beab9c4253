/* SPDX-License-Identifier: MIT
 * Copyright (c) 2023 Louis Mayencourt
 */

//! Character-level helpers shared by the parsers and formatters of the value
//! types: decimal and hexadecimal digits, decimal numerals, and the two calls
//! into code that is not verified here.

use vstd::prelude::*;

verus! {

/// `c` is one of `0` to `9`.
pub open spec fn is_digit(c: char) -> bool {
    '0' <= c <= '9'
}

/// The number that the decimal digit `c` stands for.
pub open spec fn digit_value(c: char) -> int {
    c as int - '0' as int
}

/// The character that stands for the decimal digit `d`.
pub open spec fn digit_char(d: int) -> char {
    (d + '0' as int) as char
}

/// `c` is one of `0` to `9`, `a` to `f` or `A` to `F`.
pub open spec fn is_hex_digit(c: char) -> bool {
    '0' <= c <= '9' || 'a' <= c <= 'f' || 'A' <= c <= 'F'
}

/// The number that the hexadecimal digit `c` stands for.
pub open spec fn hex_value(c: char) -> int {
    if '0' <= c <= '9' {
        c as int - '0' as int
    } else if 'a' <= c <= 'f' {
        c as int - 'a' as int + 10
    } else {
        c as int - 'A' as int + 10
    }
}

/// The upper-case character that stands for the hexadecimal digit `d`.
pub open spec fn hex_char(d: int) -> char {
    if d < 10 {
        (d + '0' as int) as char
    } else {
        (d - 10 + 'A' as int) as char
    }
}

/// The value of a run of decimal digits read as a number, most significant
/// digit first. The empty run reads as zero.
pub open spec fn decimal_value(s: Seq<char>) -> nat
    decreases s.len(),
{
    if s.len() == 0 {
        0
    } else {
        (decimal_value(s.drop_last()) * 10 + digit_value(s.last())) as nat
    }
}

/// Every character of `s` is a decimal digit.
pub open spec fn all_digits(s: Seq<char>) -> bool {
    forall|i: int| 0 <= i < s.len() ==> is_digit(#[trigger] s[i])
}

/// The decimal numeral of `n`, without leading zeros.
pub open spec fn decimal_text(n: nat) -> Seq<char>
    decreases n,
{
    if n < 10 {
        seq![digit_char(n as int)]
    } else {
        decimal_text(n / 10).push(digit_char((n % 10) as int))
    }
}

/// The decimal numeral of `n`, padded with one zero where it has a single
/// digit.
pub open spec fn two_digit_text(n: nat) -> Seq<char> {
    if n < 10 {
        seq!['0', digit_char(n as int)]
    } else {
        decimal_text(n)
    }
}

/// The two upper-case hexadecimal digits of a byte.
pub open spec fn hex_byte_text(n: nat) -> Seq<char> {
    seq![hex_char((n / 16) as int), hex_char((n % 16) as int)]
}

/// The value of a decimal digit, or `None` for any other character.
pub fn digit_of(c: char) -> (d: Option<u8>)
    ensures
        d is Some <==> is_digit(c),
        d is Some ==> d->0 == digit_value(c),
{
    if '0' <= c && c <= '9' {
        Some((c as u32 - '0' as u32) as u8)
    } else {
        None
    }
}

/// The value of a hexadecimal digit of either case, or `None` for any other
/// character.
pub fn hex_digit_of(c: char) -> (d: Option<u8>)
    ensures
        d is Some <==> is_hex_digit(c),
        d is Some ==> d->0 == hex_value(c),
{
    if '0' <= c && c <= '9' {
        Some((c as u32 - '0' as u32) as u8)
    } else if 'a' <= c && c <= 'f' {
        Some((c as u32 - 'a' as u32 + 10) as u8)
    } else if 'A' <= c && c <= 'F' {
        Some((c as u32 - 'A' as u32 + 10) as u8)
    } else {
        None
    }
}

/// The character of a decimal digit.
pub fn char_of_digit(d: u8) -> (c: char)
    requires
        d < 10,
    ensures
        c == digit_char(d as int),
        is_digit(c),
        digit_value(c) == d,
{
    (48u8 + d) as char
}

/// The upper-case character of a hexadecimal digit.
pub fn char_of_hex_digit(d: u8) -> (c: char)
    requires
        d < 16,
    ensures
        c == hex_char(d as int),
        is_hex_digit(c),
        hex_value(c) == d,
{
    if d < 10 {
        (48u8 + d) as char
    } else {
        (55u8 + d) as char
    }
}

/// Appends one character to a string.
///
/// Trusted: calls `String::push` of the standard library, which is documented
/// to append the given character to the end of the string.
#[verifier::external_body]
pub(crate) fn push_char(s: &mut String, c: char)
    ensures
        final(s)@ == old(s)@.push(c),
{
    s.push(c)
}

/// The text that percent-decoding gives: each `%` that two hexadecimal digits
/// follow stands for the byte they write, and the bytes are then read as
/// UTF-8, with a replacement character for what is not.
pub uninterp spec fn url_decoded(text: Seq<char>) -> Seq<char>;

/// Decodes the percent-encoded bytes of a text.
///
/// Trusted: calls `url_escape::decode`, which percent-decodes the text's
/// bytes and reads them as UTF-8, lossily. Its result depends on the text
/// alone; the contract gives that result the name `url_decoded` and claims
/// nothing else of it.
#[verifier::external_body]
pub(crate) fn url_decode(text: &str) -> (decoded: String)
    ensures
        decoded@ == url_decoded(text@),
{
    url_escape::decode(text).into_owned()
}

/// Appends the decimal numeral of a byte to a string.
pub fn push_decimal(s: &mut String, n: u8)
    ensures
        final(s)@ == old(s)@ + decimal_text(n as nat),
{
    if n >= 100 {
        push_char(s, char_of_digit(n / 100));
        push_char(s, char_of_digit((n / 10) % 10));
        push_char(s, char_of_digit(n % 10));
        proof {
            let m = n as nat;
            reveal_with_fuel(decimal_text, 3);
            assert(decimal_text(m) == seq![
                digit_char((m / 100) as int),
                digit_char(((m / 10) % 10) as int),
                digit_char((m % 10) as int),
            ]);
            assert(final(s)@ == old(s)@ + decimal_text(m));
        }
    } else if n >= 10 {
        push_char(s, char_of_digit(n / 10));
        push_char(s, char_of_digit(n % 10));
        proof {
            let m = n as nat;
            reveal_with_fuel(decimal_text, 2);
            assert(decimal_text(m) == seq![digit_char((m / 10) as int), digit_char((m % 10) as int)]);
            assert(final(s)@ == old(s)@ + decimal_text(m));
        }
    } else {
        push_char(s, char_of_digit(n));
        proof {
            assert(final(s)@ == old(s)@ + decimal_text(n as nat));
        }
    }
}

/// Appends the decimal numeral of a byte to a string, in at least two digits.
pub fn push_two_digits(s: &mut String, n: u8)
    ensures
        final(s)@ == old(s)@ + two_digit_text(n as nat),
{
    if n < 10 {
        push_char(s, '0');
        push_char(s, char_of_digit(n));
        proof {
            assert(final(s)@ == old(s)@ + two_digit_text(n as nat));
        }
    } else {
        push_decimal(s, n);
    }
}

/// Appends the two upper-case hexadecimal digits of a byte to a string.
pub fn push_hex_byte(s: &mut String, n: u8)
    ensures
        final(s)@ == old(s)@ + hex_byte_text(n as nat),
{
    push_char(s, char_of_hex_digit(n / 16));
    push_char(s, char_of_hex_digit(n % 16));
    proof {
        assert(final(s)@ == old(s)@ + hex_byte_text(n as nat));
    }
}

/// The characters of a string, in order.
pub fn chars_of(s: &str) -> (v: Vec<char>)
    ensures
        v@ == s@,
{
    let n: usize = s.unicode_len();
    let mut v: Vec<char> = Vec::new();
    let mut i: usize = 0;
    while i < n
        invariant
            n == s@.len(),
            i <= n,
            v@ == s@.subrange(0, i as int),
        decreases n - i,
    {
        v.push(s.get_char(i));
        i = i + 1;
        proof {
            assert(v@ == s@.subrange(0, i as int));
        }
    }
    proof {
        assert(s@.subrange(0, n as int) == s@);
    }
    v
}

/// Whether two strings hold the same characters.
pub fn same_text(a: &str, b: &str) -> (same: bool)
    ensures
        same == (a@ == b@),
{
    let n: usize = a.unicode_len();
    if b.unicode_len() != n {
        return false;
    }
    let mut i: usize = 0;
    while i < n
        invariant
            n == a@.len(),
            n == b@.len(),
            i <= n,
            a@.subrange(0, i as int) == b@.subrange(0, i as int),
        decreases n - i,
    {
        if a.get_char(i) != b.get_char(i) {
            return false;
        }
        i = i + 1;
        proof {
            assert(a@.subrange(0, i as int) == a@.subrange(0, i - 1).push(a@[i - 1]));
            assert(b@.subrange(0, i as int) == b@.subrange(0, i - 1).push(b@[i - 1]));
        }
    }
    proof {
        assert(a@.subrange(0, n as int) == a@);
        assert(b@.subrange(0, n as int) == b@);
    }
    true
}

/// The string made of the characters `v[from..to]`.
pub fn string_of(v: &Vec<char>, from: usize, to: usize) -> (s: String)
    requires
        from <= to <= v@.len(),
    ensures
        s@ == v@.subrange(from as int, to as int),
{
    let mut s = String::new();
    let mut i: usize = from;
    proof {
        assert(s@ == v@.subrange(from as int, from as int));
    }
    while i < to
        invariant
            from <= i <= to <= v@.len(),
            s@ == v@.subrange(from as int, i as int),
        decreases to - i,
    {
        push_char(&mut s, v[i]);
        i = i + 1;
        proof {
            assert(s@ == v@.subrange(from as int, i as int));
        }
    }
    s
}

} // verus!
