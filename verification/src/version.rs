/* SPDX-License-Identifier: MIT
 * Copyright (c) 2023 Louis Mayencourt
 */

//! Semantic version of a firmware image.

use vstd::prelude::*;
use crate::text::{
    chars_of, decimal_text, decimal_value, digit_of, is_digit, push_char, push_decimal, string_of,
};

verus! {

/// Semantic version representation.
#[derive(Debug, PartialEq)]
pub struct Version {
    pub major: u8,
    pub minor: u8,
    pub patch: u8,
    pub identifiers: Option<String>,
}

/// What a version holds.
pub struct VersionView {
    pub major: u8,
    pub minor: u8,
    pub patch: u8,
    pub identifiers: Option<Seq<char>>,
}

impl View for Version {
    type V = VersionView;

    open spec fn view(&self) -> VersionView {
        VersionView {
            major: self.major,
            minor: self.minor,
            patch: self.patch,
            identifiers: match self.identifiers {
                Some(identifiers) => Some(identifiers@),
                None => None,
            },
        }
    }
}

/// The text of an optional string slice.
pub open spec fn slice_text(text: Option<&str>) -> Option<Seq<char>> {
    match text {
        Some(text) => Some(text@),
        None => None,
    }
}

/// The text form of a version: the three numbers separated by colons and,
/// where there are identifiers, a hyphen and the identifiers.
pub open spec fn version_text(version: VersionView) -> Seq<char> {
    let numbers = decimal_text(version.major as nat) + seq![':'] + decimal_text(
        version.minor as nat,
    ) + seq![':'] + decimal_text(version.patch as nat);
    match version.identifiers {
        Some(identifiers) => numbers + seq!['-'] + identifiers,
        None => numbers,
    }
}

/// Whether one version counts as greater than another: one of its three
/// numbers is greater than its counterpart. The numbers are compared each on
/// its own, so that `1.5.0` counts as greater than `2.0.0`; the identifiers
/// play no part.
pub open spec fn counts_as_greater(version: VersionView, other: VersionView) -> bool {
    version.major > other.major || version.minor > other.minor || version.patch > other.patch
}

impl Version {
    /// Return a Version structure.
    pub fn new(major: u8, minor: u8, patch: u8, identifiers: Option<&str>) -> (version: Self)
        ensures
            version@ == (VersionView {
                major,
                minor,
                patch,
                identifiers: slice_text(identifiers),
            }),
    {
        if let Some(x) = identifiers {
            return Version { major, minor, patch, identifiers: Some(String::from_str(x)) };
        }
        Version { major, minor, patch, identifiers: None }
    }

    /// Compare against the provided version.
    ///
    /// Return `true` if one of the three numbers is greater than that of the
    /// provided version. Ignore the 'identifiers' part.
    pub fn is_greater_than(&self, other: &Version) -> (greater: bool)
        ensures
            greater == counts_as_greater(self@, other@),
    {
        if self.major > other.major {
            return true;
        } else if self.minor > other.minor {
            return true;
        } else if self.patch > other.patch {
            return true;
        } else {
            return false;
        }
    }

    /// The text form of the version: see `version_text`.
    pub fn to_string(&self) -> (s: String)
        ensures
            s@ == version_text(self@),
    {
        let mut s = String::new();
        push_decimal(&mut s, self.major);
        push_char(&mut s, ':');
        push_decimal(&mut s, self.minor);
        push_char(&mut s, ':');
        push_decimal(&mut s, self.patch);
        if let Some(id) = &self.identifiers {
            push_char(&mut s, '-');
            s.append(id.as_str());
        }
        proof {
            assert(s@ == version_text(self@));
        }
        s
    }
}

} // verus!

verus! {

/// Why a text is not a version.
#[derive(Debug, PartialEq, Eq, Structural, Clone, Copy)]
pub enum VersionError {
    /// The text is not of the form `MAJOR.MINOR.PATCH`, with `-` and
    /// pre-release identifiers and `+` and build identifiers where wanted.
    InvalidFormat,
    /// One of the three numbers is above 255.
    OutOfRange,
}

/// A character that an identifier may hold: a digit, a letter of either case
/// or a hyphen.
pub open spec fn is_identifier_char(c: char) -> bool {
    is_digit(c) || 'a' <= c <= 'z' || 'A' <= c <= 'Z' || c == '-'
}

/// Every character of `s[from..to]` is a decimal digit.
pub open spec fn digits_in(s: Seq<char>, from: int, to: int) -> bool {
    forall|k: int| from <= k < to ==> is_digit(#[trigger] s[k])
}

/// `s[from..to]` is a number: `0`, or digits of which the first is not `0`.
pub open spec fn is_number(s: Seq<char>, from: int, to: int) -> bool {
    &&& 0 <= from < to <= s.len()
    &&& digits_in(s, from, to)
    &&& (to - from > 1 ==> s[from] != '0')
}

/// `s[from..to]` is an identifier: one character or more, each of which an
/// identifier may hold. Where `numeric` asks for it, an identifier made of
/// digits alone must be a number: it has no leading zero.
pub open spec fn is_identifier(s: Seq<char>, from: int, to: int, numeric: bool) -> bool {
    &&& from < to
    &&& forall|k: int| from <= k < to ==> is_identifier_char(#[trigger] s[k])
    &&& (numeric && digits_in(s, from, to) ==> (to - from == 1 || s[from] != '0'))
}

/// `s[from..to]` is one of the parts into which dots cut `s[lo..hi]`.
pub open spec fn is_part(s: Seq<char>, lo: int, hi: int, from: int, to: int) -> bool {
    &&& lo <= from <= to <= hi
    &&& (from == lo || s[from - 1] == '.')
    &&& (to == hi || s[to] == '.')
    &&& forall|k: int| from <= k < to ==> #[trigger] s[k] != '.'
}

/// `s[lo..hi]` is a list of identifiers separated by dots.
pub open spec fn is_identifier_list(s: Seq<char>, lo: int, hi: int, numeric: bool) -> bool {
    forall|from: int, to: int| #[trigger]
        is_part(s, lo, hi, from, to) ==> is_identifier(s, from, to, numeric)
}

/// `s` is a version with the dots of its three numbers at `first` and
/// `second`, the last number ending at `core`, and what follows the
/// pre-release identifiers, if anything, starting at `plus`.
pub open spec fn is_version_layout(s: Seq<char>, first: int, second: int, core: int, plus: int) -> bool {
    &&& 0 < first < second < core <= plus <= s.len()
    &&& is_number(s, 0, first)
    &&& s[first] == '.'
    &&& is_number(s, first + 1, second)
    &&& s[second] == '.'
    &&& is_number(s, second + 1, core)
    &&& (core < plus ==> s[core] == '-' && is_identifier_list(s, core + 1, plus, true))
    &&& (plus < s.len() ==> s[plus] == '+' && is_identifier_list(s, plus + 1, s.len() as int, false))
}

/// What a text reads as: the version it writes, or the reason it writes
/// none. The pre-release identifiers are kept; the build identifiers are
/// checked and dropped.
pub open spec fn parse_version(s: Seq<char>) -> Result<VersionView, VersionError> {
    if exists|first: int, second: int, core: int, plus: int|
        is_version_layout(s, first, second, core, plus) {
        let (first, second, core, plus) = choose|first: int, second: int, core: int, plus: int|
            is_version_layout(s, first, second, core, plus);
        let major = decimal_value(s.subrange(0, first));
        let minor = decimal_value(s.subrange(first + 1, second));
        let patch = decimal_value(s.subrange(second + 1, core));
        if major > 255 || minor > 255 || patch > 255 {
            Err(VersionError::OutOfRange)
        } else {
            Ok(
                VersionView {
                    major: major as u8,
                    minor: minor as u8,
                    patch: patch as u8,
                    identifiers: if core < plus {
                        Some(s.subrange(core + 1, plus))
                    } else {
                        None
                    },
                },
            )
        }
    } else {
        Err(VersionError::InvalidFormat)
    }
}

/// What a result holds, with the version by its view.
pub open spec fn version_result_view(result: Result<Version, VersionError>) -> Result<
    VersionView,
    VersionError,
> {
    match result {
        Ok(version) => Ok(version@),
        Err(error) => Err(error),
    }
}

/// The digits that start at `from` end at `end`: they are digits up to
/// there, and what stands at `end` is none.
pub open spec fn digits_end_at(s: Seq<char>, from: int, end: int) -> bool {
    &&& 0 <= from <= end <= s.len()
    &&& digits_in(s, from, end)
    &&& (end < s.len() ==> !is_digit(s[end]))
}

/// Where the digits that start at `from` end, and the number they write if
/// it is at most 255.
fn read_digits(s: &Vec<char>, from: usize) -> (r: (usize, Option<u8>))
    requires
        from <= s@.len(),
    ensures
        digits_end_at(s@, from as int, r.0 as int),
        r.1 matches Some(value) ==> decimal_value(s@.subrange(from as int, r.0 as int)) == value,
        r.1 is None ==> decimal_value(s@.subrange(from as int, r.0 as int)) > 255,
{
    let mut end: usize = from;
    let mut value: Option<u8> = Some(0);
    proof {
        assert(s@.subrange(from as int, from as int).len() == 0);
    }
    while end < s.len() && digit_of(s[end]).is_some()
        invariant
            from <= end <= s@.len(),
            digits_in(s@, from as int, end as int),
            value matches Some(v) ==> decimal_value(s@.subrange(from as int, end as int)) == v,
            value is None ==> decimal_value(s@.subrange(from as int, end as int)) > 255,
        decreases s@.len() - end,
    {
        let digit: u8 = match digit_of(s[end]) {
            Some(digit) => digit,
            None => 0,
        };
        proof {
            let longer = s@.subrange(from as int, end + 1);
            assert(longer.drop_last() == s@.subrange(from as int, end as int));
            assert(longer.last() == s@[end as int]);
        }
        value = match value {
            Some(v) => {
                if v > 25 || (v == 25 && digit > 5) {
                    None
                } else {
                    Some(v * 10 + digit)
                }
            },
            None => None,
        };
        end = end + 1;
    }
    (end, value)
}

/// Whether a character may stand in an identifier.
fn identifier_char(c: char) -> (allowed: bool)
    ensures
        allowed == is_identifier_char(c),
{
    ('0' <= c && c <= '9') || ('a' <= c && c <= 'z') || ('A' <= c && c <= 'Z') || c == '-'
}

/// Whether `s[lo..hi]` is a list of identifiers separated by dots.
fn identifier_list(s: &Vec<char>, lo: usize, hi: usize, numeric: bool) -> (listed: bool)
    requires
        lo <= hi <= s@.len(),
    ensures
        listed == is_identifier_list(s@, lo as int, hi as int, numeric),
{
    let mut start: usize = lo;
    loop
        invariant
            lo <= start <= hi <= s@.len(),
            start == lo || s@[start - 1] == '.',
            forall|from: int, to: int| #[trigger]
                is_part(s@, lo as int, hi as int, from, to) && to < start ==> is_identifier(
                    s@,
                    from,
                    to,
                    numeric,
                ),
        decreases hi - start,
    {
        let mut end: usize = start;
        let mut only_digits = true;
        let mut only_allowed = true;
        while end < hi && s[end] != '.'
            invariant
                start <= end <= hi <= s@.len(),
                forall|k: int| start <= k < end ==> #[trigger] s@[k] != '.',
                only_digits == digits_in(s@, start as int, end as int),
                only_allowed == (forall|k: int|
                    start <= k < end ==> is_identifier_char(#[trigger] s@[k])),
            decreases hi - end,
        {
            if digit_of(s[end]).is_none() {
                only_digits = false;
            }
            if !identifier_char(s[end]) {
                only_allowed = false;
            }
            end = end + 1;
        }
        proof {
            assert(is_part(s@, lo as int, hi as int, start as int, end as int));
            // A part that does not end before this one is this one.
            assert forall|from: int, to: int| #[trigger]
                is_part(s@, lo as int, hi as int, from, to) && start <= to <= end implies from
                == start && to == end by {
                if from > start {
                    assert(s@[from - 1] == '.');
                }
                if from < start {
                    assert(s@[start - 1] == '.');
                }
                if to < end {
                    assert(s@[to] == '.');
                }
            }
        }
        let well_formed = end > start && only_allowed && (!numeric || !only_digits || end - start
            == 1 || s[start] != '0');
        if !well_formed {
            proof {
                assert(!is_identifier(s@, start as int, end as int, numeric));
            }
            return false;
        }
        if end == hi {
            return true;
        }
        start = end + 1;
    }
}

impl Version {
    /// Return a version represented by the given string.
    ///
    /// # Errors
    /// `VersionError::InvalidFormat` if the string does not represent a
    /// semantic version, `VersionError::OutOfRange` if it does, with a
    /// number above 255.
    pub fn from_string(version: &str) -> (r: Result<Self, VersionError>)
        ensures
            version_result_view(r) == parse_version(version@),
    {
        let s = chars_of(version);
        let length: usize = s.len();
        let (first, major) = read_digits(&s, 0);
        if first == 0 || first >= length || s[first] != '.' || (first > 1 && s[0] == '0') {
            proof {
                assert forall|a: int, b: int, c: int, d: int| !is_version_layout(s@, a, b, c, d) by {
                    if is_version_layout(s@, a, b, c, d) {
                        lemma_digits_end_unique(s@, 0, first as int, a);
                    }
                }
            }
            return Err(VersionError::InvalidFormat);
        }
        let (second, minor) = read_digits(&s, first + 1);
        if second == first + 1 || second >= length || s[second] != '.' || (second > first + 2
            && s[first + 1] == '0') {
            proof {
                assert forall|a: int, b: int, c: int, d: int| !is_version_layout(s@, a, b, c, d) by {
                    if is_version_layout(s@, a, b, c, d) {
                        lemma_digits_end_unique(s@, 0, first as int, a);
                        lemma_digits_end_unique(s@, first + 1, second as int, b);
                    }
                }
            }
            return Err(VersionError::InvalidFormat);
        }
        let (core, patch) = read_digits(&s, second + 1);
        if core == second + 1 || (core > second + 2 && s[second + 1] == '0') {
            proof {
                assert forall|a: int, b: int, c: int, d: int| !is_version_layout(s@, a, b, c, d) by {
                    if is_version_layout(s@, a, b, c, d) {
                        lemma_digits_end_unique(s@, 0, first as int, a);
                        lemma_digits_end_unique(s@, first + 1, second as int, b);
                        lemma_digits_end_unique(s@, second + 1, core as int, c);
                    }
                }
            }
            return Err(VersionError::InvalidFormat);
        }
        // Where the pre-release identifiers end: at the first `+` or at the
        // end of the text.
        let mut plus: usize = core;
        while plus < length && s[plus] != '+'
            invariant
                core <= plus <= length == s@.len(),
                forall|k: int| core <= k < plus ==> #[trigger] s@[k] != '+',
            decreases length - plus,
        {
            plus = plus + 1;
        }
        let prerelease = core < plus;
        let well_formed = (!prerelease || (s[core] == '-' && identifier_list(
            &s,
            core + 1,
            plus,
            true,
        ))) && (plus == length || identifier_list(&s, plus + 1, length, false));
        if !well_formed {
            proof {
                assert forall|a: int, b: int, c: int, d: int| !is_version_layout(s@, a, b, c, d) by {
                    if is_version_layout(s@, a, b, c, d) {
                        lemma_layout_unique(
                            s@,
                            first as int,
                            second as int,
                            core as int,
                            plus as int,
                            a,
                            b,
                            c,
                            d,
                        );
                    }
                }
            }
            return Err(VersionError::InvalidFormat);
        }
        proof {
            assert(is_version_layout(s@, first as int, second as int, core as int, plus as int));
            let (a, b, c, d) = choose|a: int, b: int, c: int, d: int|
                is_version_layout(s@, a, b, c, d);
            lemma_layout_unique(s@, first as int, second as int, core as int, plus as int, a, b, c, d);
        }
        match (major, minor, patch) {
            (Some(major), Some(minor), Some(patch)) => {
                let identifiers = if prerelease {
                    Some(string_of(&s, core + 1, plus))
                } else {
                    None
                };
                Ok(Version { major, minor, patch, identifiers })
            },
            _ => Err(VersionError::OutOfRange),
        }
    }
}

/// A run of digits that something else than a digit ends has one end.
proof fn lemma_digits_end_unique(s: Seq<char>, from: int, end: int, other: int)
    requires
        digits_end_at(s, from, end),
        from <= other <= s.len(),
        digits_in(s, from, other),
        other < s.len() ==> !is_digit(s[other]),
    ensures
        other == end,
{
    if other < end {
        assert(is_digit(s[other]));
    }
    if end < other {
        assert(is_digit(s[end]));
    }
}

/// A text is laid out as a version in one way at most, which is the way in
/// which it is read: each number ends where its digits end, and the
/// pre-release identifiers end at the first `+`.
proof fn lemma_layout_unique(
    s: Seq<char>,
    first: int,
    second: int,
    core: int,
    plus: int,
    a: int,
    b: int,
    c: int,
    d: int,
)
    requires
        digits_end_at(s, 0, first),
        first < s.len(),
        digits_end_at(s, first + 1, second),
        second < s.len(),
        digits_end_at(s, second + 1, core),
        core <= plus <= s.len(),
        forall|k: int| core <= k < plus ==> #[trigger] s[k] != '+',
        plus < s.len() ==> s[plus] == '+',
        is_version_layout(s, a, b, c, d),
    ensures
        a == first,
        b == second,
        c == core,
        d == plus,
{
    lemma_digits_end_unique(s, 0, first, a);
    lemma_digits_end_unique(s, first + 1, second, b);
    lemma_digits_end_unique(s, second + 1, core, c);
    if d < plus {
        assert(s[d] == '+');
    }
    if plus < d {
        // `+` would stand among the pre-release identifiers.
        assert(s[c] == '-');
        lemma_part_around(s, c + 1, d, plus);
        let (from, to) = choose|from: int, to: int| #[trigger]
            is_part(s, c + 1, d, from, to) && from <= plus < to;
        assert(is_identifier(s, from, to, true));
        assert(is_identifier_char(s[plus]));
    }
}

/// Every position of a list that holds no dot lies in a part of the list.
proof fn lemma_part_around(s: Seq<char>, lo: int, hi: int, at: int)
    requires
        0 <= lo <= at < hi <= s.len(),
        s[at] != '.',
    ensures
        exists|from: int, to: int| #[trigger] is_part(s, lo, hi, from, to) && from <= at < to,
{
    let from = part_start(s, lo, at);
    let to = part_end(s, at, hi);
    lemma_part_start(s, lo, at);
    lemma_part_end(s, at, hi);
    assert(is_part(s, lo, hi, from, to));
}

/// Where the part that holds position `at` starts.
spec fn part_start(s: Seq<char>, lo: int, at: int) -> int
    decreases at - lo,
{
    if at <= lo || s[at - 1] == '.' {
        at
    } else {
        part_start(s, lo, at - 1)
    }
}

/// Where the part that holds position `at` ends.
spec fn part_end(s: Seq<char>, at: int, hi: int) -> int
    decreases hi - at,
{
    if at >= hi || s[at] == '.' {
        at
    } else {
        part_end(s, at + 1, hi)
    }
}

proof fn lemma_part_start(s: Seq<char>, lo: int, at: int)
    requires
        lo <= at,
    ensures
        lo <= part_start(s, lo, at) <= at,
        part_start(s, lo, at) == lo || s[part_start(s, lo, at) - 1] == '.',
        forall|k: int| part_start(s, lo, at) <= k < at ==> #[trigger] s[k] != '.',
    decreases at - lo,
{
    if at <= lo || s[at - 1] == '.' {
    } else {
        lemma_part_start(s, lo, at - 1);
    }
}

proof fn lemma_part_end(s: Seq<char>, at: int, hi: int)
    requires
        at <= hi,
    ensures
        at <= part_end(s, at, hi) <= hi,
        part_end(s, at, hi) == hi || s[part_end(s, at, hi)] == '.',
        forall|k: int| at <= k < part_end(s, at, hi) ==> #[trigger] s[k] != '.',
    decreases hi - at,
{
    if at >= hi || s[at] == '.' {
    } else {
        lemma_part_end(s, at + 1, hi);
    }
}

} // verus!
