/* SPDX-License-Identifier: MIT
 * Copyright (c) 2023 Louis Mayencourt
 */

//! The wire format of a submitted configuration: the query string of an HTTP GET
//! request,
//! `/get?input_wifi_ssid=..&input_wifi_password=..&input_night_mode_start=..&input_night_mode_end=..&favcolor=..`,
//! and how it is cut into its five fields.
//!
//! The two credentials are any text without a line break. Where a marker
//! occurs more than once, each credential in turn is taken as long as it can
//! be. The night-mode fields hold only `%`, `A` and decimal digits, the colour
//! field only `%` and hexadecimal digits; what follows the colour field is
//! ignored.

use vstd::prelude::*;
use crate::text::{chars_of, is_digit, is_hex_digit, string_of};

verus! {

/// What the query string starts with, up to the first field.
pub const QUERY_PREFIX: &'static str = "/get?input_wifi_ssid=";

/// What stands between the first and the second field.
pub const PASSWORD_MARKER: &'static str = "&input_wifi_password=";

/// What stands between the second and the third field.
pub const NIGHT_START_MARKER: &'static str = "&input_night_mode_start=";

/// What stands between the third and the fourth field.
pub const NIGHT_END_MARKER: &'static str = "&input_night_mode_end=";

/// What stands between the fourth and the fifth field.
pub const COLOR_MARKER: &'static str = "&favcolor=";

/// The five fields of a query string, as they were sent: still
/// percent-encoded.
pub struct QueryFields {
    pub ssid: String,
    pub password: String,
    pub night_start: String,
    pub night_end: String,
    pub display_color: String,
}

/// The texts of the five fields.
pub struct QueryFieldsView {
    pub ssid: Seq<char>,
    pub password: Seq<char>,
    pub night_start: Seq<char>,
    pub night_end: Seq<char>,
    pub display_color: Seq<char>,
}

impl View for QueryFields {
    type V = QueryFieldsView;

    open spec fn view(&self) -> QueryFieldsView {
        QueryFieldsView {
            ssid: self.ssid@,
            password: self.password@,
            night_start: self.night_start@,
            night_end: self.night_end@,
            display_color: self.display_color@,
        }
    }
}

/// Where the last three fields lie in a text: each from its first character
/// to just behind its last.
pub struct TailSpans {
    pub night_start_from: int,
    pub night_start_to: int,
    pub night_end_from: int,
    pub night_end_to: int,
    pub color_from: int,
    pub color_to: int,
}

/// `word` stands in `text` at position `at`.
pub open spec fn has_at(text: Seq<char>, at: int, word: Seq<char>) -> bool {
    0 <= at && at + word.len() <= text.len() && text.subrange(at, at + word.len()) == word
}

/// A character that a night-mode field may hold.
pub open spec fn is_time_field_char(c: char) -> bool {
    c == '%' || c == 'A' || is_digit(c)
}

/// A character that the colour field may hold.
pub open spec fn is_color_field_char(c: char) -> bool {
    c == '%' || is_hex_digit(c)
}

/// A character of the field kind: of the colour field if `color`, else of a
/// night-mode field.
pub open spec fn is_field_char(c: char, color: bool) -> bool {
    if color {
        is_color_field_char(c)
    } else {
        is_time_field_char(c)
    }
}

/// Where the longest run of field characters that starts at `from` ends.
pub open spec fn run_end(text: Seq<char>, from: int, color: bool) -> int
    decreases text.len() - from,
{
    if 0 <= from < text.len() && is_field_char(text[from], color) {
        run_end(text, from + 1, color)
    } else {
        from
    }
}

/// The last three fields, if `text` continues at `at` with the marker of the
/// night-mode start, a night-mode field, the marker of the night-mode end, a
/// night-mode field, the marker of the colour and a colour field, each field
/// as long as it can be.
pub open spec fn tail_spans(text: Seq<char>, at: int) -> Option<TailSpans> {
    let a = at + NIGHT_START_MARKER@.len();
    let b = run_end(text, a, false);
    let c = b + NIGHT_END_MARKER@.len();
    let d = run_end(text, c, false);
    let e = d + COLOR_MARKER@.len();
    let f = run_end(text, e, true);
    if has_at(text, at, NIGHT_START_MARKER@) && has_at(text, b, NIGHT_END_MARKER@) && has_at(
        text,
        d,
        COLOR_MARKER@,
    ) {
        Some(
            TailSpans {
                night_start_from: a,
                night_start_to: b,
                night_end_from: c,
                night_end_to: d,
                color_from: e,
                color_to: f,
            },
        )
    } else {
        None
    }
}

/// No character of `text[from..to]` is a line break.
pub open spec fn no_line_break(text: Seq<char>, from: int, to: int) -> bool {
    forall|k: int| from <= k < to ==> #[trigger] text[k] != '\n'
}

/// `text` can be cut with the password marker at `first` and the marker of
/// the night-mode start at `second`.
pub open spec fn is_split(text: Seq<char>, first: int, second: int) -> bool {
    &&& has_at(text, 0, QUERY_PREFIX@)
    &&& QUERY_PREFIX@.len() <= first
    &&& has_at(text, first, PASSWORD_MARKER@)
    &&& first + PASSWORD_MARKER@.len() <= second
    &&& tail_spans(text, second) is Some
    &&& no_line_break(text, QUERY_PREFIX@.len() as int, first)
    &&& no_line_break(text, first + PASSWORD_MARKER@.len(), second)
}

/// The cut that is taken: the one with the longest first field and, for that
/// first field, the longest second field.
pub open spec fn is_chosen_split(text: Seq<char>, first: int, second: int) -> bool {
    &&& is_split(text, first, second)
    &&& forall|other_first: int, other_second: int| #[trigger]
        is_split(text, other_first, other_second) ==> other_first < first || (other_first == first
            && other_second <= second)
}

/// The five fields that a cut gives.
pub open spec fn fields_at(text: Seq<char>, first: int, second: int) -> QueryFieldsView {
    let tail = tail_spans(text, second)->0;
    QueryFieldsView {
        ssid: text.subrange(QUERY_PREFIX@.len() as int, first),
        password: text.subrange(first + PASSWORD_MARKER@.len(), second),
        night_start: text.subrange(tail.night_start_from, tail.night_start_to),
        night_end: text.subrange(tail.night_end_from, tail.night_end_to),
        display_color: text.subrange(tail.color_from, tail.color_to),
    }
}

/// The five fields of a query string, or `None` where the text is not of the
/// wire format.
pub open spec fn query_fields(text: Seq<char>) -> Option<QueryFieldsView> {
    if exists|first: int, second: int| is_chosen_split(text, first, second) {
        let (first, second) = choose|first: int, second: int| is_chosen_split(text, first, second);
        Some(fields_at(text, first, second))
    } else {
        None
    }
}

/// The texts of the fields, where there are any.
pub open spec fn fields_view(fields: Option<QueryFields>) -> Option<QueryFieldsView> {
    match fields {
        Some(fields) => Some(fields@),
        None => None,
    }
}

/// Whether `word` stands in `text` at position `at`.
fn stands_at(text: &Vec<char>, at: usize, word: &Vec<char>) -> (found: bool)
    ensures
        found == has_at(text@, at as int, word@),
{
    if at > text.len() || word.len() > text.len() - at {
        return false;
    }
    let mut k: usize = 0;
    while k < word.len()
        invariant
            at + word@.len() <= text@.len() <= usize::MAX,
            k <= word@.len(),
            text@.subrange(at as int, at + k) == word@.subrange(0, k as int),
        decreases word@.len() - k,
    {
        if text[at + k] != word[k] {
            proof {
                assert(text@.subrange(at as int, at + word@.len())[k as int] == text@[at + k]);
            }
            return false;
        }
        k = k + 1;
        proof {
            assert(text@.subrange(at as int, at + k) == text@.subrange(at as int, at + k - 1).push(
                text@[at + k - 1],
            ));
            assert(word@.subrange(0, k as int) == word@.subrange(0, k - 1).push(word@[k - 1]));
        }
    }
    proof {
        assert(word@.subrange(0, word@.len() as int) == word@);
    }
    true
}

/// Whether a character may stand in a field of the given kind.
fn field_char(c: char, color: bool) -> (allowed: bool)
    ensures
        allowed == is_field_char(c, color),
{
    if color {
        c == '%' || ('0' <= c && c <= '9') || ('a' <= c && c <= 'f') || ('A' <= c && c <= 'F')
    } else {
        c == '%' || c == 'A' || ('0' <= c && c <= '9')
    }
}

/// Where the longest run of field characters that starts at `from` ends.
fn end_of_run(text: &Vec<char>, from: usize, color: bool) -> (end: usize)
    ensures
        end == run_end(text@, from as int, color),
        from <= end,
        from <= text@.len() ==> end <= text@.len(),
{
    let mut end: usize = from;
    while end < text.len() && field_char(text[end], color)
        invariant
            from <= end,
            from <= text@.len() ==> end <= text@.len(),
            run_end(text@, from as int, color) == run_end(text@, end as int, color),
        decreases text@.len() - end,
    {
        end = end + 1;
    }
    end
}

/// The spans of the last three fields where the text continues with them at
/// `at`: see `tail_spans`.
fn tail_at(text: &Vec<char>, at: usize, markers: &Markers) -> (spans: Option<
    (usize, usize, usize, usize, usize, usize),
>)
    requires
        markers.wf(),
    ensures
        spans is Some == tail_spans(text@, at as int) is Some,
        spans matches Some(s) ==> tail_spans(text@, at as int) == Some(
            TailSpans {
                night_start_from: s.0 as int,
                night_start_to: s.1 as int,
                night_end_from: s.2 as int,
                night_end_to: s.3 as int,
                color_from: s.4 as int,
                color_to: s.5 as int,
            },
        ) && s.0 <= s.1 <= s.2 <= s.3 <= s.4 <= s.5 <= text@.len(),
{
    let length: usize = text.len();
    if !stands_at(text, at, &markers.night_start) {
        return None;
    }
    let a: usize = at + markers.night_start.len();
    let b: usize = end_of_run(text, a, false);
    if !stands_at(text, b, &markers.night_end) {
        return None;
    }
    let c: usize = b + markers.night_end.len();
    let d: usize = end_of_run(text, c, false);
    if !stands_at(text, d, &markers.color) {
        return None;
    }
    let e: usize = d + markers.color.len();
    let f: usize = end_of_run(text, e, true);
    Some((a, b, c, d, e, f))
}

/// Where the first line break at or behind `from` stands, or the length of
/// the text where there is none.
fn line_end(text: &Vec<char>, from: usize) -> (end: usize)
    requires
        from <= text@.len(),
    ensures
        from <= end <= text@.len(),
        no_line_break(text@, from as int, end as int),
        end < text@.len() ==> text@[end as int] == '\n',
{
    let mut end: usize = from;
    while end < text.len() && text[end] != '\n'
        invariant
            from <= end <= text@.len(),
            no_line_break(text@, from as int, end as int),
        decreases text@.len() - end,
    {
        end = end + 1;
    }
    end
}

/// The prefix and the four markers of the wire format, as characters.
struct Markers {
    prefix: Vec<char>,
    password: Vec<char>,
    night_start: Vec<char>,
    night_end: Vec<char>,
    color: Vec<char>,
}

impl Markers {
    spec fn wf(&self) -> bool {
        &&& self.prefix@ == QUERY_PREFIX@
        &&& self.password@ == PASSWORD_MARKER@
        &&& self.night_start@ == NIGHT_START_MARKER@
        &&& self.night_end@ == NIGHT_END_MARKER@
        &&& self.color@ == COLOR_MARKER@
    }

    fn new() -> (markers: Self)
        ensures
            markers.wf(),
    {
        Markers {
            prefix: chars_of(QUERY_PREFIX),
            password: chars_of(PASSWORD_MARKER),
            night_start: chars_of(NIGHT_START_MARKER),
            night_end: chars_of(NIGHT_END_MARKER),
            color: chars_of(COLOR_MARKER),
        }
    }
}

/// The latest position at or before `from`, and not before `floor`, where the
/// night-mode start marker stands and the last three fields follow.
fn latest_tail(text: &Vec<char>, floor: usize, from: usize, markers: &Markers) -> (found: Option<
    (usize, (usize, usize, usize, usize, usize, usize)),
>)
    requires
        markers.wf(),
        floor <= from <= text@.len(),
    ensures
        found is None ==> forall|at: int| floor <= at <= from ==> tail_spans(text@, at) is None,
        found matches Some((at, s)) ==> {
            &&& floor <= at <= from
            &&& tail_spans(text@, at as int) == Some(
                TailSpans {
                    night_start_from: s.0 as int,
                    night_start_to: s.1 as int,
                    night_end_from: s.2 as int,
                    night_end_to: s.3 as int,
                    color_from: s.4 as int,
                    color_to: s.5 as int,
                },
            )
            &&& s.0 <= s.1 <= s.2 <= s.3 <= s.4 <= s.5 <= text@.len()
            &&& forall|later: int| at < later <= from ==> tail_spans(text@, later) is None
        },
{
    let mut at: usize = from;
    loop
        invariant
            markers.wf(),
            floor <= at <= from <= text@.len(),
            forall|later: int| at < later <= from ==> tail_spans(text@, later) is None,
        decreases at - floor,
    {
        match tail_at(text, at, markers) {
            Some(spans) => {
                return Some((at, spans));
            },
            None => {},
        }
        if at == floor {
            return None;
        }
        at = at - 1;
    }
}

/// Cut a query string into its five fields: see `query_fields`.
pub fn split_query(uri: &str) -> (fields: Option<QueryFields>)
    ensures
        fields_view(fields) == query_fields(uri@),
{
    let text = chars_of(uri);
    let markers = Markers::new();
    if !stands_at(&text, 0, &markers.prefix) {
        proof {
            assert(forall|first: int, second: int| !is_split(text@, first, second));
        }
        return None;
    }
    let start: usize = markers.prefix.len();
    let limit: usize = line_end(&text, start);
    let mut first: usize = limit;
    loop
        invariant
            markers.wf(),
            text@ == uri@,
            has_at(text@, 0, QUERY_PREFIX@),
            start == QUERY_PREFIX@.len(),
            start <= first <= limit <= text@.len() <= usize::MAX,
            no_line_break(text@, start as int, limit as int),
            limit < text@.len() ==> text@[limit as int] == '\n',
            forall|later: int, second: int| first < later ==> !is_split(text@, later, second),
        decreases first - start,
    {
        if stands_at(&text, first, &markers.password) {
            let begin: usize = first + markers.password.len();
            let bound: usize = line_end(&text, begin);
            match latest_tail(&text, begin, bound, &markers) {
                Some((second, s)) => {
                    let fields = QueryFields {
                        ssid: string_of(&text, start, first),
                        password: string_of(&text, begin, second),
                        night_start: string_of(&text, s.0, s.1),
                        night_end: string_of(&text, s.2, s.3),
                        display_color: string_of(&text, s.4, s.5),
                    };
                    proof {
                        let f = first as int;
                        let g = second as int;
                        assert(is_split(text@, f, g));
                        assert forall|other_first: int, other_second: int| #[trigger]
                            is_split(text@, other_first, other_second) implies other_first < f || (
                        other_first == f && other_second <= g) by {
                            if other_first == f && other_second > g {
                                if other_second > bound {
                                    assert(text@[bound as int] == '\n');
                                }
                            }
                        }
                        assert(is_chosen_split(text@, f, g));
                        let (c1, c2) = choose|c1: int, c2: int| is_chosen_split(text@, c1, c2);
                        assert(is_chosen_split(text@, c1, c2));
                        assert(is_split(text@, c1, c2));
                        assert(c1 == f && c2 == g);
                        assert(fields@ == fields_at(text@, f, g));
                    }
                    return Some(fields);
                },
                None => {
                    proof {
                        assert forall|second: int| !is_split(text@, first as int, second) by {
                            if is_split(text@, first as int, second) {
                                if second > bound {
                                    assert(text@[bound as int] == '\n');
                                }
                            }
                        }
                    }
                },
            }
        }
        if first == start {
            proof {
                assert forall|a: int, b: int| !is_split(text@, a, b) by {
                    if is_split(text@, a, b) {
                        if a > limit {
                            assert(text@[limit as int] == '\n');
                        }
                    }
                }
            }
            return None;
        }
        first = first - 1;
    }
}

} // verus!

verus! {

/// The query string that carries five fields: the prefix, then the fields
/// with their markers between them.
pub open spec fn query_text(fields: QueryFieldsView) -> Seq<char> {
    QUERY_PREFIX@ + fields.ssid + PASSWORD_MARKER@ + fields.password + NIGHT_START_MARKER@
        + fields.night_start + NIGHT_END_MARKER@ + fields.night_end + COLOR_MARKER@
        + fields.display_color
}

/// A credential as a form sends it: without `&`, which the form encodes, and
/// without a line break.
pub open spec fn is_sent_credential(s: Seq<char>) -> bool {
    forall|k: int| 0 <= k < s.len() ==> #[trigger] s[k] != '&' && s[k] != '\n'
}

/// Every character of `s` may stand in a field of the given kind.
pub open spec fn is_field(s: Seq<char>, color: bool) -> bool {
    forall|k: int| 0 <= k < s.len() ==> is_field_char(#[trigger] s[k], color)
}

/// The five fields are such as a form sends them.
pub open spec fn is_sent(fields: QueryFieldsView) -> bool {
    &&& is_sent_credential(fields.ssid)
    &&& is_sent_credential(fields.password)
    &&& is_field(fields.night_start, false)
    &&& is_field(fields.night_end, false)
    &&& is_field(fields.display_color, true)
}

/// A run of field characters that something else ends, or the end of the
/// text, is the longest one.
proof fn lemma_run_end(text: Seq<char>, from: int, to: int, color: bool)
    requires
        0 <= from <= to <= text.len(),
        forall|k: int| from <= k < to ==> is_field_char(#[trigger] text[k], color),
        to < text.len() ==> !is_field_char(text[to], color),
    ensures
        run_end(text, from, color) == to,
    decreases to - from,
{
    if from < to {
        lemma_run_end(text, from + 1, to, color);
    }
}

/// The text of the prefix and of the markers: each marker starts with `&`
/// and holds no other, the prefix holds none, and no marker starts as
/// another does.
proof fn lemma_markers()
    ensures
        QUERY_PREFIX@.len() == 21,
        PASSWORD_MARKER@.len() == 21,
        NIGHT_START_MARKER@.len() == 24,
        NIGHT_END_MARKER@.len() == 22,
        COLOR_MARKER@.len() == 10,
        forall|k: int| 0 <= k < 21 ==> #[trigger] QUERY_PREFIX@[k] != '&',
        forall|k: int| 0 <= k < 21 ==> (#[trigger] PASSWORD_MARKER@[k] == '&' <==> k == 0),
        forall|k: int| 0 <= k < 24 ==> (#[trigger] NIGHT_START_MARKER@[k] == '&' <==> k == 0),
        forall|k: int| 0 <= k < 22 ==> (#[trigger] NIGHT_END_MARKER@[k] == '&' <==> k == 0),
        forall|k: int| 0 <= k < 10 ==> (#[trigger] COLOR_MARKER@[k] == '&' <==> k == 0),
        PASSWORD_MARKER@[7] == 'w',
        NIGHT_START_MARKER@[7] == 'n',
        NIGHT_END_MARKER@[7] == 'n',
        PASSWORD_MARKER@[1] == 'i',
        NIGHT_START_MARKER@[1] == 'i',
        COLOR_MARKER@[1] == 'f',
        NIGHT_START_MARKER@[18] == 's',
        NIGHT_END_MARKER@[18] == 'e',
{
    reveal_strlit("/get?input_wifi_ssid=");
    reveal_strlit("&input_wifi_password=");
    reveal_strlit("&input_night_mode_start=");
    reveal_strlit("&input_night_mode_end=");
    reveal_strlit("&favcolor=");
    assert(QUERY_PREFIX@.len() == 21);
    assert(PASSWORD_MARKER@.len() == 21);
    assert(NIGHT_START_MARKER@.len() == 24);
    assert(NIGHT_END_MARKER@.len() == 22);
    assert(COLOR_MARKER@.len() == 10);
}

/// Cutting the query string that carries five fields gives the five fields
/// back, as long as they are such as a form sends them.
pub proof fn lemma_split_of_query_text(fields: QueryFieldsView)
    requires
        is_sent(fields),
    ensures
        query_fields(query_text(fields)) == Some(fields),
{
    lemma_markers();
    let t = query_text(fields);
    let first: int = 21 + fields.ssid.len() as int;
    let second: int = first + 21 + fields.password.len() as int;
    let third: int = second + 24 + fields.night_start.len() as int;
    let fourth: int = third + 22 + fields.night_end.len() as int;
    let end: int = fourth + 10 + fields.display_color.len() as int;
    assert(t.len() == end);
    // Where each part of the text comes from.
    assert forall|k: int| 0 <= k < 21 implies #[trigger] t[k] == QUERY_PREFIX@[k] by {}
    assert forall|k: int| 21 <= k < first implies #[trigger] t[k] == fields.ssid[k - 21] by {}
    assert forall|k: int| first <= k < first + 21 implies #[trigger] t[k] == PASSWORD_MARKER@[k
        - first] by {}
    assert forall|k: int| first + 21 <= k < second implies #[trigger] t[k] == fields.password[k
        - first - 21] by {}
    assert forall|k: int| second <= k < second + 24 implies #[trigger] t[k]
        == NIGHT_START_MARKER@[k - second] by {}
    assert forall|k: int| second + 24 <= k < third implies #[trigger] t[k] == fields.night_start[k
        - second - 24] by {}
    assert forall|k: int| third <= k < third + 22 implies #[trigger] t[k] == NIGHT_END_MARKER@[k
        - third] by {}
    assert forall|k: int| third + 22 <= k < fourth implies #[trigger] t[k] == fields.night_end[k
        - third - 22] by {}
    assert forall|k: int| fourth <= k < fourth + 10 implies #[trigger] t[k] == COLOR_MARKER@[k
        - fourth] by {}
    assert forall|k: int| fourth + 10 <= k < end implies #[trigger] t[k]
        == fields.display_color[k - fourth - 10] by {}
    // Where `&` stands in the text: at the start of the four markers.
    assert forall|k: int| 0 <= k < end && #[trigger] t[k] == '&' implies k == first || k == second
        || k == third || k == fourth by {
        if k < 21 {
        } else if k < first {
            assert(fields.ssid[k - 21] != '&');
        } else if k < first + 21 {
            assert(PASSWORD_MARKER@[k - first] == '&');
        } else if k < second {
            assert(fields.password[k - first - 21] != '&');
        } else if k < second + 24 {
            assert(NIGHT_START_MARKER@[k - second] == '&');
        } else if k < third {
            assert(is_field_char(fields.night_start[k - second - 24], false));
        } else if k < third + 22 {
            assert(NIGHT_END_MARKER@[k - third] == '&');
        } else if k < fourth {
            assert(is_field_char(fields.night_end[k - third - 22], false));
        } else if k < fourth + 10 {
            assert(COLOR_MARKER@[k - fourth] == '&');
        } else {
            assert(is_field_char(fields.display_color[k - fourth - 10], true));
        }
    }
    // The text is cut at the two markers.
    assert(t.subrange(0, 21) =~= QUERY_PREFIX@);
    assert(t.subrange(first, first + 21) =~= PASSWORD_MARKER@);
    assert(t.subrange(second, second + 24) =~= NIGHT_START_MARKER@);
    assert(t.subrange(third, third + 22) =~= NIGHT_END_MARKER@);
    assert(t.subrange(fourth, fourth + 10) =~= COLOR_MARKER@);
    assert(t[third] == NIGHT_END_MARKER@[0]);
    assert(t[fourth] == COLOR_MARKER@[0]);
    assert forall|k: int| second + 24 <= k < third implies is_field_char(#[trigger] t[k], false) by {
        assert(is_field_char(fields.night_start[k - second - 24], false));
    }
    assert forall|k: int| third + 22 <= k < fourth implies is_field_char(#[trigger] t[k], false) by {
        assert(is_field_char(fields.night_end[k - third - 22], false));
    }
    assert forall|k: int| fourth + 10 <= k < end implies is_field_char(#[trigger] t[k], true) by {
        assert(is_field_char(fields.display_color[k - fourth - 10], true));
    }
    lemma_run_end(t, second + 24, third, false);
    lemma_run_end(t, third + 22, fourth, false);
    lemma_run_end(t, fourth + 10, end, true);
    assert(tail_spans(t, second) == Some(
        TailSpans {
            night_start_from: second + 24,
            night_start_to: third,
            night_end_from: third + 22,
            night_end_to: fourth,
            color_from: fourth + 10,
            color_to: end,
        },
    ));
    assert forall|k: int| 21 <= k < first implies #[trigger] t[k] != '\n' by {
        assert(fields.ssid[k - 21] != '\n');
    }
    assert forall|k: int| first + 21 <= k < second implies #[trigger] t[k] != '\n' by {
        assert(fields.password[k - first - 21] != '\n');
    }
    assert(is_split(t, first, second));
    // No other cut is possible: the markers stand where they stand.
    assert forall|a: int, b: int| #[trigger] is_split(t, a, b) implies a == first && b
        == second by {
        assert(t.subrange(a, a + 21) == PASSWORD_MARKER@);
        assert(t[a] == t.subrange(a, a + 21)[0]);
        assert(t[a + 1] == t.subrange(a, a + 21)[1]);
        assert(t[a + 7] == t.subrange(a, a + 21)[7]);
        assert(t[a] == '&');
        assert(t.subrange(b, b + 24) == NIGHT_START_MARKER@);
        assert(t[b] == t.subrange(b, b + 24)[0]);
        assert(t[b + 1] == t.subrange(b, b + 24)[1]);
        assert(t[b + 18] == t.subrange(b, b + 24)[18]);
        assert(t[b] == '&');
        if a == second {
            assert(t[a + 7] == NIGHT_START_MARKER@[7]);
        } else if a == third {
            assert(t[a + 7] == NIGHT_END_MARKER@[7]);
        } else if a == fourth {
            assert(t[a + 1] == COLOR_MARKER@[1]);
        }
        if b == third {
            assert(t[b + 18] == NIGHT_END_MARKER@[18]);
        } else if b == fourth {
            assert(t[b + 1] == COLOR_MARKER@[1]);
        }
    }
    assert(is_chosen_split(t, first, second));
    let (a, b) = choose|a: int, b: int| is_chosen_split(t, a, b);
    assert(is_split(t, a, b));
    assert(fields_at(t, first, second).ssid =~= fields.ssid);
    assert(fields_at(t, first, second).password =~= fields.password);
    assert(fields_at(t, first, second).night_start =~= fields.night_start);
    assert(fields_at(t, first, second).night_end =~= fields.night_end);
    assert(fields_at(t, first, second).display_color =~= fields.display_color);
}

} // verus!
