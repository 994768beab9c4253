/* SPDX-License-Identifier: MIT
 * Copyright (c) 2023 Louis Mayencourt
 */

//! The word clock's face: a matrix of 11 by 10 LEDs behind a grid of letters,
//! with four more LEDs for the minutes between two steps of five, all on one
//! strip. The time is shown by lighting the words that say it in the dialect
//! of Bern.

use vstd::prelude::*;
use crate::color::{default_color, Color};
use crate::display::{Display, PROGRESS_LEVELS};
use crate::hardware::HardwareError;
use crate::led_driver::RgbLedStrip;
use crate::time::Time;

verus! {

/// LEDs matrix have a given size of 11x10 (+4 dots).
pub const LEDS_MATRIX_WIDTH: usize = 11;

pub const LEDS_MATRIX_HEIGTH: usize = 10;

/// The LEDs of the four dots, which come first on the strip.
pub const LEDS_DOTS_COUNT: usize = 4;

pub const LEDS_MATRIX_PIXEL_COUNT: usize = LEDS_MATRIX_HEIGTH * LEDS_MATRIX_WIDTH + 4;

/// Hour to text lookup table for Bärn dialect.
/// Stored as start_x, start_y, length.
pub const BARN_HOURS_LOOKUP_TABLE: [[usize; 3]; 12] = [
    [0, 4, 3],  // eis
    [3, 4, 4],  // zwöi
    [8, 4, 3],  // drü
    [0, 5, 5],  // vieri
    [5, 5, 4],  // füfi
    [0, 6, 6],  // sächsi
    [6, 6, 5],  // sibni
    [0, 7, 5],  // achti
    [5, 7, 4],  // nüni
    [0, 8, 4],  // zäni
    [7, 8, 4],  // eufi
    [0, 9, 6],  // zwöufi
];

/// Index for minute lookup table.
pub const MIN_5: usize = 1;

pub const MIN_10: usize = 2;

pub const MIN_15: usize = 3;

pub const MIN_20: usize = 4;

pub const MIN_30: usize = 5;

/// Minute to text lookup table for Bärn dialect.
/// Stored as start_x, start_y, length.
pub const BARN_MINUTES_LOOKUP_TABLE: [[usize; 3]; 6] = [
    [8, 9, 3],  // uhr
    [8, 0, 3],  // füf
    [8, 1, 3],  // zää
    [0, 1, 6],  // viertu
    [0, 2, 6],  // zwänzg
    [3, 3, 5],  // haubi
];

/// Preposition to text lookup table for Bärn dialect.
/// Stored as start_x, start_y, length.
pub const BARN_PREPOSITION_LOOKUP_TABLE: [[usize; 3]; 2] = [
    [0, 3, 2],  // ab
    [8, 2, 3],  // vor
];

/// Word to text lookup table for Bärn dialect.
/// Stored as start_x, start_y, length.
pub const BARN_WORD_LOOKUP_TABLE: [[usize; 3]; 3] = [
    [0, 0, 2],  // es
    [3, 0, 4],  // isch
    [8, 9, 3],  // uhr
];

/// Red circle with cross sign: for each LED of the strip, 1 where it is red.
pub const ERROR_SIGN: [u8; 114] = [
    1, 1, 1, 1,
    0, 0, 1, 1, 0, 0, 0, 1, 1, 0, 0,
    0, 1, 1, 0, 0, 0, 0, 0, 1, 1, 0,
    1, 1, 0, 1, 0, 0, 0, 1, 0, 1, 1,
    1, 0, 0, 0, 1, 0, 1, 0, 0, 0, 1,
    1, 0, 0, 0, 0, 1, 0, 0, 0, 0, 1,
    1, 0, 0, 0, 1, 0, 1, 0, 0, 0, 1,
    1, 1, 0, 1, 0, 0, 0, 1, 0, 1, 1,
    0, 1, 1, 0, 0, 0, 0, 0, 1, 1, 0,
    0, 0, 1, 1, 0, 0, 0, 1, 1, 0, 0,
    0, 0, 0, 1, 1, 1, 1, 1, 0, 0, 0,
];

/// An LED that is off.
pub open spec fn black() -> Color {
    Color { r: 0, g: 0, b: 0 }
}

/// The colour of the error sign.
pub open spec fn red() -> Color {
    Color { r: 255, g: 0, b: 0 }
}

/// A word lies on the face: its row is one of the ten, and it ends within
/// the eleven columns.
pub open spec fn word_fits(word: [usize; 3]) -> bool {
    word[1] < LEDS_MATRIX_HEIGTH && word[0] + word[2] <= LEDS_MATRIX_WIDTH
}

/// Where on the strip the LED of column `x` and row `y` stands. The strip
/// starts with the four dots and then winds through the rows from the last
/// to the first, the rows with an odd number from right to left. A row
/// beyond the face stands for the dots.
pub open spec fn pixel_index(x: int, y: int) -> int {
    if y < LEDS_MATRIX_HEIGTH {
        LEDS_MATRIX_WIDTH * (LEDS_MATRIX_HEIGTH - 1 - y) + (if y % 2 == 1 {
            LEDS_MATRIX_WIDTH - 1 - x
        } else {
            x
        }) + LEDS_DOTS_COUNT
    } else {
        x
    }
}

/// One of the first `count` letters of a word has its LED at `pixel`.
pub open spec fn covers_first(word: [usize; 3], count: int, pixel: int) -> bool {
    exists|n: int| 0 <= n < count && #[trigger] pixel_index(word[0] + n, word[1] as int) == pixel
}

/// A letter of a word has its LED at `pixel`.
pub open spec fn covers(word: [usize; 3], pixel: int) -> bool {
    covers_first(word, word[2] as int, pixel)
}

/// A frame with the first `count` letters of a word lit.
pub open spec fn paint_letters(frame: Seq<Color>, word: [usize; 3], count: int, color: Color) -> Seq<
    Color,
> {
    Seq::new(
        frame.len(),
        |i: int|
            if covers_first(word, count, i) {
                color
            } else {
                frame[i]
            },
    )
}

/// A frame with a word lit.
pub open spec fn paint_word(frame: Seq<Color>, word: [usize; 3], color: Color) -> Seq<Color> {
    paint_letters(frame, word, word[2] as int, color)
}

/// A frame with a run of words lit.
pub open spec fn paint_words(frame: Seq<Color>, words: Seq<[usize; 3]>, color: Color) -> Seq<Color>
    decreases words.len(),
{
    if words.len() == 0 {
        frame
    } else {
        paint_word(paint_words(frame, words.drop_last(), color), words.last(), color)
    }
}

/// A frame with `number` LEDs lit from `start` on.
pub open spec fn paint_dots(frame: Seq<Color>, start: int, number: int, color: Color) -> Seq<Color> {
    Seq::new(
        frame.len(),
        |i: int|
            if start <= i < start + number {
                color
            } else {
                frame[i]
            },
    )
}

/// The frame with every LED off.
pub open spec fn blank_frame() -> Seq<Color> {
    Seq::new(LEDS_MATRIX_PIXEL_COUNT as nat, |i: int| black())
}

/// The frame of the error sign.
pub open spec fn error_frame() -> Seq<Color> {
    Seq::new(
        LEDS_MATRIX_PIXEL_COUNT as nat,
        |i: int|
            if ERROR_SIGN[i] == 1 {
                red()
            } else {
                black()
            },
    )
}

/// The hour that is named for a time, from 1 to 12: the coming hour from
/// twenty-five past on.
pub open spec fn named_hour(time: Time) -> int {
    let hour = if time.minute >= 25 {
        time.hour + 1
    } else {
        time.hour as int
    };
    let hour = if hour > 12 {
        hour - 12
    } else {
        hour
    };
    if hour == 0 {
        12
    } else {
        hour
    }
}

/// The words that say the minutes of a time, in steps of five.
pub open spec fn minute_words(minute: int) -> Seq<[usize; 3]> {
    if minute < 5 {
        // es isch .. uhr
        seq![
            BARN_WORD_LOOKUP_TABLE[0],
            BARN_WORD_LOOKUP_TABLE[1],
            BARN_MINUTES_LOOKUP_TABLE[0],
        ]
    } else if minute < 25 {
        // füf, zää, viertu, zwänzg ab
        seq![BARN_MINUTES_LOOKUP_TABLE[minute / 5], BARN_PREPOSITION_LOOKUP_TABLE[0]]
    } else if minute < 30 {
        // füf vor haubi
        seq![
            BARN_MINUTES_LOOKUP_TABLE[MIN_5 as int],
            BARN_PREPOSITION_LOOKUP_TABLE[1],
            BARN_MINUTES_LOOKUP_TABLE[MIN_30 as int],
        ]
    } else if minute < 35 {
        // haubi
        seq![BARN_MINUTES_LOOKUP_TABLE[MIN_30 as int]]
    } else if minute < 40 {
        // füf ab haubi
        seq![
            BARN_MINUTES_LOOKUP_TABLE[MIN_5 as int],
            BARN_PREPOSITION_LOOKUP_TABLE[0],
            BARN_MINUTES_LOOKUP_TABLE[MIN_30 as int],
        ]
    } else {
        // zwänzg, viertu, zää, füf vor
        seq![BARN_MINUTES_LOOKUP_TABLE[(60 - minute - 1) / 5 + 1], BARN_PREPOSITION_LOOKUP_TABLE[1]]
    }
}

/// The words that say a time: the hour, then the minutes.
pub open spec fn time_words(time: Time) -> Seq<[usize; 3]> {
    seq![BARN_HOURS_LOOKUP_TABLE[named_hour(time) - 1]] + minute_words(time.minute as int)
}

/// The frame that shows a time: its words lit, and one dot for each minute
/// past the last step of five.
pub open spec fn time_frame(time: Time, color: Color) -> Seq<Color> {
    paint_dots(
        paint_words(blank_frame(), time_words(time), color),
        0,
        (time.minute % 5) as int,
        color,
    )
}

/// The frame that shows a progress of `progress` steps: that many dots lit.
pub open spec fn progress_frame(progress: u8, color: Color) -> Seq<Color> {
    paint_dots(blank_frame(), 0, progress as int, color)
}

/// Every word of the four tables lies on the face.
pub proof fn lemma_words_fit()
    ensures
        forall|i: int| 0 <= i < 12 ==> word_fits(#[trigger] BARN_HOURS_LOOKUP_TABLE[i]),
        forall|i: int| 0 <= i < 6 ==> word_fits(#[trigger] BARN_MINUTES_LOOKUP_TABLE[i]),
        forall|i: int| 0 <= i < 2 ==> word_fits(#[trigger] BARN_PREPOSITION_LOOKUP_TABLE[i]),
        forall|i: int| 0 <= i < 3 ==> word_fits(#[trigger] BARN_WORD_LOOKUP_TABLE[i]),
{
    assert forall|i: int| 0 <= i < 12 implies word_fits(#[trigger] BARN_HOURS_LOOKUP_TABLE[i]) by {
        assert(word_fits(BARN_HOURS_LOOKUP_TABLE[0]));
        assert(word_fits(BARN_HOURS_LOOKUP_TABLE[1]));
        assert(word_fits(BARN_HOURS_LOOKUP_TABLE[2]));
        assert(word_fits(BARN_HOURS_LOOKUP_TABLE[3]));
        assert(word_fits(BARN_HOURS_LOOKUP_TABLE[4]));
        assert(word_fits(BARN_HOURS_LOOKUP_TABLE[5]));
        assert(word_fits(BARN_HOURS_LOOKUP_TABLE[6]));
        assert(word_fits(BARN_HOURS_LOOKUP_TABLE[7]));
        assert(word_fits(BARN_HOURS_LOOKUP_TABLE[8]));
        assert(word_fits(BARN_HOURS_LOOKUP_TABLE[9]));
        assert(word_fits(BARN_HOURS_LOOKUP_TABLE[10]));
        assert(word_fits(BARN_HOURS_LOOKUP_TABLE[11]));
    }
    assert forall|i: int| 0 <= i < 6 implies word_fits(#[trigger] BARN_MINUTES_LOOKUP_TABLE[i]) by {
        assert(word_fits(BARN_MINUTES_LOOKUP_TABLE[0]));
        assert(word_fits(BARN_MINUTES_LOOKUP_TABLE[1]));
        assert(word_fits(BARN_MINUTES_LOOKUP_TABLE[2]));
        assert(word_fits(BARN_MINUTES_LOOKUP_TABLE[3]));
        assert(word_fits(BARN_MINUTES_LOOKUP_TABLE[4]));
        assert(word_fits(BARN_MINUTES_LOOKUP_TABLE[5]));
    }
    assert forall|i: int| 0 <= i < 2 implies word_fits(
        #[trigger] BARN_PREPOSITION_LOOKUP_TABLE[i],
    ) by {
        assert(word_fits(BARN_PREPOSITION_LOOKUP_TABLE[0]));
        assert(word_fits(BARN_PREPOSITION_LOOKUP_TABLE[1]));
    }
    assert forall|i: int| 0 <= i < 3 implies word_fits(#[trigger] BARN_WORD_LOOKUP_TABLE[i]) by {
        assert(word_fits(BARN_WORD_LOOKUP_TABLE[0]));
        assert(word_fits(BARN_WORD_LOOKUP_TABLE[1]));
        assert(word_fits(BARN_WORD_LOOKUP_TABLE[2]));
    }
}

/// The LED of a place on the face is one of the strip, behind the dots.
pub proof fn lemma_pixel_index_on_strip(x: int, y: int)
    requires
        0 <= x < LEDS_MATRIX_WIDTH,
        0 <= y < LEDS_MATRIX_HEIGTH,
    ensures
        LEDS_DOTS_COUNT <= pixel_index(x, y) < LEDS_MATRIX_PIXEL_COUNT,
{
}

/// A frame with every LED off.
pub fn new_frame() -> (frame: Vec<Color>)
    ensures
        frame@ == blank_frame(),
{
    let frame = vec![Color { r: 0, g: 0, b: 0 }; LEDS_MATRIX_PIXEL_COUNT];
    proof {
        assert(frame@ =~= blank_frame());
    }
    frame
}

/// Light the LED of column `x` and row `y`; a row beyond the face stands for
/// the dots.
pub fn set_pixel(frame: &mut Vec<Color>, x_cor: usize, y_cor: usize, color: Color)
    requires
        old(frame)@.len() == LEDS_MATRIX_PIXEL_COUNT,
        y_cor < LEDS_MATRIX_HEIGTH ==> x_cor < LEDS_MATRIX_WIDTH,
        y_cor >= LEDS_MATRIX_HEIGTH ==> x_cor < LEDS_DOTS_COUNT,
    ensures
        final(frame)@ == old(frame)@.update(pixel_index(x_cor as int, y_cor as int), color),
        0 <= pixel_index(x_cor as int, y_cor as int) < LEDS_MATRIX_PIXEL_COUNT,
{
    let pixel_num: usize;
    // minutes dots are the 4 first pixels
    if y_cor < LEDS_MATRIX_HEIGTH {
        let mut corrected_x_cor: usize = x_cor;
        let corrected_y_cor: usize = LEDS_MATRIX_HEIGTH - 1 - y_cor;
        if y_cor % 2 == 1 {
            // we are on a odd line
            corrected_x_cor = LEDS_MATRIX_WIDTH - 1 - x_cor;
        }
        pixel_num = LEDS_MATRIX_WIDTH * corrected_y_cor + corrected_x_cor + 4;
    } else {
        pixel_num = x_cor;
    }
    frame.set(pixel_num, color);
}

/// Light a word.
pub fn set_pixel_from_lut(frame: &mut Vec<Color>, word: [usize; 3], color: Color)
    requires
        old(frame)@.len() == LEDS_MATRIX_PIXEL_COUNT,
        word_fits(word),
    ensures
        final(frame)@ == paint_word(old(frame)@, word, color),
{
    let mut n: usize = 0;
    proof {
        assert(frame@ =~= paint_letters(old(frame)@, word, 0, color));
    }
    while n < word[2]
        invariant
            n <= word[2],
            word_fits(word),
            frame@.len() == LEDS_MATRIX_PIXEL_COUNT,
            old(frame)@.len() == LEDS_MATRIX_PIXEL_COUNT,
            frame@ == paint_letters(old(frame)@, word, n as int, color),
        decreases word[2] - n,
    {
        set_pixel(frame, word[0] + n, word[1], color);
        proof {
            let lit = pixel_index(word[0] + n, word[1] as int);
            assert forall|i: int| 0 <= i < LEDS_MATRIX_PIXEL_COUNT implies #[trigger] frame@[i]
                == paint_letters(old(frame)@, word, n + 1, color)[i] by {
                if i == lit {
                    assert(covers_first(word, n + 1, i));
                } else if covers_first(word, n as int, i) {
                    let m = choose|m: int|
                        0 <= m < n && #[trigger] pixel_index(word[0] + m, word[1] as int) == i;
                    assert(0 <= m < n + 1 && pixel_index(word[0] + m, word[1] as int) == i);
                } else if covers_first(word, n + 1, i) {
                    let m = choose|m: int|
                        0 <= m < n + 1 && #[trigger] pixel_index(word[0] + m, word[1] as int) == i;
                    assert(m < n);
                    assert(false);
                }
            }
            assert(frame@ =~= paint_letters(old(frame)@, word, n + 1, color));
        }
        n = n + 1;
    }
}

/// Light `number` LEDs from `start` on.
pub fn set_dots(frame: &mut Vec<Color>, start: usize, number: usize, color: Color)
    requires
        old(frame)@.len() == LEDS_MATRIX_PIXEL_COUNT,
        start + number <= LEDS_MATRIX_PIXEL_COUNT,
    ensures
        final(frame)@ == paint_dots(old(frame)@, start as int, number as int, color),
{
    let mut n: usize = start;
    proof {
        assert(frame@ =~= paint_dots(old(frame)@, start as int, 0, color));
    }
    while n < start + number
        invariant
            start <= n <= start + number <= LEDS_MATRIX_PIXEL_COUNT,
            frame@.len() == LEDS_MATRIX_PIXEL_COUNT,
            old(frame)@.len() == LEDS_MATRIX_PIXEL_COUNT,
            frame@ == paint_dots(old(frame)@, start as int, n - start, color),
        decreases start + number - n,
    {
        frame.set(n, color);
        n = n + 1;
        proof {
            assert(frame@ =~= paint_dots(old(frame)@, start as int, n - start, color));
        }
    }
}

/// Light one more word on a frame that shows a run of words.
fn paint(
    frame: &mut Vec<Color>,
    word: [usize; 3],
    color: Color,
    Ghost(words): Ghost<Seq<[usize; 3]>>,
)
    requires
        old(frame)@ == paint_words(blank_frame(), words, color),
        old(frame)@.len() == LEDS_MATRIX_PIXEL_COUNT,
        word_fits(word),
    ensures
        final(frame)@ == paint_words(blank_frame(), words.push(word), color),
        final(frame)@.len() == LEDS_MATRIX_PIXEL_COUNT,
{
    set_pixel_from_lut(frame, word, color);
    proof {
        assert(words.push(word).drop_last() =~= words);
    }
}

/// The frame that shows a time: see `time_frame`.
pub fn frame_of_time(time: Time, color: Color) -> (frame: Vec<Color>)
    requires
        time.is_valid(),
    ensures
        frame@ == time_frame(time, color),
{
    let mut frame = new_frame();
    proof {
        lemma_words_fit();
    }
    let ghost none = Seq::<[usize; 3]>::empty();

    // Compute hour to display
    let mut hour_to_display: u8 = time.hour;
    if time.minute >= 25 {
        hour_to_display = time.hour + 1;
    }
    // 24 -> 12
    if hour_to_display > 12 {
        hour_to_display = hour_to_display - 12;
    }
    // midnight
    if hour_to_display == 0 {
        hour_to_display = 12;
    }
    let hour_word = BARN_HOURS_LOOKUP_TABLE[(hour_to_display - 1) as usize];
    paint(&mut frame, hour_word, color, Ghost(none));
    let ghost hour = none.push(hour_word);

    // Display minutes
    if time.minute < 5 {
        // Es isch .. uhr
        paint(&mut frame, BARN_WORD_LOOKUP_TABLE[0], color, Ghost(hour));
        paint(
            &mut frame,
            BARN_WORD_LOOKUP_TABLE[1],
            color,
            Ghost(hour.push(BARN_WORD_LOOKUP_TABLE[0])),
        );
        let minutes_word: usize = (time.minute / 5) as usize;
        paint(
            &mut frame,
            BARN_MINUTES_LOOKUP_TABLE[minutes_word],
            color,
            Ghost(hour.push(BARN_WORD_LOOKUP_TABLE[0]).push(BARN_WORD_LOOKUP_TABLE[1])),
        );
        proof {
            assert(hour.push(BARN_WORD_LOOKUP_TABLE[0]).push(BARN_WORD_LOOKUP_TABLE[1]).push(
                BARN_MINUTES_LOOKUP_TABLE[0],
            ) =~= time_words(time));
        }
    } else if time.minute < 25 {
        // füf, zää, viertu, zwänzg ab
        let minutes_word: usize = (time.minute / 5) as usize;
        paint(&mut frame, BARN_MINUTES_LOOKUP_TABLE[minutes_word], color, Ghost(hour));
        paint(
            &mut frame,
            BARN_PREPOSITION_LOOKUP_TABLE[0],
            color,
            Ghost(hour.push(BARN_MINUTES_LOOKUP_TABLE[minutes_word as int])),
        );
        proof {
            assert(hour.push(BARN_MINUTES_LOOKUP_TABLE[minutes_word as int]).push(
                BARN_PREPOSITION_LOOKUP_TABLE[0],
            ) =~= time_words(time));
        }
    } else if time.minute < 30 {
        // füf vor haubi
        paint(&mut frame, BARN_MINUTES_LOOKUP_TABLE[MIN_5], color, Ghost(hour));
        paint(
            &mut frame,
            BARN_PREPOSITION_LOOKUP_TABLE[1],
            color,
            Ghost(hour.push(BARN_MINUTES_LOOKUP_TABLE[MIN_5 as int])),
        );
        paint(
            &mut frame,
            BARN_MINUTES_LOOKUP_TABLE[MIN_30],
            color,
            Ghost(
                hour.push(BARN_MINUTES_LOOKUP_TABLE[MIN_5 as int]).push(
                    BARN_PREPOSITION_LOOKUP_TABLE[1],
                ),
            ),
        );
        proof {
            assert(hour.push(BARN_MINUTES_LOOKUP_TABLE[MIN_5 as int]).push(
                BARN_PREPOSITION_LOOKUP_TABLE[1],
            ).push(BARN_MINUTES_LOOKUP_TABLE[MIN_30 as int]) =~= time_words(time));
        }
    } else if time.minute < 35 {
        // haubi
        paint(&mut frame, BARN_MINUTES_LOOKUP_TABLE[MIN_30], color, Ghost(hour));
        proof {
            assert(hour.push(BARN_MINUTES_LOOKUP_TABLE[MIN_30 as int]) =~= time_words(time));
        }
    } else if time.minute < 40 {
        // füf ab haubi
        paint(&mut frame, BARN_MINUTES_LOOKUP_TABLE[MIN_5], color, Ghost(hour));
        paint(
            &mut frame,
            BARN_PREPOSITION_LOOKUP_TABLE[0],
            color,
            Ghost(hour.push(BARN_MINUTES_LOOKUP_TABLE[MIN_5 as int])),
        );
        paint(
            &mut frame,
            BARN_MINUTES_LOOKUP_TABLE[MIN_30],
            color,
            Ghost(
                hour.push(BARN_MINUTES_LOOKUP_TABLE[MIN_5 as int]).push(
                    BARN_PREPOSITION_LOOKUP_TABLE[0],
                ),
            ),
        );
        proof {
            assert(hour.push(BARN_MINUTES_LOOKUP_TABLE[MIN_5 as int]).push(
                BARN_PREPOSITION_LOOKUP_TABLE[0],
            ).push(BARN_MINUTES_LOOKUP_TABLE[MIN_30 as int]) =~= time_words(time));
        }
    } else {
        // zwänzg, viertu, zää, füf vor
        let minutes_word: usize = ((60 - time.minute - 1) / 5 + 1) as usize;
        paint(&mut frame, BARN_MINUTES_LOOKUP_TABLE[minutes_word], color, Ghost(hour));
        paint(
            &mut frame,
            BARN_PREPOSITION_LOOKUP_TABLE[1],
            color,
            Ghost(hour.push(BARN_MINUTES_LOOKUP_TABLE[minutes_word as int])),
        );
        proof {
            assert(hour.push(BARN_MINUTES_LOOKUP_TABLE[minutes_word as int]).push(
                BARN_PREPOSITION_LOOKUP_TABLE[1],
            ) =~= time_words(time));
        }
    }

    // display inter'minutes
    if time.minute % 5 != 0 {
        set_dots(&mut frame, 0, (time.minute % 5) as usize, color);
    } else {
        proof {
            assert(frame@ =~= paint_dots(frame@, 0, 0, color));
        }
    }
    frame
}

/// The frame of the error sign: see `error_frame`.
pub fn frame_of_error() -> (frame: Vec<Color>)
    ensures
        frame@ == error_frame(),
{
    let mut frame = new_frame();
    let mut i: usize = 0;
    while i < LEDS_MATRIX_PIXEL_COUNT
        invariant
            i <= LEDS_MATRIX_PIXEL_COUNT,
            frame@.len() == LEDS_MATRIX_PIXEL_COUNT,
            forall|k: int| 0 <= k < i ==> #[trigger] frame@[k] == error_frame()[k],
        decreases LEDS_MATRIX_PIXEL_COUNT - i,
    {
        if ERROR_SIGN[i] == 1 {
            frame.set(i, Color { r: 255, g: 0, b: 0 });
        } else {
            frame.set(i, Color { r: 0, g: 0, b: 0 });
        }
        i = i + 1;
    }
    proof {
        assert(frame@ =~= error_frame());
    }
    frame
}

/// The frame that shows a progress: see `progress_frame`.
pub fn frame_of_progress(progress: u8, color: Color) -> (frame: Vec<Color>)
    requires
        progress <= PROGRESS_LEVELS,
    ensures
        frame@ == progress_frame(progress, color),
{
    let mut frame = new_frame();
    set_dots(&mut frame, 0, progress as usize, color);
    frame
}

/// A display made of a strip of RGB LEDs behind the word clock's face.
pub struct RgbLedStripMatrix<T: RgbLedStrip> {
    driver: T,
    frame: Vec<Color>,
    color: Color,
}

impl<T: RgbLedStrip> RgbLedStripMatrix<T> {
    /// What the display shows: the colour of each LED of the strip.
    pub closed spec fn frame(&self) -> Seq<Color> {
        self.frame@
    }

    /// The colour in which the display draws.
    pub closed spec fn color(&self) -> Color {
        self.color
    }

    /// Create a RGB LED strip matrix of `LEDS_MATRIX_HEIGTH` by
    /// `LEDS_MATRIX_WIDTH`.
    ///
    /// The display is initialized with a new `frame` cleared, and draws in
    /// the default colour.
    ///
    /// # Errors
    /// The function will return an error if the hardware fails to carry the
    /// operation.
    pub fn new(driver: T) -> (r: Result<Self, HardwareError>)
        ensures
            r matches Ok(display) ==> display.frame() == blank_frame() && display.color()
                == default_color(),
    {
        let mut driver = driver;
        match driver.clear() {
            Ok(()) => {},
            Err(error) => {
                return Err(error);
            },
        }
        Ok(RgbLedStripMatrix { driver, frame: new_frame(), color: Color::default() })
    }

    /// Hand the frame to the strip.
    fn draw_frame(&mut self) -> (r: Result<(), HardwareError>)
        ensures
            final(self).frame() == old(self).frame(),
            final(self).color() == old(self).color(),
    {
        self.driver.write(self.frame.as_slice())
    }
}

impl<T: RgbLedStrip> Display for RgbLedStripMatrix<T> {
    /// Turn every LED off.
    fn clear(&mut self) -> (r: Result<(), HardwareError>)
        ensures
            final(self).frame() == blank_frame(),
            final(self).color() == old(self).color(),
    {
        self.frame = new_frame();
        self.driver.clear()
    }

    /// Show a time: see `time_frame`.
    ///
    /// # Errors
    /// `HardwareError::InvalidArgument` for what is no time of day, and the
    /// error of the strip if it fails to take the frame.
    fn draw_time(&mut self, time: Time) -> (r: Result<(), HardwareError>)
        ensures
            final(self).color() == old(self).color(),
            time.is_valid() ==> final(self).frame() == time_frame(time, old(self).color()),
            !time.is_valid() ==> final(self).frame() == old(self).frame() && r == Err::<
                (),
                HardwareError,
            >(HardwareError::InvalidArgument),
    {
        if time.hour > 23 || time.minute > 59 || time.second > 59 {
            return Err(HardwareError::InvalidArgument);
        }
        self.frame = frame_of_time(time, self.color);
        self.draw_frame()
    }

    /// Show the error sign: see `error_frame`.
    fn draw_error(&mut self) -> (r: Result<(), HardwareError>)
        ensures
            final(self).color() == old(self).color(),
            final(self).frame() == error_frame(),
    {
        self.frame = frame_of_error();
        self.draw_frame()
    }

    /// Show a progress: see `progress_frame`.
    ///
    /// # Errors
    /// `HardwareError::InvalidArgument` for a progress above 4, and the
    /// error of the strip if it fails to take the frame.
    fn draw_progress(&mut self, progress: u8) -> (r: Result<(), HardwareError>)
        ensures
            final(self).color() == old(self).color(),
            progress <= PROGRESS_LEVELS ==> final(self).frame() == progress_frame(
                progress,
                old(self).color(),
            ),
            progress > PROGRESS_LEVELS ==> final(self).frame() == old(self).frame() && r == Err::<
                (),
                HardwareError,
            >(HardwareError::InvalidArgument),
    {
        if progress > PROGRESS_LEVELS {
            return Err(HardwareError::InvalidArgument);
        }
        self.frame = frame_of_progress(progress, self.color);
        self.draw_frame()
    }

    /// Draw in the given colour from now on.
    fn set_default_color(&mut self, color: Color)
        ensures
            final(self).color() == color,
            final(self).frame() == old(self).frame(),
    {
        self.color = color;
    }
}

} // verus!
