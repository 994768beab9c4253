/* SPDX-License-Identifier: MIT
 * Copyright (c) 2023 Louis Mayencourt
 */

use std::cell::RefCell;
use std::rc::Rc;

use application::color::Color;
use application::display::Display;
use application::hardware::HardwareError;
use application::led_driver::{frame_signal, rgb_to_u32, RgbLedStrip};
use application::rgb_led_strip_matrix::{
    frame_of_error, frame_of_progress, frame_of_time, new_frame, set_dots, set_pixel,
    set_pixel_from_lut, RgbLedStripMatrix, BARN_HOURS_LOOKUP_TABLE, LEDS_MATRIX_PIXEL_COUNT,
};
use application::time::Time;

const BLACK: Color = Color { r: 0, g: 0, b: 0 };
const BLUE: Color = Color { r: 0, g: 0, b: 255 };
const RED: Color = Color { r: 255, g: 0, b: 0 };
const GREEN: Color = Color { r: 0, g: 255, b: 0 };

/// The error sign as the strip takes it, LED by LED.
const ERROR_SIGN: [Color; 114] = [
    RED, RED, RED, RED,
    BLACK, BLACK, RED, RED, BLACK, BLACK, BLACK, RED, RED, BLACK, BLACK,
    BLACK, RED, RED, BLACK, BLACK, BLACK, BLACK, BLACK, RED, RED, BLACK,
    RED, RED, BLACK, RED, BLACK, BLACK, BLACK, RED, BLACK, RED, RED,
    RED, BLACK, BLACK, BLACK, RED, BLACK, RED, BLACK, BLACK, BLACK, RED,
    RED, BLACK, BLACK, BLACK, BLACK, RED, BLACK, BLACK, BLACK, BLACK, RED,
    RED, BLACK, BLACK, BLACK, RED, BLACK, RED, BLACK, BLACK, BLACK, RED,
    RED, RED, BLACK, RED, BLACK, BLACK, BLACK, RED, BLACK, RED, RED,
    BLACK, RED, RED, BLACK, BLACK, BLACK, BLACK, BLACK, RED, RED, BLACK,
    BLACK, BLACK, RED, RED, BLACK, BLACK, BLACK, RED, RED, BLACK, BLACK,
    BLACK, BLACK, BLACK, RED, RED, RED, RED, RED, BLACK, BLACK, BLACK,
];

/// The letters of the face, row by row.
const FACE: [&str; 10] = [
    "ES-ISCH-FUF", // es isch füf
    "VIERTU--ZAA", // viertu zää
    "ZWANZG--VOR", // zwänzg vor
    "AB-HAUBI---", // ab haubi
    "EISZWOI-DRU", // eis zwöi drü
    "VIERIFUFI--", // vieri füfi
    "SACHSISIBNI", // sächsi sibni
    "ACHTINUNI--", // achti nüni
    "ZANI---EUFI", // zäni eufi
    "ZWOUFI--UHR", // zwöufi uhr
];

/// Where on the strip the LED of a column and a row stands.
fn pixel(x: usize, y: usize) -> usize {
    let column = if y % 2 == 1 { 10 - x } else { x };
    11 * (9 - y) + column + 4
}

/// What a frame spells: the letters of the face whose LED is lit, row by
/// row, and the number of dots that are lit.
fn spelled(frame: &[Color]) -> (String, usize) {
    let mut text = String::new();
    for y in 0..10 {
        let row: Vec<char> = FACE[y].chars().collect();
        let mut word = String::new();
        for x in 0..11 {
            if frame[pixel(x, y)] != BLACK {
                word.push(row[x]);
            } else if !word.is_empty() {
                text.push_str(&word);
                text.push(' ');
                word.clear();
            }
        }
        if !word.is_empty() {
            text.push_str(&word);
            text.push(' ');
        }
    }
    let dots = frame[0..4].iter().filter(|led| **led != BLACK).count();
    (text.trim_end().to_string(), dots)
}

struct RecordingStrip {
    written: Rc<RefCell<Vec<Vec<Color>>>>,
    cleared: Rc<RefCell<u32>>,
    fail: bool,
}

impl RgbLedStrip for RecordingStrip {
    fn clear(&mut self) -> Result<(), HardwareError> {
        if self.fail {
            return Err(HardwareError::OperationFailed);
        }
        *self.cleared.borrow_mut() += 1;
        Ok(())
    }

    fn write(&mut self, pixels: &[Color]) -> Result<(), HardwareError> {
        if self.fail {
            return Err(HardwareError::OperationFailed);
        }
        self.written.borrow_mut().push(pixels.to_vec());
        Ok(())
    }
}

fn recording_display() -> (RgbLedStripMatrix<RecordingStrip>, Rc<RefCell<Vec<Vec<Color>>>>, Rc<RefCell<u32>>) {
    let written = Rc::new(RefCell::new(Vec::new()));
    let cleared = Rc::new(RefCell::new(0));
    let strip = RecordingStrip { written: written.clone(), cleared: cleared.clone(), fail: false };
    (RgbLedStripMatrix::new(strip).unwrap(), written, cleared)
}

#[test]
fn new_frame_is_dark() {
    let frame = new_frame();
    assert_eq!(frame.len(), LEDS_MATRIX_PIXEL_COUNT);
    assert_eq!(frame.len(), 114);
    assert!(frame.iter().all(|led| *led == BLACK));
}

#[test]
fn set_pixel_winds_through_the_rows() {
    let lit = |x: usize, y: usize| {
        let mut frame = new_frame();
        set_pixel(&mut frame, x, y, BLUE);
        let lit: Vec<usize> = (0..114).filter(|i| frame[*i] == BLUE).collect();
        assert_eq!(lit.len(), 1);
        lit[0]
    };
    // The last row comes first on the strip, behind the four dots, and runs
    // from right to left as every row with an odd number does.
    assert_eq!(lit(10, 9), 4);
    assert_eq!(lit(0, 9), 14);
    assert_eq!(lit(0, 8), 15);
    assert_eq!(lit(10, 8), 25);
    assert_eq!(lit(0, 0), 103);
    assert_eq!(lit(10, 0), 113);
    assert_eq!(lit(3, 4), 62);
    // A row beyond the face stands for the dots.
    assert_eq!(lit(0, 10), 0);
    assert_eq!(lit(3, 10), 3);
    for y in 0..10 {
        for x in 0..11 {
            assert_eq!(lit(x, y), pixel(x, y));
        }
    }
}

#[test]
fn set_pixel_from_lut_lights_a_word() {
    let mut frame = new_frame();
    set_pixel_from_lut(&mut frame, BARN_HOURS_LOOKUP_TABLE[1], GREEN);
    assert_eq!(spelled(&frame), (String::from("ZWOI"), 0));
    assert_eq!(frame.iter().filter(|led| **led == GREEN).count(), 4);

    let mut frame = new_frame();
    set_pixel_from_lut(&mut frame, [0, 0, 0], GREEN);
    assert!(frame.iter().all(|led| *led == BLACK));
}

#[test]
fn set_dots_lights_a_run() {
    let mut frame = new_frame();
    set_dots(&mut frame, 1, 2, RED);
    let lit: Vec<usize> = (0..114).filter(|i| frame[*i] == RED).collect();
    assert_eq!(lit, vec![1, 2]);
    set_dots(&mut frame, 110, 4, BLUE);
    let lit: Vec<usize> = (0..114).filter(|i| frame[*i] == BLUE).collect();
    assert_eq!(lit, vec![110, 111, 112, 113]);
    set_dots(&mut frame, 5, 0, BLUE);
    assert_eq!(frame.iter().filter(|led| **led != BLACK).count(), 6);
}

#[test]
fn frames_spell_the_time() {
    let spell = |hour: u8, minute: u8| {
        let frame = frame_of_time(Time { hour, minute, second: 0 }, BLUE);
        assert_eq!(frame.len(), 114);
        assert!(frame.iter().all(|led| *led == BLACK || *led == BLUE));
        spelled(&frame)
    };
    assert_eq!(spell(1, 0), (String::from("ES ISCH EIS UHR"), 0));
    assert_eq!(spell(13, 3), (String::from("ES ISCH EIS UHR"), 3));
    assert_eq!(spell(0, 0), (String::from("ES ISCH ZWOUFI UHR"), 0));
    assert_eq!(spell(12, 4), (String::from("ES ISCH ZWOUFI UHR"), 4));
    assert_eq!(spell(2, 5), (String::from("FUF AB ZWOI"), 0));
    assert_eq!(spell(2, 11), (String::from("ZAA AB ZWOI"), 1));
    assert_eq!(spell(3, 15), (String::from("VIERTU AB DRU"), 0));
    assert_eq!(spell(16, 24), (String::from("ZWANZG AB VIERI"), 4));
    assert_eq!(spell(16, 25), (String::from("FUF VOR HAUBI FUFI"), 0));
    assert_eq!(spell(5, 30), (String::from("HAUBI SACHSI"), 0));
    assert_eq!(spell(5, 34), (String::from("HAUBI SACHSI"), 4));
    assert_eq!(spell(6, 37), (String::from("FUF AB HAUBI SIBNI"), 2));
    assert_eq!(spell(7, 40), (String::from("ZWANZG VOR ACHTI"), 0));
    assert_eq!(spell(8, 45), (String::from("VIERTU VOR NUNI"), 0));
    assert_eq!(spell(9, 50), (String::from("ZAA VOR ZANI"), 0));
    assert_eq!(spell(10, 55), (String::from("FUF VOR EUFI"), 0));
    assert_eq!(spell(10, 59), (String::from("FUF VOR EUFI"), 4));
    assert_eq!(spell(23, 59), (String::from("FUF VOR ZWOUFI"), 4));
    assert_eq!(spell(11, 25), (String::from("FUF VOR HAUBI ZWOUFI"), 0));
    assert_eq!(spell(12, 30), (String::from("HAUBI EIS"), 0));
    assert_eq!(spell(23, 20), (String::from("ZWANZG AB EUFI"), 0));
}

#[test]
fn frame_of_every_time_lights_the_dots_of_its_minute() {
    for hour in 0..24u8 {
        for minute in 0..60u8 {
            let frame = frame_of_time(Time { hour, minute, second: 59 }, GREEN);
            let (text, dots) = spelled(&frame);
            assert_eq!(dots, (minute % 5) as usize);
            assert!(!text.is_empty());
            for dot in 0..4 {
                assert_eq!(frame[dot] == GREEN, dot < (minute % 5) as usize);
            }
        }
    }
}

#[test]
fn frame_of_the_error_sign() {
    assert_eq!(frame_of_error(), ERROR_SIGN.to_vec());
}

#[test]
fn frame_of_a_progress() {
    for progress in 0..=4u8 {
        let frame = frame_of_progress(progress, BLUE);
        for led in 0..114 {
            assert_eq!(frame[led] == BLUE, led < progress as usize);
            assert!(frame[led] == BLUE || frame[led] == BLACK);
        }
    }
}

#[test]
fn display_hands_its_frames_to_the_strip() {
    let (mut display, written, cleared) = recording_display();
    assert_eq!(*cleared.borrow(), 1);

    assert_eq!(display.draw_time(Time { hour: 5, minute: 32, second: 0 }), Ok(()));
    assert_eq!(written.borrow().len(), 1);
    assert_eq!(written.borrow()[0], frame_of_time(Time { hour: 5, minute: 32, second: 0 }, BLUE));

    display.set_default_color(GREEN);
    assert_eq!(display.draw_time(Time { hour: 5, minute: 32, second: 0 }), Ok(()));
    assert_eq!(written.borrow()[1], frame_of_time(Time { hour: 5, minute: 32, second: 0 }, GREEN));

    assert_eq!(display.draw_progress(3), Ok(()));
    assert_eq!(written.borrow()[2], frame_of_progress(3, GREEN));

    assert_eq!(display.draw_error(), Ok(()));
    assert_eq!(written.borrow()[3], ERROR_SIGN.to_vec());

    assert_eq!(display.clear(), Ok(()));
    assert_eq!(*cleared.borrow(), 2);
    assert_eq!(written.borrow().len(), 4);
}

#[test]
fn display_refuses_what_it_cannot_show() {
    let (mut display, written, _) = recording_display();
    assert_eq!(display.draw_progress(5), Err(HardwareError::InvalidArgument));
    assert_eq!(display.draw_progress(255), Err(HardwareError::InvalidArgument));
    assert_eq!(
        display.draw_time(Time { hour: 24, minute: 0, second: 0 }),
        Err(HardwareError::InvalidArgument)
    );
    assert_eq!(
        display.draw_time(Time { hour: 0, minute: 200, second: 0 }),
        Err(HardwareError::InvalidArgument)
    );
    assert_eq!(
        display.draw_time(Time { hour: 0, minute: 0, second: 60 }),
        Err(HardwareError::InvalidArgument)
    );
    assert!(written.borrow().is_empty());
}

#[test]
fn display_hands_on_the_error_of_the_strip() {
    let strip = RecordingStrip {
        written: Rc::new(RefCell::new(Vec::new())),
        cleared: Rc::new(RefCell::new(0)),
        fail: true,
    };
    assert!(RgbLedStripMatrix::new(strip).is_err());
}

#[test]
fn colour_word_of_a_ws2812() {
    assert_eq!(rgb_to_u32(0, 0, 0), 0);
    assert_eq!(rgb_to_u32(0x12, 0x34, 0x56), 0x561234);
    assert_eq!(rgb_to_u32(255, 0, 0), 0x00ff00);
    assert_eq!(rgb_to_u32(0, 255, 0), 0x0000ff);
    assert_eq!(rgb_to_u32(0, 0, 255), 0xff0000);
    assert_eq!(rgb_to_u32(255, 255, 255), 0xffffff);
}

#[test]
fn serial_frame_of_a_ws2812() {
    assert_eq!(frame_signal(&[], 0), Ok(vec![]));
    let signal = frame_signal(&[Color { r: 0x80, g: 0x01, b: 0xff }], 1).unwrap();
    let mut expected = vec![false; 24];
    expected[0] = true; // green, least significant bit first
    expected[15] = true; // red, most significant bit last
    for bit in 16..24 {
        expected[bit] = true;
    }
    assert_eq!(signal, expected);

    let signal = frame_signal(&[BLACK, BLUE, BLACK], 114).unwrap();
    assert_eq!(signal.len(), 72);
    for bit in 0..72 {
        assert_eq!(signal[bit], (40..48).contains(&bit));
    }
    assert_eq!(frame_signal(&[BLACK, BLUE], 1), Err(HardwareError::InvalidArgument));
    assert_eq!(frame_signal(&[BLACK, BLUE], 2).map(|signal| signal.len()), Ok(48));
}
