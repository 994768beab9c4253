/* SPDX-License-Identifier: MIT
 * Copyright (c) 2023 Louis Mayencourt
 */

use application::color::{Color, ColorError};

#[test]
fn from_valid_rgb_hex_string() {
    let color = Color::from_rgb_hex_string("000000").unwrap();
    assert_eq!(color, Color { r: 00, g: 00, b: 00 });

    let color = Color::from_rgb_hex_string("AABBCC").unwrap();
    assert_eq!(color, Color { r: 170, g: 187, b: 204 });

    let color = Color::from_rgb_hex_string("00FF00").unwrap();
    assert_eq!(color, Color { r: 00, g: 255, b: 00 });
}

#[test]
fn from_invalid_rgb_hex_string() {
    // empty string
    let color = Color::from_rgb_hex_string("");
    assert!(color.is_err());

    // to short entry
    let color = Color::from_rgb_hex_string("00");
    assert!(color.is_err());

    // invalid char
    let color = Color::from_rgb_hex_string("AAQQCC");
    assert!(color.is_err());

    // to big entry
    let color = Color::from_rgb_hex_string("00112233");
    assert!(color.is_err());
}

#[test]
fn color_to_string() {
    let color = Color::new(170, 187, 204);
    assert_eq!("AABBCC", color.to_string());
}

#[test]
fn color_is_black() {
    let color = Color::new(0, 0, 0);
    assert!(color.is_black());
}

#[test]
fn color_is_not_black_with_one_channel_set() {
    assert!(!Color::new(1, 0, 0).is_black());
    assert!(!Color::new(0, 1, 0).is_black());
    assert!(!Color::new(0, 0, 1).is_black());
}

#[test]
fn color_default_is_blue() {
    assert_eq!(Color::default(), Color { r: 0, g: 0, b: 255 });
}

#[test]
fn color_hex_boundaries() {
    assert_eq!(Color::from_rgb_hex_string("12345"), Err(ColorError::InvalidFormat));
    assert_eq!(Color::from_rgb_hex_string("1234567"), Err(ColorError::InvalidFormat));
    assert_eq!(Color::from_rgb_hex_string("12345g"), Err(ColorError::InvalidFormat));
    assert_eq!(Color::from_rgb_hex_string("#12345"), Err(ColorError::InvalidFormat));
    assert_eq!(Color::from_rgb_hex_string("12 456"), Err(ColorError::InvalidFormat));
    assert_eq!(Color::from_rgb_hex_string("é23456"), Err(ColorError::InvalidFormat));
    assert_eq!(Color::from_rgb_hex_string("abcdef"), Ok(Color { r: 0xab, g: 0xcd, b: 0xef }));
    assert_eq!(Color::from_rgb_hex_string("ABCDEF"), Ok(Color { r: 0xab, g: 0xcd, b: 0xef }));
    assert_eq!(Color::from_rgb_hex_string("09AFaf"), Ok(Color { r: 0x09, g: 0xaf, b: 0xaf }));
    assert_eq!(Color::from_rgb_hex_string("ffffff"), Ok(Color { r: 255, g: 255, b: 255 }));
}

#[test]
fn color_round_trip() {
    for r in [0u8, 1, 9, 10, 15, 16, 127, 128, 200, 254, 255] {
        for g in [0u8, 7, 16, 99, 171, 255] {
            for b in 0..=255u8 {
                let color = Color::new(r, g, b);
                let text = color.to_string();
                assert_eq!(text.len(), 6);
                assert_eq!(Color::from_rgb_hex_string(&text), Ok(color));
            }
        }
    }
}

#[test]
fn color_from_hex_chars_reads_a_span() {
    let chars: Vec<char> = "#00ff00;".chars().collect();
    assert_eq!(Color::from_hex_chars(&chars, 1, 7), Ok(Color { r: 0, g: 255, b: 0 }));
    assert_eq!(Color::from_hex_chars(&chars, 0, 6), Err(ColorError::InvalidFormat));
    assert_eq!(Color::from_hex_chars(&chars, 1, 6), Err(ColorError::InvalidFormat));
}
