/* SPDX-License-Identifier: MIT
 * Copyright (c) 2023 Louis Mayencourt
 */

//! The strip of RGB LEDs behind the display, and the serial frame that a
//! WS2812 controller takes: 24 bits for each LED.

use vstd::prelude::*;
use crate::color::Color;
use crate::hardware::HardwareError;

verus! {

/// A WS2812 takes a frame of 24 bits (8 bits per color).
pub const RGB_FRAME_BIT_LENGTH: u32 = 24;

/// Interface to command a RGB LED strip, composed of multiple LEDs.
///
/// # Errors
/// The functions will return an error if the hardware fails to carry the
/// operation.
pub trait RgbLedStrip {
    /// Turn all the LEDs off.
    fn clear(&mut self) -> Result<(), HardwareError>;

    /// Set the LEDs according the the provided `pixels` input.
    fn write(&mut self, pixels: &[Color]) -> Result<(), HardwareError>;
}

/// The word that a WS2812 takes for a colour: blue in bits 16 to 23, red in
/// bits 8 to 15, green in bits 0 to 7.
pub open spec fn color_word(r: u8, g: u8, b: u8) -> u32 {
    (b as u32) << 16 | (r as u32) << 8 | (g as u32)
}

/// Bit `i` of a word, counted from the least significant.
pub open spec fn word_bit(word: u32, i: u32) -> bool {
    (word >> i) & 1 == 1
}

/// The bits that are sent for one LED: the 24 bits of its colour word, least
/// significant first.
pub open spec fn pixel_bits(color: Color) -> Seq<bool> {
    Seq::new(24, |i: int| word_bit(color_word(color.r, color.g, color.b), i as u32))
}

/// The bits that are sent for a run of LEDs: those of each LED in turn.
pub open spec fn frame_bits(pixels: Seq<Color>) -> Seq<bool>
    decreases pixels.len(),
{
    if pixels.len() == 0 {
        Seq::empty()
    } else {
        frame_bits(pixels.drop_last()) + pixel_bits(pixels.last())
    }
}

/// The word that a WS2812 takes for a colour: see `color_word`.
pub fn rgb_to_u32(r: u8, g: u8, b: u8) -> (word: u32)
    ensures
        word == color_word(r, g, b),
        (word >> 16) & 0xff == b,
        (word >> 8) & 0xff == r,
        word & 0xff == g,
        word >> 24 == 0,
{
    let word: u32 = (b as u32) << 16 | (r as u32) << 8 | g as u32;
    proof {
        let r32 = r as u32;
        let g32 = g as u32;
        let b32 = b as u32;
        assert(r32 < 256 && g32 < 256 && b32 < 256 ==> {
            let w = b32 << 16 | r32 << 8 | g32;
            (w >> 16) & 0xff == b32 && (w >> 8) & 0xff == r32 && w & 0xff == g32 && w >> 24 == 0
        }) by (bit_vector);
    }
    word
}

/// The serial frame for a run of LEDs, one `bool` for each bit: `true` for a
/// one. See `frame_bits`.
///
/// # Errors
/// `HardwareError::InvalidArgument` if there are more pixels than the strip
/// has LEDs.
pub fn frame_signal(pixels: &[Color], led_count: u32) -> (signal: Result<Vec<bool>, HardwareError>)
    ensures
        pixels@.len() > led_count ==> signal == Err::<Vec<bool>, HardwareError>(
            HardwareError::InvalidArgument,
        ),
        pixels@.len() <= led_count ==> signal is Ok && signal->Ok_0@ == frame_bits(pixels@),
{
    if pixels.len() > led_count as usize {
        return Err(HardwareError::InvalidArgument);
    }
    let mut signal: Vec<bool> = Vec::new();
    let mut p: usize = 0;
    proof {
        assert(pixels@.subrange(0, 0).len() == 0);
    }
    while p < pixels.len()
        invariant
            p <= pixels@.len(),
            signal@ == frame_bits(pixels@.subrange(0, p as int)),
        decreases pixels@.len() - p,
    {
        let pixel = pixels[p];
        let color: u32 = rgb_to_u32(pixel.r, pixel.g, pixel.b);
        let ghost before = signal@;
        let mut i: u32 = 0;
        while i < RGB_FRAME_BIT_LENGTH
            invariant
                i <= 24,
                color == color_word(pixel.r, pixel.g, pixel.b),
                signal@ == before + pixel_bits(pixel).subrange(0, i as int),
            decreases 24 - i,
        {
            let bit = (color >> i) & 1 == 1;
            signal.push(bit);
            i = i + 1;
            proof {
                assert(pixel_bits(pixel).subrange(0, i as int) == pixel_bits(pixel).subrange(
                    0,
                    i - 1,
                ).push(pixel_bits(pixel)[i - 1]));
            }
        }
        p = p + 1;
        proof {
            assert(pixel_bits(pixel).subrange(0, 24) == pixel_bits(pixel));
            let longer = pixels@.subrange(0, p as int);
            assert(longer.drop_last() == pixels@.subrange(0, p - 1));
            assert(longer.last() == pixel);
        }
    }
    proof {
        assert(pixels@.subrange(0, pixels@.len() as int) == pixels@);
    }
    Ok(signal)
}

/// A frame has 24 bits for each LED.
pub proof fn lemma_frame_bits_length(pixels: Seq<Color>)
    ensures
        frame_bits(pixels).len() == 24 * pixels.len(),
    decreases pixels.len(),
{
    if pixels.len() > 0 {
        lemma_frame_bits_length(pixels.drop_last());
    }
}

} // verus!
