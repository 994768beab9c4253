/* SPDX-License-Identifier: MIT
 * Copyright (c) 2023 Louis Mayencourt
 */

//! The display capability that the orchestrator draws on.

use vstd::prelude::*;
use crate::color::Color;
use crate::hardware::HardwareError;
use crate::time::Time;

verus! {

/// Highest level that a progress bar can show.
pub const PROGRESS_LEVELS: u8 = 4;

/// Interface to draw various things on a display.
///
/// # Errors
/// The functions will return an error if the hardware fails to carry the
/// operation.
pub trait Display {
    /// Turn off all the pixels of display.
    fn clear(&mut self) -> Result<(), HardwareError>;

    /// Draw the given time on the display.
    fn draw_time(&mut self, time: Time) -> Result<(), HardwareError>;

    /// Draw an error sign on the display.
    fn draw_error(&mut self) -> Result<(), HardwareError>;

    /// Draw a progress bar, with 4 levels.
    ///
    /// # Errors
    /// Fails early if progress higher than 4 is provided.
    fn draw_progress(&mut self, progress: u8) -> Result<(), HardwareError>;

    /// Set the default color to be used to draw on the display.
    fn set_default_color(&mut self, color: Color);
}

} // verus!
