/* SPDX-License-Identifier: MIT
 * Copyright (c) 2023 Louis Mayencourt
 */

//! The capability that restarts the board and lets it idle.

use vstd::prelude::*;

verus! {

/// Interface to interact with board power mode.
pub trait PowerManager {
    /// Restart the system.
    fn reset(&self);

    /// Let the board idle for the given number of milliseconds.
    fn sleep(&self, milliseconds: u64);
}

} // verus!
