/* SPDX-License-Identifier: MIT
 * Copyright (c) 2023 Louis Mayencourt
 */

//! The monotonic clock against which the age of a synchronization is measured.

use vstd::prelude::*;

verus! {

/// A clock that never goes back.
pub trait TimeMonotonic {
    /// Milliseconds elapsed since an origin that the clock fixes once.
    fn now(&self) -> u64;
}

} // verus!
