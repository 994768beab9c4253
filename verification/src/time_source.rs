/* SPDX-License-Identifier: MIT
 * Copyright (c) 2023 Louis Mayencourt
 */

//! The capability that tells the local time of day.

use vstd::prelude::*;
use crate::time::Time;

verus! {

/// Why a time source could not answer.
#[derive(Debug, PartialEq, Eq, Structural, Clone, Copy)]
pub enum TimeSourceError {
    /// The source was never synchronized, or not recently enough.
    NotSynchronized,
    /// The source tried to synchronize and failed.
    SynchronizationError,
    /// The source is absent.
    NotAvailable,
}

/// Interface to get local time from a time source.
///
/// # Errors
/// The functions will return an error if the hardware fails to carry the
/// operation.
pub trait TimeSource {
    /// Bring the source up to date.
    fn synchronize(&mut self) -> Result<(), TimeSourceError>;

    /// The time of day that the source holds.
    fn get_time(&self) -> Result<Time, TimeSourceError>;

    /// Set the source to the given time of day.
    fn set_time(&mut self, now: Time) -> Result<(), TimeSourceError>;
}

} // verus!
