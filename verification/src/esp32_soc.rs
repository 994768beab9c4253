/* SPDX-License-Identifier: MIT
 * Copyright (c) 2023 Louis Mayencourt
 */

//! The time of day out of the fields of a broken-down calendar time, as the
//! board's C library gives it.

use vstd::prelude::*;
use crate::time::{fields_in_range, Time, TimeError};

verus! {

/// The time of day of a calendar time, from its fields for the hour, the
/// minute and the second.
///
/// # Errors
/// `TimeError::OutOfRange` if a field is outside its bounds, as the second
/// of a leap second is.
pub fn time_from_calendar(tm_hour: i32, tm_min: i32, tm_sec: i32) -> (r: Result<Time, TimeError>)
    ensures
        fields_in_range(tm_hour as int, tm_min as int, tm_sec as int) ==> r == Ok::<
            Time,
            TimeError,
        >(Time { hour: tm_hour as u8, minute: tm_min as u8, second: tm_sec as u8 }),
        !fields_in_range(tm_hour as int, tm_min as int, tm_sec as int) ==> r == Err::<
            Time,
            TimeError,
        >(TimeError::OutOfRange),
{
    if tm_hour < 0 || tm_hour > 23 || tm_min < 0 || tm_min > 59 || tm_sec < 0 || tm_sec > 59 {
        return Err(TimeError::OutOfRange);
    }
    Time::new(tm_hour as u8, tm_min as u8, tm_sec as u8)
}

} // verus!
