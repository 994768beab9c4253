/* SPDX-License-Identifier: MIT
 * Copyright (c) 2023 Louis Mayencourt
 */

//! The registers of a DS3231 real-time clock: the time of day in packed
//! binary-coded decimal, with the hours in 24 hour or in 12 hour form.

use vstd::prelude::*;
use crate::time::{fields_in_range, Time, TimeError};

verus! {

/// Hardcoded I2C address of the DS3231 chip, according to the datasheet.
pub const DS3231_RTC_ADDRESS: u8 = 0x68;

/// DS3231 register addresses.
pub const DS3231_RTC_SECONDES_REG: u8 = 0x00;

pub const DS3231_RTC_MINUTES_REG: u8 = 0x01;

pub const DS3231_RTC_HOURS_REG: u8 = 0x02;

/// DS3231 register bitfields.
pub const DS3231_HOUR_H24_H12: u8 = 0b0100_0000;

pub const DS3231_HOUR_AM_PM: u8 = 0b0010_0000;

/// The number that a byte writes in packed binary-coded decimal: sixteen
/// times the tens plus the units.
pub open spec fn bcd_value(bcd: u8) -> int {
    (bcd as int / 16) * 10 + bcd as int % 16
}

/// The hour that the hours register writes. In 24 hour form the register
/// holds the hour below its form bit; in 12 hour form it holds the hour of
/// the half day below its half-day bit, to which an afternoon adds twelve.
pub open spec fn register_hours(data: u8) -> int {
    if data & DS3231_HOUR_H24_H12 == 0 {
        bcd_value(data & !DS3231_HOUR_H24_H12)
    } else if data & DS3231_HOUR_AM_PM == 0 {
        bcd_value(data & !(DS3231_HOUR_H24_H12 | DS3231_HOUR_AM_PM))
    } else {
        bcd_value(data & !(DS3231_HOUR_H24_H12 | DS3231_HOUR_AM_PM)) + 12
    }
}

/// Convert a decimal number to packed BCD format.
pub fn decimal_to_packed_bcd(dec: u8) -> (bcd: u8)
    ensures
        dec < 100 ==> bcd as int == (dec as int / 10) * 16 + dec as int % 10,
        dec < 100 ==> bcd_value(bcd) == dec,
{
    let tens: u8 = dec / 10;
    let units: u8 = dec % 10;
    let bcd: u8 = (tens << 4) | units;
    proof {
        assert(tens < 16 && units < 16 ==> ((tens << 4) | units) / 16 == tens && ((tens << 4)
            | units) % 16 == units) by (bit_vector);
    }
    bcd
}

/// Convert a packed BCD encoded value into a decimal number.
pub fn packed_bcd_to_decimal(bcd: u8) -> (dec: u8)
    ensures
        dec == bcd_value(bcd),
{
    let tens: u8 = bcd >> 4;
    let units: u8 = bcd & 0xF;
    proof {
        assert(bcd >> 4 == bcd / 16 && bcd & 0xF == bcd % 16) by (bit_vector);
    }
    tens * 10 + units
}

/// Return true if DS3231 returned hour is in 24h format.
pub fn is_24h_format(data: u8) -> (h24: bool)
    ensures
        h24 == (data & DS3231_HOUR_H24_H12 == 0),
{
    data & DS3231_HOUR_H24_H12 == 0
}

/// Return true if DS3231 returned hour is AM format.
pub fn is_am(data: u8) -> (am: bool)
    ensures
        am == (data & DS3231_HOUR_AM_PM == 0),
{
    data & DS3231_HOUR_AM_PM == 0
}

/// Convert a DS3231 hour register format to an hour of the day.
pub fn hours_from_register(data: u8) -> (hours: u8)
    ensures
        hours == register_hours(data),
{
    if is_24h_format(data) {
        packed_bcd_to_decimal(data & !DS3231_HOUR_H24_H12)
    } else if is_am(data) {
        packed_bcd_to_decimal(data & !(DS3231_HOUR_H24_H12 | DS3231_HOUR_AM_PM))
    } else {
        let half_day: u8 = data & !(DS3231_HOUR_H24_H12 | DS3231_HOUR_AM_PM);
        proof {
            assert(data & !(0b0100_0000u8 | 0b0010_0000u8) <= 0x9F) by (bit_vector);
        }
        packed_bcd_to_decimal(half_day) + 12
    }
}

/// The time of day that the three time registers write.
///
/// # Errors
/// `TimeError::OutOfRange` if what they write is no time of day.
pub fn time_from_registers(second: u8, minute: u8, hour: u8) -> (r: Result<Time, TimeError>)
    ensures
        fields_in_range(register_hours(hour), bcd_value(minute), bcd_value(second)) ==> r == Ok::<
            Time,
            TimeError,
        >(
            Time {
                hour: register_hours(hour) as u8,
                minute: bcd_value(minute) as u8,
                second: bcd_value(second) as u8,
            },
        ),
        !fields_in_range(register_hours(hour), bcd_value(minute), bcd_value(second)) ==> r == Err::<
            Time,
            TimeError,
        >(TimeError::OutOfRange),
{
    let second: u8 = packed_bcd_to_decimal(second);
    let minute: u8 = packed_bcd_to_decimal(minute);
    let hour: u8 = hours_from_register(hour);
    Time::new(hour, minute, second)
}

/// What is written to the clock to set a time: each register with its
/// value, in the order seconds, minutes, hours. The hours are written in 24
/// hour form.
pub fn registers_for_time(time: Time) -> (writes: [(u8, u8); 3])
    ensures
        writes[0].0 == DS3231_RTC_SECONDES_REG,
        writes[1].0 == DS3231_RTC_MINUTES_REG,
        writes[2].0 == DS3231_RTC_HOURS_REG,
        time.is_valid() ==> bcd_value(writes[0].1) == time.second && bcd_value(writes[1].1)
            == time.minute && register_hours(writes[2].1) == time.hour,
{
    let second: u8 = decimal_to_packed_bcd(time.second);
    let minute: u8 = decimal_to_packed_bcd(time.minute);
    let hour: u8 = decimal_to_packed_bcd(time.hour);
    proof {
        if time.is_valid() {
            lemma_hours_in_24h_form(time.hour);
        }
    }
    [
        (DS3231_RTC_SECONDES_REG, second),
        (DS3231_RTC_MINUTES_REG, minute),
        (DS3231_RTC_HOURS_REG, hour),
    ]
}

/// An hour of the day in packed BCD reads back, as an hours register, as
/// that hour in 24 hour form.
pub proof fn lemma_hours_in_24h_form(hour: u8)
    requires
        hour <= 23,
    ensures
        register_hours(((hour / 10) * 16 + hour % 10) as u8) == hour,
{
    let tens: u8 = hour / 10;
    let units: u8 = hour % 10;
    let bcd: u8 = (tens * 16 + units) as u8;
    assert(bcd <= 0x23);
    assert(bcd <= 0x23 ==> bcd & 0b0100_0000u8 == 0 && bcd & !0b0100_0000u8 == bcd) by (bit_vector);
}

/// Writing a number below one hundred in packed BCD and reading it back
/// gives the number.
pub proof fn lemma_bcd_round_trip(dec: u8)
    requires
        dec < 100,
    ensures
        bcd_value(((dec / 10) * 16 + dec % 10) as u8) == dec,
{
}

} // verus!
