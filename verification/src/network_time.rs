/* SPDX-License-Identifier: MIT
 * Copyright (c) 2023 Louis Mayencourt
 */

//! The rules of the network time source: how long it waits for the time
//! service, and when it takes the clock for set.

use vstd::prelude::*;
use crate::time::{Time, TimeError};
use crate::time_source::TimeSourceError;

verus! {

/// How many times the state of the time service is asked for again before
/// the wait is given up.
pub const GET_TIME_RETRY_COUNT: u32 = 15;

/// How long to idle between two looks at the time service, in seconds.
pub const GET_TIME_INTERVAL: u64 = 2;

/// The first second of 2023: a clock that reads less was not set by the
/// time service.
pub const EPOCH_01_01_2023: i64 = 1672531200;

/// What to do after a look at the time service.
#[derive(Debug, PartialEq, Eq, Structural, Clone, Copy)]
pub enum WaitStep {
    /// The service has set the clock: go on.
    Done,
    /// Idle for `GET_TIME_INTERVAL` seconds and look again, with that many
    /// retries left.
    Retry(u32),
    /// The retries are used up: give up.
    TimedOut,
}

/// What to do after a look at the time service: see `WaitStep`.
pub fn wait_step(completed: bool, retries_before_timeout: u32) -> (step: WaitStep)
    ensures
        step == (if completed {
            WaitStep::Done
        } else if retries_before_timeout > 0 {
            WaitStep::Retry((retries_before_timeout - 1) as u32)
        } else {
            WaitStep::TimedOut
        }),
{
    if completed {
        WaitStep::Done
    } else if retries_before_timeout > 0 {
        WaitStep::Retry(retries_before_timeout - 1)
    } else {
        WaitStep::TimedOut
    }
}

/// The state of the network time source.
pub struct NetworkTime {
    is_synchronized: bool,
}

impl NetworkTime {
    /// Whether the source has been synchronized.
    pub closed spec fn synchronized(&self) -> bool {
        self.is_synchronized
    }

    /// A source that is not synchronized yet.
    pub fn new() -> (source: Self)
        ensures
            !source.synchronized(),
    {
        Self { is_synchronized: false }
    }

    /// Take note of an attempt to synchronize: `initialized` tells whether the
    /// time service answered in time, `epoch_time` what the clock reads
    /// afterwards, in seconds since 1970. The source counts as synchronized
    /// once the service has answered and the clock reads 2023 or later; an
    /// attempt that fails leaves it as it was.
    ///
    /// # Errors
    /// `SynchronizationError` for an attempt that failed.
    pub fn note_synchronization(&mut self, initialized: bool, epoch_time: i64) -> (r: Result<
        (),
        TimeSourceError,
    >)
        ensures
            initialized && epoch_time >= EPOCH_01_01_2023 ==> r is Ok && final(self).synchronized(),
            !(initialized && epoch_time >= EPOCH_01_01_2023) ==> r == Err::<(), TimeSourceError>(
                TimeSourceError::SynchronizationError,
            ) && final(self).synchronized() == old(self).synchronized(),
    {
        if !initialized {
            return Err(TimeSourceError::SynchronizationError);
        }
        if epoch_time < EPOCH_01_01_2023 {
            return Err(TimeSourceError::SynchronizationError);
        }
        self.is_synchronized = true;
        Ok(())
    }

    /// The local time that was read from the clock, as long as the source is
    /// synchronized.
    ///
    /// # Errors
    /// `NotSynchronized` while it is not, and `SynchronizationError` if it
    /// is but what the clock gave is no time of day.
    pub fn checked_time(&self, now: Result<Time, TimeError>) -> (r: Result<Time, TimeSourceError>)
        ensures
            r == (if !self.synchronized() {
                Err::<Time, TimeSourceError>(TimeSourceError::NotSynchronized)
            } else {
                match now {
                    Ok(time) => Ok::<Time, TimeSourceError>(time),
                    Err(_) => Err::<Time, TimeSourceError>(TimeSourceError::SynchronizationError),
                }
            }),
    {
        if self.is_synchronized == false {
            return Err(TimeSourceError::NotSynchronized);
        }
        match now {
            Ok(time) => Ok(time),
            Err(_) => Err(TimeSourceError::SynchronizationError),
        }
    }
}

} // verus!
