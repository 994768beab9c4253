/* SPDX-License-Identifier: MIT
 * Copyright (c) 2023 Louis Mayencourt
 */

//! The rules of the host loop that drives the orchestrator, one round every
//! 100 milliseconds: the heartbeat of the board LED, what a push of the button
//! means, and how often the time on display is refreshed.

use vstd::prelude::*;
use crate::behaviour::{Event, State};

verus! {

/// How long a round of the host loop lasts, in milliseconds.
pub const MAIN_LOOP_PERIOD: u32 = 100;

/// The shortest push of the button that counts as a long one, in
/// milliseconds.
pub const LONG_PUSH_DURATION: u32 = 2000;

/// After how many rounds in the time display a tick is published.
pub const TICK_PERIOD: u32 = 10;

/// What to do with the board LED.
#[derive(Debug, PartialEq, Eq, Structural, Clone, Copy)]
pub enum LedAction {
    /// Leave the LED as it is.
    Keep,
    /// Drive the pin low.
    SetLow,
    /// Drive the pin high.
    SetHigh,
}

/// Generate a regular visual signal of the system health.
///
/// The pin of the board LED is driven low at the start of a cycle and high
/// nine rounds later; a cycle has eleven rounds.
pub struct HearthBeat {
    tick_counter: u32,
}

/// What the heartbeat does with the LED in the round with the given count.
pub open spec fn led_action_at(tick_counter: u32) -> LedAction {
    if tick_counter == 0 {
        LedAction::SetLow
    } else if tick_counter == 9 {
        LedAction::SetHigh
    } else {
        LedAction::Keep
    }
}

/// The count of the round that follows the one with the given count.
pub open spec fn next_tick(tick_counter: u32) -> u32 {
    if tick_counter >= 10 {
        0
    } else {
        (tick_counter + 1) as u32
    }
}

impl HearthBeat {
    /// The count of the round within the cycle.
    pub closed spec fn ticks(&self) -> u32 {
        self.tick_counter
    }

    /// A heartbeat at the start of its cycle.
    pub fn new() -> (heart_beat: Self)
        ensures
            heart_beat.ticks() == 0,
    {
        Self { tick_counter: 0 }
    }

    /// Must be called every 100ms: tells what to do with the LED in this
    /// round, and counts the round.
    pub fn run(&mut self) -> (action: LedAction)
        ensures
            action == led_action_at(old(self).ticks()),
            final(self).ticks() == next_tick(old(self).ticks()),
    {
        let action = match self.tick_counter {
            0 => LedAction::SetLow,
            9 => LedAction::SetHigh,
            _ => LedAction::Keep,
        };
        if self.tick_counter >= 10 {
            self.tick_counter = 0;
        } else {
            self.tick_counter += 1;
        }
        action
    }
}

/// The event that a push of the button means: a short push below two
/// seconds, a long push from there on.
pub fn push_event(push_duration: u32) -> (event: Event)
    ensures
        event == (if push_duration < LONG_PUSH_DURATION {
            Event::EnterShortPush
        } else {
            Event::EnterLongPush
        }),
{
    if push_duration < LONG_PUSH_DURATION {
        Event::EnterShortPush
    } else {
        Event::EnterLongPush
    }
}

/// The duration of a push after one more round with the button down. The
/// count stops at the largest number it can hold.
pub fn push_held(push_duration: u32) -> (longer: u32)
    ensures
        longer == (if push_duration + MAIN_LOOP_PERIOD <= u32::MAX {
            (push_duration + MAIN_LOOP_PERIOD) as u32
        } else {
            u32::MAX
        }),
{
    push_duration.saturating_add(MAIN_LOOP_PERIOD)
}

/// Whether a tick is due in this round, and the count of rounds since the
/// last tick afterwards. Rounds count only while the time is on display; a
/// tick is due in the round that follows ten counted ones.
pub fn tick_due(state: State, tick_counter: u32) -> (r: (bool, u32))
    ensures
        state != State::DisplayTime ==> r == (false, tick_counter),
        state == State::DisplayTime && tick_counter >= TICK_PERIOD ==> r == (true, 0u32),
        state == State::DisplayTime && tick_counter < TICK_PERIOD ==> r == (
            false,
            (tick_counter + 1) as u32,
        ),
{
    if state == State::DisplayTime {
        if tick_counter >= TICK_PERIOD {
            (true, 0)
        } else {
            (false, tick_counter + 1)
        }
    } else {
        (false, tick_counter)
    }
}

/// The heartbeat runs in cycles of eleven rounds: after eleven rounds it is
/// where it was, as long as its count was within the cycle.
pub proof fn lemma_heartbeat_cycle(tick_counter: u32)
    requires
        tick_counter <= 10,
    ensures
        next_tick(
            next_tick(
                next_tick(
                    next_tick(
                        next_tick(
                            next_tick(
                                next_tick(next_tick(next_tick(next_tick(next_tick(tick_counter))))),
                            ),
                        ),
                    ),
                ),
            ),
        ) == tick_counter,
{
}

} // verus!
