/* SPDX-License-Identifier: MIT
 * Copyright (c) 2023 Louis Mayencourt
 */

//! The device's behavioural state machine: a total transition function from the
//! current state and an incoming event to the next state.

use vstd::prelude::*;

verus! {

/// Possible state of the device.
#[derive(Debug, PartialEq, Eq, Structural, Clone, Copy)]
pub enum State {
    Initial,
    Startup,
    DisplayTime,
    Configuration,
    MenuFota,
    MenuCleanConfig,
    MenuExit,
    Fota,
    CleanConfig,
    NightMode,
    Error,
}

/// Possible event that may trigger a state transition of the device.
#[derive(Debug, PartialEq, Eq, Structural, Clone, Copy)]
pub enum Event {
    Init,
    Start,
    InvalidConfiguration,
    ValidConfiguration,
    Tick,
    EnterShortPush,
    EnterLongPush,
    Night,
    Day,
    Error,
}

/// The transition table. Every pair that the table does not list leads to
/// `State::Error`.
pub open spec fn next_state(state: State, event: Event) -> State {
    match (state, event) {
        (State::Initial, Event::Init) => State::Startup,
        (State::Startup, Event::InvalidConfiguration) => State::Configuration,
        (State::Startup, Event::Start) => State::DisplayTime,
        (State::Configuration, Event::ValidConfiguration) => State::Startup,
        (State::Configuration, Event::Tick) => State::Configuration,
        (State::DisplayTime, Event::Tick) => State::DisplayTime,
        (State::DisplayTime, Event::EnterShortPush) => State::MenuFota,
        (State::DisplayTime, Event::EnterLongPush) => State::MenuFota,
        (State::DisplayTime, Event::Night) => State::NightMode,
        (State::MenuFota, Event::EnterShortPush) => State::MenuCleanConfig,
        (State::MenuFota, Event::EnterLongPush) => State::Fota,
        (State::MenuFota, _) => State::MenuFota,
        (State::MenuCleanConfig, Event::EnterShortPush) => State::MenuExit,
        (State::MenuCleanConfig, Event::EnterLongPush) => State::CleanConfig,
        (State::MenuCleanConfig, _) => State::MenuCleanConfig,
        (State::MenuExit, Event::EnterShortPush) => State::MenuFota,
        (State::MenuExit, Event::EnterLongPush) => State::DisplayTime,
        (State::Fota, _) => State::Fota,
        (State::CleanConfig, Event::InvalidConfiguration) => State::Startup,
        (State::NightMode, Event::Day) => State::DisplayTime,
        (_, _) => State::Error,
    }
}

/// Device state-machine implementation.
pub struct Behaviour {
    state: State,
}

impl Behaviour {
    /// The state the machine is in.
    pub closed spec fn state(&self) -> State {
        self.state
    }

    /// A machine in its `Initial` state.
    pub fn new() -> (machine: Self)
        ensures
            machine.state() == State::Initial,
    {
        Self { state: State::Initial }
    }

    /// React to a given event.
    pub fn handle_event(&mut self, event: Event)
        ensures
            final(self).state() == next_state(old(self).state(), event),
    {
        match (self.state, event) {
            (State::Initial, Event::Init) => self.state = State::Startup,
            (State::Startup, Event::InvalidConfiguration) => self.state = State::Configuration,
            (State::Startup, Event::Start) => self.state = State::DisplayTime,
            (State::Configuration, Event::ValidConfiguration) => self.state = State::Startup,
            (State::Configuration, Event::Tick) => (),
            (State::DisplayTime, Event::Tick) => (),
            (State::DisplayTime, Event::EnterShortPush) => self.state = State::MenuFota,
            (State::DisplayTime, Event::EnterLongPush) => self.state = State::MenuFota,
            (State::DisplayTime, Event::Night) => self.state = State::NightMode,
            (State::MenuFota, Event::EnterShortPush) => self.state = State::MenuCleanConfig,
            (State::MenuFota, Event::EnterLongPush) => self.state = State::Fota,
            (State::MenuFota, _) => (),
            (State::MenuCleanConfig, Event::EnterShortPush) => self.state = State::MenuExit,
            (State::MenuCleanConfig, Event::EnterLongPush) => self.state = State::CleanConfig,
            (State::MenuCleanConfig, _) => (),
            (State::MenuExit, Event::EnterShortPush) => self.state = State::MenuFota,
            (State::MenuExit, Event::EnterLongPush) => self.state = State::DisplayTime,
            (State::Fota, _) => (),
            (State::CleanConfig, Event::InvalidConfiguration) => self.state = State::Startup,
            (State::NightMode, Event::Day) => self.state = State::DisplayTime,
            (_, _) => self.state = State::Error,
        }
    }

    /// The state the machine is in.
    pub fn current_state(&self) -> (state: State)
        ensures
            state == self.state(),
    {
        self.state
    }
}

} // verus!

verus! {

/// Whether the transition table has a row for a state and an event. The rows
/// of the two menu states with a way on and of the firmware update stand for
/// every event.
pub open spec fn is_listed(state: State, event: Event) -> bool {
    match (state, event) {
        (State::Initial, Event::Init) => true,
        (State::Startup, Event::InvalidConfiguration) => true,
        (State::Startup, Event::Start) => true,
        (State::Configuration, Event::ValidConfiguration) => true,
        (State::Configuration, Event::Tick) => true,
        (State::DisplayTime, Event::Tick) => true,
        (State::DisplayTime, Event::EnterShortPush) => true,
        (State::DisplayTime, Event::EnterLongPush) => true,
        (State::DisplayTime, Event::Night) => true,
        (State::MenuFota, _) => true,
        (State::MenuCleanConfig, _) => true,
        (State::MenuExit, Event::EnterShortPush) => true,
        (State::MenuExit, Event::EnterLongPush) => true,
        (State::Fota, _) => true,
        (State::CleanConfig, Event::InvalidConfiguration) => true,
        (State::NightMode, Event::Day) => true,
        (_, _) => false,
    }
}

/// A state and an event for which the transition table has no row lead to
/// `Error`.
pub proof fn lemma_unlisted_leads_to_error(state: State, event: Event)
    requires
        !is_listed(state, event),
    ensures
        next_state(state, event) == State::Error,
{
}

/// `Error` is absorbing: no event leads out of it.
pub proof fn lemma_error_is_absorbing(event: Event)
    ensures
        next_state(State::Error, event) == State::Error,
{
}

/// A row of the table never leads to `Error`: the machine reaches `Error`
/// only by a state and an event that the table does not list.
pub proof fn lemma_listed_avoids_error(state: State, event: Event)
    requires
        is_listed(state, event),
    ensures
        next_state(state, event) != State::Error,
{
}

/// The `Error` event leads to `Error` from every state but the two menu
/// states with a way on and the firmware update, which it leaves as they
/// are.
pub proof fn lemma_error_event(state: State)
    ensures
        next_state(state, Event::Error) == (if state == State::MenuFota || state
            == State::MenuCleanConfig || state == State::Fota {
            state
        } else {
            State::Error
        }),
{
}

} // verus!
