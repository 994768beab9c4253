/* SPDX-License-Identifier: MIT
 * Copyright (c) 2023 Louis Mayencourt
 */

//! Control core of a word-clock appliance: the behavioural state machine, the
//! orchestrator that drives the device's collaborators, and the manager that
//! keeps several time sources in agreement.

use std::collections::VecDeque;
use vstd::prelude::*;

use crate::behaviour::{next_state, Behaviour, Event, State};
use crate::configuration::{
    parse_query, Configuration, ConfigurationManager, ConfigurationView, PersistentStorage,
};
use crate::configuration_server::ConfigurationServer;
use crate::display::Display;
use crate::firmware_update::FirmwareUpdate;
use crate::hardware::HardwareError;
use crate::network::Network;
use crate::power_manager::PowerManager;
use crate::time::Time;
use crate::time_source::TimeSource;

pub mod behaviour;
pub mod color;
pub mod configuration;
pub mod configuration_server;
pub mod display;
pub mod ds3231_board_rtc;
pub mod esp32_soc;
pub mod firmware_update;
pub mod hardware;
pub mod http_server;
pub mod led_driver;
pub mod main_loop;
pub mod network;
pub mod network_time;
pub mod ota_update;
pub mod persistent_settings;
pub mod power_manager;
pub mod query;
pub mod rgb_led_strip_matrix;
pub mod text;
pub mod time;
pub mod time_monotonic;
pub mod time_source;
pub mod time_source_manager;
pub mod version;

verus! {

/// How long the orchestrator idles between two looks at the configuration
/// server, in milliseconds.
pub const CONFIGURATION_POLL_DELAY: u64 = 200;

/// How many times the orchestrator looks at the configuration server before
/// it stops waiting for a submission.
pub const CONFIGURATION_POLL_LIMIT: u64 = 0xffff_ffff_ffff_ffff;

/// What the collaborators answer in the course of one state action. An
/// answer counts only where the action asks the question.
pub struct ActionAnswers {
    /// The configuration that the persistent storage gave.
    pub loaded: ConfigurationView,
    /// Whether the network took the credentials.
    pub configured: bool,
    /// Whether the network connected.
    pub connected: bool,
    /// Whether the time source synchronized.
    pub synchronized: bool,
    /// Whether the network disconnected.
    pub disconnected: bool,
    /// The query string that the configuration server handed over.
    pub submission: Option<Seq<char>>,
    /// Whether the persistent storage took the configuration.
    pub stored: bool,
    /// The time that the time source gave, if it gave one.
    pub time: Option<Time>,
    /// Whether the version of the update could be read.
    pub version_read: bool,
    /// Whether the update was downloaded.
    pub downloaded: bool,
    /// Whether the persistent storage took the cleared validity flag.
    pub cleaned: bool,
}

/// One `Error` event for an operation that failed, nothing for one that
/// succeeded.
pub open spec fn error_unless(succeeded: bool) -> Seq<Event> {
    if succeeded {
        Seq::empty()
    } else {
        seq![Event::Error]
    }
}

/// What the startup action publishes. With a valid configuration: an `Error`
/// for each of the four network and time operations that failed, in their
/// order, and `Start` if none did. Without one: `InvalidConfiguration`.
pub open spec fn startup_published(
    valid: bool,
    configured: bool,
    connected: bool,
    synchronized: bool,
    disconnected: bool,
) -> Seq<Event> {
    if !valid {
        seq![Event::InvalidConfiguration]
    } else if configured && connected && synchronized && disconnected {
        seq![Event::Start]
    } else {
        error_unless(configured) + error_unless(connected) + error_unless(synchronized)
            + error_unless(disconnected)
    }
}

/// What the configuration action publishes once a submission was read as a
/// configuration: an `Error` for each step of the network probe that failed
/// and for a failure to persist, then `ValidConfiguration`.
pub open spec fn submission_published(
    configured: bool,
    connected: bool,
    disconnected: bool,
    stored: bool,
) -> Seq<Event> {
    error_unless(configured) + error_unless(connected) + error_unless(disconnected) + error_unless(
        stored,
    ) + seq![Event::ValidConfiguration]
}

/// Whether a time has reached the start of the night: there is a start, and
/// neither the hour nor the minute of the time is below that of the start.
/// This compares the two fields each on its own, not the times of day.
pub open spec fn night_start_reached(time: Time, night_start: Option<Time>) -> bool {
    night_start matches Some(start) && time.hour >= start.hour && time.minute >= start.minute
}

/// What the time-display action and the night-mode action publish: `Error`
/// where the time source gave no time; else `reached` where the time has
/// reached the start of the night, and nothing where it has not.
pub open spec fn clock_published(
    time: Option<Time>,
    night_start: Option<Time>,
    reached: Event,
) -> Seq<Event> {
    match time {
        None => seq![Event::Error],
        Some(time) => if night_start_reached(time, night_start) {
            seq![reached]
        } else {
            Seq::empty()
        },
    }
}

/// What the firmware-update action publishes: an `Error` for a failure to
/// connect, to read the update's version and to download it, and after a
/// download for a failure to disconnect.
pub open spec fn firmware_update_published(
    connected: bool,
    version_read: bool,
    downloaded: bool,
    disconnected: bool,
) -> Seq<Event> {
    error_unless(connected) + error_unless(version_read) + (if downloaded {
        error_unless(disconnected)
    } else {
        seq![Event::Error]
    })
}

/// What the clean-configuration action publishes: `InvalidConfiguration`
/// where the storage took the cleared flag, else `Error`.
pub open spec fn clean_config_published(cleaned: bool) -> Seq<Event> {
    if cleaned {
        seq![Event::InvalidConfiguration]
    } else {
        seq![Event::Error]
    }
}

/// The night-mode start of a configuration, where it is valid and sets one.
pub open spec fn night_start_of(configuration: ConfigurationView) -> Option<Time> {
    match configuration {
        ConfigurationView::Valid { night_start, .. } => night_start,
        ConfigurationView::Invalid => None,
    }
}

/// The configuration with which the action of a state leaves the
/// orchestrator, and the events that it publishes, for given answers of the
/// collaborators.
pub open spec fn action_outcome(
    state: State,
    configuration: ConfigurationView,
    answers: ActionAnswers,
) -> (ConfigurationView, Seq<Event>) {
    match state {
        State::Startup => {
            let current = if configuration is Invalid {
                answers.loaded
            } else {
                configuration
            };
            (
                current,
                startup_published(
                    current is Valid,
                    answers.configured,
                    answers.connected,
                    answers.synchronized,
                    answers.disconnected,
                ),
            )
        },
        State::Configuration => if configuration is Valid {
            (configuration, seq![Event::ValidConfiguration])
        } else {
            match answers.submission {
                None => (configuration, seq![Event::Error]),
                Some(uri) => match parse_query(uri) {
                    Err(_) => (configuration, seq![Event::Error]),
                    Ok(submitted) => (
                        submitted,
                        submission_published(
                            answers.configured,
                            answers.connected,
                            answers.disconnected,
                            answers.stored,
                        ),
                    ),
                },
            }
        },
        State::DisplayTime => (
            configuration,
            clock_published(answers.time, night_start_of(configuration), Event::Night),
        ),
        State::NightMode => (
            configuration,
            clock_published(answers.time, night_start_of(configuration), Event::Day),
        ),
        State::Fota => (
            configuration,
            firmware_update_published(
                answers.connected,
                answers.version_read,
                answers.downloaded,
                answers.disconnected,
            ),
        ),
        State::CleanConfig => (
            ConfigurationView::Invalid,
            clean_config_published(answers.cleaned),
        ),
        _ => (configuration, Seq::empty()),
    }
}

/// The action of `state` took the orchestrator from the configuration
/// `before` and the waiting events `waiting` to the configuration `after` and
/// the queue `queued`, the collaborators answering `answers`.
pub open spec fn action_ran(
    state: State,
    before: ConfigurationView,
    waiting: Seq<Event>,
    after: ConfigurationView,
    queued: Seq<Event>,
    answers: ActionAnswers,
) -> bool {
    &&& after == action_outcome(state, before, answers).0
    &&& queued == waiting + action_outcome(state, before, answers).1
}

/// The progress that the display shows in a state: one step at startup and
/// at the first entry of the menu, two while the device is being configured
/// and at the second entry of the menu, three at the third entry of the menu.
/// The other states show no progress.
pub open spec fn progress_of(state: State) -> Option<u8> {
    match state {
        State::Startup => Some(1u8),
        State::Configuration => Some(2u8),
        State::MenuFota => Some(1u8),
        State::MenuCleanConfig => Some(2u8),
        State::MenuExit => Some(3u8),
        _ => None,
    }
}

/// The progress that the display shows in a state: see `progress_of`.
pub fn progress_level(state: State) -> (level: Option<u8>)
    ensures
        level == progress_of(state),
{
    match state {
        State::Startup => Some(1),
        State::Configuration => Some(2),
        State::MenuFota => Some(1),
        State::MenuCleanConfig => Some(2),
        State::MenuExit => Some(3),
        _ => None,
    }
}

/// The events of an operation that may have failed: see `error_unless`.
fn push_error_unless(events: &mut Vec<Event>, succeeded: bool)
    ensures
        final(events)@ == old(events)@ + error_unless(succeeded),
{
    if !succeeded {
        events.push(Event::Error);
    }
}

/// The events that the startup action publishes: see `startup_published`.
pub fn startup_events(
    valid: bool,
    configured: bool,
    connected: bool,
    synchronized: bool,
    disconnected: bool,
) -> (events: Vec<Event>)
    ensures
        events@ == startup_published(valid, configured, connected, synchronized, disconnected),
{
    let mut events: Vec<Event> = Vec::new();
    if !valid {
        events.push(Event::InvalidConfiguration);
    } else if configured && connected && synchronized && disconnected {
        events.push(Event::Start);
    } else {
        push_error_unless(&mut events, configured);
        push_error_unless(&mut events, connected);
        push_error_unless(&mut events, synchronized);
        push_error_unless(&mut events, disconnected);
    }
    events
}

/// The events that the configuration action publishes for a submission that
/// was read as a configuration: see `submission_published`.
pub fn submission_events(configured: bool, connected: bool, disconnected: bool, stored: bool) -> (events:
    Vec<Event>)
    ensures
        events@ == submission_published(configured, connected, disconnected, stored),
{
    let mut events: Vec<Event> = Vec::new();
    push_error_unless(&mut events, configured);
    push_error_unless(&mut events, connected);
    push_error_unless(&mut events, disconnected);
    push_error_unless(&mut events, stored);
    events.push(Event::ValidConfiguration);
    events
}

/// Whether a time has reached the start of the night: see
/// `night_start_reached`.
pub fn is_night_start_reached(time: Time, night_start: Option<Time>) -> (reached: bool)
    ensures
        reached == night_start_reached(time, night_start),
{
    if let Some(night_start) = night_start {
        if time.hour >= night_start.hour {
            if time.minute >= night_start.minute {
                return true;
            }
        }
    }
    false
}

/// The events that the time-display and the night-mode action publish: see
/// `clock_published`.
pub fn clock_events(time: Option<Time>, night_start: Option<Time>, reached: Event) -> (events: Vec<
    Event,
>)
    ensures
        events@ == clock_published(time, night_start, reached),
{
    let mut events: Vec<Event> = Vec::new();
    match time {
        None => {
            events.push(Event::Error);
        },
        Some(time) => {
            if is_night_start_reached(time, night_start) {
                events.push(reached);
            }
        },
    }
    events
}

/// The events that the firmware-update action publishes: see
/// `firmware_update_published`.
pub fn firmware_update_events(
    connected: bool,
    version_read: bool,
    downloaded: bool,
    disconnected: bool,
) -> (events: Vec<Event>)
    ensures
        events@ == firmware_update_published(connected, version_read, downloaded, disconnected),
{
    let mut events: Vec<Event> = Vec::new();
    push_error_unless(&mut events, connected);
    push_error_unless(&mut events, version_read);
    if downloaded {
        push_error_unless(&mut events, disconnected);
    } else {
        events.push(Event::Error);
    }
    events
}

/// The events that the clean-configuration action publishes: see
/// `clean_config_published`.
pub fn clean_config_events(cleaned: bool) -> (events: Vec<Event>)
    ensures
        events@ == clean_config_published(cleaned),
{
    let mut events: Vec<Event> = Vec::new();
    if cleaned {
        events.push(Event::InvalidConfiguration);
    } else {
        events.push(Event::Error);
    }
    events
}

} // verus!

verus! {

/// Answers that stand for a course in which every operation that was asked
/// for succeeded and nothing was read.
pub open spec fn no_answers() -> ActionAnswers {
    ActionAnswers {
        loaded: ConfigurationView::Invalid,
        configured: true,
        connected: true,
        synchronized: true,
        disconnected: true,
        submission: None,
        stored: true,
        time: None,
        version_read: true,
        downloaded: true,
        cleaned: true,
    }
}

/// The orchestrator: it owns the configuration, the queue of events, the
/// state machine and the collaborators, and runs the action of a state each
/// time an event has moved the machine.
pub struct Application<
    D: Display,
    T: TimeSource,
    S: PersistentStorage,
    N: Network,
    C: ConfigurationServer,
    P: PowerManager,
    F: FirmwareUpdate,
> {
    pub display: D,
    pub time_source: T,
    pub configuration: Configuration,
    pub configuration_manager: ConfigurationManager<S>,
    pub network: N,
    pub configuration_server: C,
    pub power_manager: P,
    pub firmware_update: F,
    behaviour: Behaviour,
    event_queue: VecDeque<Event>,
}

impl<
    D: Display,
    T: TimeSource,
    S: PersistentStorage,
    N: Network,
    C: ConfigurationServer,
    P: PowerManager,
    F: FirmwareUpdate,
> Application<D, T, S, N, C, P, F> {
    /// The state of the device.
    pub closed spec fn state(&self) -> State {
        self.behaviour.state()
    }

    /// The events that wait to be handled, oldest first.
    pub closed spec fn queue(&self) -> Seq<Event> {
        self.event_queue@
    }

    /// The configuration that the orchestrator holds.
    pub closed spec fn config(&self) -> ConfigurationView {
        self.configuration@
    }

    /// The collaborators that the orchestrator owns besides the display:
    /// the time source, the persistent storage, the network, the
    /// configuration server, the power manager and the firmware update.
    pub closed spec fn collaborators(&self) -> (T, S, N, C, P, F) {
        (
            self.time_source,
            self.configuration_manager.storage(),
            self.network,
            self.configuration_server,
            self.power_manager,
            self.firmware_update,
        )
    }

    /// An orchestrator of the given collaborators, in the `Initial` state,
    /// with no event queued and an invalid configuration. The display is
    /// cleared first; the other collaborators are taken as they are.
    ///
    /// # Errors
    /// The display's error if it fails to clear.
    pub fn new(
        display: D,
        time_source: T,
        persistent_storage: S,
        network: N,
        configuration_server: C,
        power_manager: P,
        firmware_update: F,
    ) -> (r: Result<Self, HardwareError>)
        ensures
            r matches Ok(application) ==> {
                &&& application.state() == State::Initial
                &&& application.queue() == Seq::<Event>::empty()
                &&& application.config() is Invalid
                &&& application.collaborators() == (
                    time_source,
                    persistent_storage,
                    network,
                    configuration_server,
                    power_manager,
                    firmware_update,
                )
            },
    {
        let mut display = display;
        match display.clear() {
            Ok(()) => {},
            Err(error) => {
                return Err(error);
            },
        }
        Ok(
            Application {
                display,
                time_source,
                configuration: Configuration::default(),
                configuration_manager: ConfigurationManager::new(persistent_storage),
                network,
                configuration_server,
                power_manager,
                firmware_update,
                behaviour: Behaviour::new(),
                event_queue: VecDeque::new(),
            },
        )
    }

    /// Queue an event behind those that wait.
    pub fn publish_event(&mut self, event: Event)
        ensures
            final(self).queue() == old(self).queue().push(event),
            final(self).state() == old(self).state(),
            final(self).config() == old(self).config(),
    {
        self.event_queue.push_back(event);
    }

    /// Queue a run of events behind those that wait, in their order.
    fn publish_events(&mut self, events: Vec<Event>)
        ensures
            final(self).queue() == old(self).queue() + events@,
            final(self).state() == old(self).state(),
            final(self).config() == old(self).config(),
    {
        let mut i: usize = 0;
        while i < events.len()
            invariant
                i <= events@.len(),
                self.queue() == old(self).queue() + events@.subrange(0, i as int),
                self.state() == old(self).state(),
                self.config() == old(self).config(),
            decreases events@.len() - i,
        {
            self.event_queue.push_back(events[i]);
            i = i + 1;
            proof {
                assert(events@.subrange(0, i as int) == events@.subrange(0, i - 1).push(
                    events@[i - 1],
                ));
            }
        }
        proof {
            assert(events@.subrange(0, events@.len() as int) == events@);
        }
    }

    /// Run one step: hand the oldest queued event to the state machine, then
    /// run the action of the state that results. With no event queued,
    /// nothing happens. The events that the action publishes wait behind
    /// those already queued.
    pub fn run(&mut self)
        ensures
            old(self).queue().len() == 0 ==> {
                &&& final(self).state() == old(self).state()
                &&& final(self).queue() == old(self).queue()
                &&& final(self).config() == old(self).config()
            },
            old(self).queue().len() > 0 ==> {
                &&& final(self).state() == next_state(old(self).state(), old(self).queue()[0])
                &&& exists|answers: ActionAnswers|
                    action_ran(
                        final(self).state(),
                        old(self).config(),
                        old(self).queue().skip(1),
                        final(self).config(),
                        final(self).queue(),
                        answers,
                    )
            },
    {
        if let Some(event) = self.event_queue.pop_front() {
            self.behaviour.handle_event(event);
            self.state_action();
        }
    }

    /// Run the action of the current state: see `action_outcome`. The state
    /// stays; the events that the action publishes are queued behind those
    /// that wait.
    pub fn state_action(&mut self)
        ensures
            final(self).state() == old(self).state(),
            exists|answers: ActionAnswers|
                action_ran(
                    old(self).state(),
                    old(self).config(),
                    old(self).queue(),
                    final(self).config(),
                    final(self).queue(),
                    answers,
                ),
    {
        match self.behaviour.current_state() {
            State::Startup => self.startup(),
            State::DisplayTime => self.display_time(),
            State::NightMode => self.night_mode(),
            State::Configuration => self.configuration(),
            State::MenuFota => self.menu(),
            State::MenuCleanConfig => self.menu(),
            State::MenuExit => self.menu(),
            State::Fota => self.firmware_update(),
            State::CleanConfig => self.clean_config(),
            _ => self.error(),
        }
    }

    /// The state of the device.
    pub fn get_current_state(&self) -> (state: State)
        ensures
            state == self.state(),
    {
        self.behaviour.current_state()
    }

    /// Probe the network with the credentials of the configuration: hand
    /// them over, connect, synchronize the time source where asked to, and
    /// disconnect. Each step is tried whatever became of the one before. The
    /// result tells, in this order, whether each of the four steps
    /// succeeded. A configuration without credentials has none to hand
    /// over, which counts as a failure of the first step; a synchronization
    /// that is not asked for counts as a success of the third.
    fn probe_network(&mut self, synchronize: bool) -> (answers: (bool, bool, bool, bool))
        ensures
            final(self).state() == old(self).state(),
            final(self).queue() == old(self).queue(),
            final(self).config() == old(self).config(),
            old(self).config() is Invalid ==> !answers.0,
            !synchronize ==> answers.2,
    {
        let configured = match (self.configuration.get_ssid(), self.configuration.get_password()) {
            (Some(ssid), Some(password)) => self.network.configure(
                ssid.as_str(),
                password.as_str(),
            ).is_ok(),
            _ => false,
        };
        let connected = self.network.connect().is_ok();
        let synchronized = if synchronize {
            self.time_source.synchronize().is_ok()
        } else {
            true
        };
        let disconnected = self.network.disconnect().is_ok();
        (configured, connected, synchronized, disconnected)
    }

    fn startup(&mut self)
        requires
            old(self).state() == State::Startup,
        ensures
            final(self).state() == old(self).state(),
            exists|answers: ActionAnswers|
                action_ran(
                    old(self).state(),
                    old(self).config(),
                    old(self).queue(),
                    final(self).config(),
                    final(self).queue(),
                    answers,
                ),
    {
        self.show_progress();

        let ghost mut answers = no_answers();
        if self.configuration.is_invalid() {
            self.configuration = self.configuration_manager.load_from_persistent_storage();
            proof {
                answers = ActionAnswers { loaded: self.configuration@, ..answers };
            }
        }
        let events = match self.configuration.get_display_color() {
            Some(color) => {
                self.display.set_default_color(color);
                let (configured, connected, synchronized, disconnected) = self.probe_network(true);
                proof {
                    answers = ActionAnswers {
                        configured,
                        connected,
                        synchronized,
                        disconnected,
                        ..answers
                    };
                }
                startup_events(true, configured, connected, synchronized, disconnected)
            },
            None => startup_events(false, true, true, true, true),
        };
        self.publish_events(events);
        proof {
            assert(action_ran(
                State::Startup,
                old(self).config(),
                old(self).queue(),
                self.config(),
                self.queue(),
                answers,
            ));
        }
    }

    fn configuration(&mut self)
        requires
            old(self).state() == State::Configuration,
        ensures
            final(self).state() == old(self).state(),
            exists|answers: ActionAnswers|
                action_ran(
                    old(self).state(),
                    old(self).config(),
                    old(self).queue(),
                    final(self).config(),
                    final(self).queue(),
                    answers,
                ),
    {
        self.show_progress();

        let ghost mut answers = no_answers();
        if self.configuration.is_valid() {
            self.publish_event(Event::ValidConfiguration);
            proof {
                assert(self.queue() == old(self).queue() + seq![Event::ValidConfiguration]);
                assert(action_ran(
                    State::Configuration,
                    old(self).config(),
                    old(self).queue(),
                    self.config(),
                    self.queue(),
                    answers,
                ));
            }
            return ;
        }
        // The network is already set up as an access point by the host.
        self.await_submission();

        let uri = match self.configuration_server.get_config_uri() {
            Some(uri) => uri,
            None => {
                self.publish_event(Event::Error);
                proof {
                    assert(self.queue() == old(self).queue() + seq![Event::Error]);
                    assert(action_ran(
                        State::Configuration,
                        old(self).config(),
                        old(self).queue(),
                        self.config(),
                        self.queue(),
                        answers,
                    ));
                }
                return ;
            },
        };
        proof {
            answers = ActionAnswers { submission: Some(uri@), ..answers };
        }
        match Configuration::from_uri_query_string(uri.as_str()) {
            Ok(config) => {
                self.configuration = config;
            },
            Err(_) => {
                self.publish_event(Event::Error);
                proof {
                    assert(self.queue() == old(self).queue() + seq![Event::Error]);
                    assert(action_ran(
                        State::Configuration,
                        old(self).config(),
                        old(self).queue(),
                        self.config(),
                        self.queue(),
                        answers,
                    ));
                }
                return ;
            },
        }
        let (configured, connected, _, disconnected) = self.probe_network(false);
        let stored = self.configuration_manager.store_to_persistent_storage(
            self.configuration.clone(),
        ).is_ok();
        let events = submission_events(configured, connected, disconnected, stored);
        self.publish_events(events);
        proof {
            answers = ActionAnswers { configured, connected, disconnected, stored, ..answers };
            assert(action_ran(
                State::Configuration,
                old(self).config(),
                old(self).queue(),
                self.config(),
                self.queue(),
                answers,
            ));
        }
    }

    /// Idle until the configuration server has a submission, looking every
    /// `CONFIGURATION_POLL_DELAY` milliseconds and at most
    /// `CONFIGURATION_POLL_LIMIT` times more.
    fn await_submission(&self) {
        let mut remaining: u64 = CONFIGURATION_POLL_LIMIT;
        loop
            decreases remaining,
        {
            self.power_manager.sleep(CONFIGURATION_POLL_DELAY);
            if self.configuration_server.is_configuration_received() {
                break ;
            }
            if remaining == 0 {
                break ;
            }
            remaining = remaining - 1;
        }
    }

    /// The time of the time source, where it gives one.
    fn read_time(&self) -> Option<Time> {
        match self.time_source.get_time() {
            Ok(time) => Some(time),
            Err(_) => None,
        }
    }

    fn display_time(&mut self)
        requires
            old(self).state() == State::DisplayTime,
        ensures
            final(self).state() == old(self).state(),
            exists|answers: ActionAnswers|
                action_ran(
                    old(self).state(),
                    old(self).config(),
                    old(self).queue(),
                    final(self).config(),
                    final(self).queue(),
                    answers,
                ),
    {
        let time = self.read_time();
        if let Some(time) = time {
            let _ = self.display.draw_time(time);
        }
        let events = clock_events(time, self.configuration.get_night_start(), Event::Night);
        self.publish_events(events);
        proof {
            let answers = ActionAnswers { time, ..no_answers() };
            assert(action_ran(
                State::DisplayTime,
                old(self).config(),
                old(self).queue(),
                self.config(),
                self.queue(),
                answers,
            ));
        }
    }

    fn night_mode(&mut self)
        requires
            old(self).state() == State::NightMode,
        ensures
            final(self).state() == old(self).state(),
            exists|answers: ActionAnswers|
                action_ran(
                    old(self).state(),
                    old(self).config(),
                    old(self).queue(),
                    final(self).config(),
                    final(self).queue(),
                    answers,
                ),
    {
        let time = self.read_time();
        // The night ends by the same test on the start of the night by which
        // it begins.
        let events = clock_events(time, self.configuration.get_night_start(), Event::Day);
        self.publish_events(events);
        proof {
            let answers = ActionAnswers { time, ..no_answers() };
            assert(action_ran(
                State::NightMode,
                old(self).config(),
                old(self).queue(),
                self.config(),
                self.queue(),
                answers,
            ));
        }
    }

    /// Show the progress of the current state on the display, where the
    /// state has one: see `progress_level`.
    fn show_progress(&mut self)
        ensures
            final(self).state() == old(self).state(),
            final(self).queue() == old(self).queue(),
            final(self).config() == old(self).config(),
    {
        if let Some(level) = progress_level(self.behaviour.current_state()) {
            let _ = self.display.draw_progress(level);
        }
    }

    /// Show where the menu stands.
    fn menu(&mut self)
        requires
            old(self).state() == State::MenuFota || old(self).state() == State::MenuCleanConfig
                || old(self).state() == State::MenuExit,
        ensures
            final(self).state() == old(self).state(),
            exists|answers: ActionAnswers|
                action_ran(
                    old(self).state(),
                    old(self).config(),
                    old(self).queue(),
                    final(self).config(),
                    final(self).queue(),
                    answers,
                ),
    {
        self.show_progress();
        proof {
            assert(self.queue() == old(self).queue() + Seq::<Event>::empty());
            assert(action_ran(
                old(self).state(),
                old(self).config(),
                old(self).queue(),
                self.config(),
                self.queue(),
                no_answers(),
            ));
        }
    }

    fn firmware_update(&mut self)
        requires
            old(self).state() == State::Fota,
        ensures
            final(self).state() == old(self).state(),
            exists|answers: ActionAnswers|
                action_ran(
                    old(self).state(),
                    old(self).config(),
                    old(self).queue(),
                    final(self).config(),
                    final(self).queue(),
                    answers,
                ),
    {
        let connected = self.network.connect().is_ok();
        let version_read = self.firmware_update.read_update_version().is_ok();
        let downloaded = self.firmware_update.download_update().is_ok();
        let disconnected = if downloaded {
            self.network.disconnect().is_ok()
        } else {
            true
        };
        let events = firmware_update_events(connected, version_read, downloaded, disconnected);
        self.publish_events(events);
        proof {
            let answers = ActionAnswers {
                connected,
                version_read,
                downloaded,
                disconnected,
                ..no_answers()
            };
            assert(action_ran(
                State::Fota,
                old(self).config(),
                old(self).queue(),
                self.config(),
                self.queue(),
                answers,
            ));
        }
        if downloaded {
            self.firmware_update.reboot_to_new_image();
        }
    }

    fn clean_config(&mut self)
        requires
            old(self).state() == State::CleanConfig,
        ensures
            final(self).state() == old(self).state(),
            exists|answers: ActionAnswers|
                action_ran(
                    old(self).state(),
                    old(self).config(),
                    old(self).queue(),
                    final(self).config(),
                    final(self).queue(),
                    answers,
                ),
    {
        self.configuration = Configuration::default();
        let cleaned = self.configuration_manager.clean_persistent_storage().is_ok();
        let events = clean_config_events(cleaned);
        self.publish_events(events);
        proof {
            let answers = ActionAnswers { cleaned, ..no_answers() };
            assert(action_ran(
                State::CleanConfig,
                old(self).config(),
                old(self).queue(),
                self.config(),
                self.queue(),
                answers,
            ));
        }
        if cleaned {
            self.power_manager.reset();
        }
    }

    /// Show that the device is in a state it cannot leave.
    fn error(&mut self)
        requires
            old(self).state() == State::Initial || old(self).state() == State::Error,
        ensures
            final(self).state() == old(self).state(),
            exists|answers: ActionAnswers|
                action_ran(
                    old(self).state(),
                    old(self).config(),
                    old(self).queue(),
                    final(self).config(),
                    final(self).queue(),
                    answers,
                ),
    {
        let _ = self.display.draw_error();
        proof {
            assert(self.queue() == old(self).queue() + Seq::<Event>::empty());
            assert(action_ran(
                old(self).state(),
                old(self).config(),
                old(self).queue(),
                self.config(),
                self.queue(),
                no_answers(),
            ));
        }
    }
}

} // verus!
