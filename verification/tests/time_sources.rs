/* SPDX-License-Identifier: MIT
 * Copyright (c) 2023 Louis Mayencourt
 */

use std::cell::Cell;
use std::rc::Rc;

use application::time::Time;
use application::time_monotonic::TimeMonotonic;
use application::time_source::{TimeSource, TimeSourceError};
use application::time_source_manager::{
    outcome_of_set_time, outcome_of_synchronize, still_holds, SetAnswers, SyncAnswers, SyncMarks,
    TimeProvider, TimeSourceManager, CPU_SYNC_TIMEOUT, RTC_SYNC_TIMEOUT,
};

const INITIAL_RTC_TIME: Time = Time { hour: 1, minute: 2, second: 3 };
const INITIAL_NETWORK_TIME: Time = Time { hour: 12, minute: 34, second: 56 };

const ELAPSED_RTC_TIME: Time = Time { hour: 2, minute: 3, second: 4 };

struct MockMonotonicTime {
    now: u64,
}

impl MockMonotonicTime {
    fn elapsed(&mut self, duration: u64) {
        self.now = self.now + duration;
    }
}

impl TimeMonotonic for MockMonotonicTime {
    fn now(&self) -> u64 {
        return self.now;
    }
}

struct MockTime {
    current: Time,
}

impl TimeSource for MockTime {
    fn synchronize(&mut self) -> Result<(), TimeSourceError> {
        Ok(())
    }

    fn get_time(&self) -> Result<Time, TimeSourceError> {
        Ok(self.current)
    }

    fn set_time(&mut self, now: Time) -> Result<(), TimeSourceError> {
        self.current = now;
        Ok(())
    }
}

/// A source that counts how often it is read and set, and that can be made
/// to fail.
struct CountingTime {
    current: Time,
    reads: Rc<Cell<u32>>,
    writes: Rc<Cell<u32>>,
    read_error: Option<TimeSourceError>,
    write_error: Option<TimeSourceError>,
}

impl CountingTime {
    fn new(current: Time) -> (Self, Rc<Cell<u32>>, Rc<Cell<u32>>) {
        let reads = Rc::new(Cell::new(0));
        let writes = Rc::new(Cell::new(0));
        let source = CountingTime {
            current,
            reads: reads.clone(),
            writes: writes.clone(),
            read_error: None,
            write_error: None,
        };
        (source, reads, writes)
    }
}

impl TimeSource for CountingTime {
    fn synchronize(&mut self) -> Result<(), TimeSourceError> {
        Ok(())
    }

    fn get_time(&self) -> Result<Time, TimeSourceError> {
        self.reads.set(self.reads.get() + 1);
        match self.read_error {
            Some(error) => Err(error),
            None => Ok(self.current),
        }
    }

    fn set_time(&mut self, now: Time) -> Result<(), TimeSourceError> {
        self.writes.set(self.writes.get() + 1);
        match self.write_error {
            Some(error) => Err(error),
            None => {
                self.current = now;
                Ok(())
            }
        }
    }
}

fn board_time_only() -> TimeSourceManager<MockMonotonicTime> {
    let sys_time = MockMonotonicTime { now: 1_000 };
    let cpu_time = Box::new(MockTime { current: Time::new(0, 0, 0).unwrap() });
    let board_time = Box::new(MockTime { current: INITIAL_RTC_TIME });

    TimeSourceManager::new(sys_time, cpu_time, Some(board_time), None)
}

fn network_time_only() -> TimeSourceManager<MockMonotonicTime> {
    let sys_time = MockMonotonicTime { now: 1_000 };
    let cpu_time = Box::new(MockTime { current: Time::new(0, 0, 0).unwrap() });
    let network_time = Box::new(MockTime { current: INITIAL_NETWORK_TIME });

    TimeSourceManager::new(sys_time, cpu_time, None, Some(network_time))
}

fn board_and_network() -> TimeSourceManager<MockMonotonicTime> {
    let sys_time: MockMonotonicTime = MockMonotonicTime { now: 1_000 };
    let cpu_time = Box::new(MockTime { current: Time::new(0, 0, 0).unwrap() });
    let board_time = Box::new(MockTime { current: INITIAL_RTC_TIME });
    let network_time = Box::new(MockTime { current: INITIAL_NETWORK_TIME });

    TimeSourceManager::new(sys_time, cpu_time, Some(board_time), Some(network_time))
}

// With a board RTC only.

#[test]
fn start_unsynchronized() {
    let time_source_manager = board_time_only();

    assert!(!time_source_manager.is_synchronized());
    assert_eq!(time_source_manager.get_time(), Err(TimeSourceError::NotSynchronized));
}

#[test]
fn set_time() {
    let mut time_source_manager = board_time_only();
    let new_time = Time::new(1, 2, 3).unwrap();

    time_source_manager.set_time(new_time).unwrap();

    assert!(time_source_manager.is_synchronized());
    assert_eq!(time_source_manager.get_time().unwrap(), new_time);
}

#[test]
fn sync_and_get_time() {
    let mut time_source_manager = board_time_only();

    assert!(time_source_manager.synchronize().is_ok());
    assert!(time_source_manager.is_synchronized());
    assert_eq!(time_source_manager.get_time().unwrap(), INITIAL_RTC_TIME);
}

#[test]
fn out_of_sync_detection() {
    let mut time_source_manager = board_time_only();

    // first sync should always return network time.
    time_source_manager.synchronize().unwrap();
    assert!(time_source_manager.is_synchronized());
    assert_eq!(time_source_manager.get_time().unwrap(), INITIAL_RTC_TIME);

    // reach CPU out of sync
    time_source_manager.time_monotonic.elapsed(CPU_SYNC_TIMEOUT);
    assert!(!time_source_manager.is_synchronized());
    // this should sync with the board time
    time_source_manager.board_time.as_mut().unwrap().set_time(ELAPSED_RTC_TIME).unwrap();
    time_source_manager.synchronize().unwrap();
    assert_eq!(time_source_manager.get_time().unwrap(), ELAPSED_RTC_TIME);
}

// With a network time only.

#[test]
fn time_sources_start_unsynchronized() {
    let time_source_manager = network_time_only();

    assert!(!time_source_manager.is_synchronized());
    assert_eq!(time_source_manager.get_time(), Err(TimeSourceError::NotSynchronized));
}

#[test]
fn time_sources_set_time() {
    let mut time_source_manager = network_time_only();
    let new_time = Time::new(1, 2, 3).unwrap();

    time_source_manager.set_time(new_time).unwrap();

    assert!(time_source_manager.is_synchronized());
    assert_eq!(time_source_manager.get_time().unwrap(), new_time);
}

#[test]
fn time_sources_sync_and_get_time() {
    let mut time_source_manager = network_time_only();

    assert!(time_source_manager.synchronize().is_ok());
    assert!(time_source_manager.is_synchronized());
    assert_eq!(time_source_manager.get_time().unwrap(), INITIAL_NETWORK_TIME);
}

#[test]
fn time_sources_out_of_sync_detection() {
    let mut time_source_manager = network_time_only();

    // first sync should always return network time.
    time_source_manager.synchronize().unwrap();
    assert!(time_source_manager.is_synchronized());
    assert_eq!(time_source_manager.get_time().unwrap(), INITIAL_NETWORK_TIME);

    // reach CPU out of sync
    time_source_manager.time_monotonic.elapsed(CPU_SYNC_TIMEOUT);
    assert!(!time_source_manager.is_synchronized());
    // this should sync with the network time
    time_source_manager.network_time.as_mut().unwrap().set_time(ELAPSED_RTC_TIME).unwrap();
    time_source_manager.synchronize().unwrap();
    assert_eq!(time_source_manager.get_time().unwrap(), ELAPSED_RTC_TIME);
}

// With a board RTC and a network time.

#[test]
fn board_and_network_start_unsynchronized() {
    let time_source_manager = board_and_network();

    assert!(!time_source_manager.is_synchronized());
    assert_eq!(time_source_manager.get_time(), Err(TimeSourceError::NotSynchronized));
}

#[test]
fn board_and_network_set_time() {
    let mut time_source_manager = board_and_network();
    let new_time = Time::new(1, 2, 3).unwrap();

    time_source_manager.set_time(new_time).unwrap();

    assert!(time_source_manager.is_synchronized());
    assert_eq!(time_source_manager.get_time().unwrap(), new_time);
}

#[test]
fn board_and_network_sync_and_get_time() {
    let mut time_source_manager = board_and_network();

    assert!(time_source_manager.synchronize().is_ok());
    assert!(time_source_manager.is_synchronized());
    assert_eq!(time_source_manager.get_time().unwrap(), INITIAL_NETWORK_TIME);
}

#[test]
fn board_and_network_out_of_sync_detection() {
    let mut time_source_manager = board_and_network();

    // first sync should always return network time.
    time_source_manager.synchronize().unwrap();
    assert!(time_source_manager.is_synchronized());
    assert_eq!(time_source_manager.get_time().unwrap(), INITIAL_NETWORK_TIME);

    // reach CPU out of sync
    time_source_manager.time_monotonic.elapsed(CPU_SYNC_TIMEOUT);
    assert!(!time_source_manager.is_synchronized());
    // this should sync with the board time
    time_source_manager.board_time.as_mut().unwrap().set_time(ELAPSED_RTC_TIME).unwrap();
    time_source_manager.synchronize().unwrap();
    assert_eq!(time_source_manager.get_time().unwrap(), ELAPSED_RTC_TIME);

    // reach board out of sync
    time_source_manager.time_monotonic.elapsed(RTC_SYNC_TIMEOUT);
    assert!(!time_source_manager.is_synchronized());
    // this should sync with network time
    time_source_manager.synchronize().unwrap();
    assert_eq!(time_source_manager.get_time().unwrap(), INITIAL_NETWORK_TIME);
}

#[test]
fn timeouts_in_milliseconds() {
    assert_eq!(CPU_SYNC_TIMEOUT, 300_000);
    assert_eq!(RTC_SYNC_TIMEOUT, 86_400_000);
}

#[test]
fn a_synchronization_holds_for_less_than_its_timeout() {
    assert!(!still_holds(None, 0, 10));
    assert!(still_holds(Some(100), 100, 10));
    assert!(still_holds(Some(100), 109, 10));
    assert!(!still_holds(Some(100), 110, 10));
    assert!(!still_holds(Some(100), 1_000, 10));
    // A clock that reads less than at the synchronization: nothing has passed.
    assert!(still_holds(Some(100), 50, 10));
    assert!(!still_holds(Some(100), 100, 0));
    assert!(still_holds(Some(0), u64::MAX - 1, u64::MAX));
    assert!(!still_holds(Some(0), u64::MAX, u64::MAX));
}

#[test]
fn synchronized_at_a_given_reading() {
    let mut manager = board_and_network();
    assert!(!manager.is_cpu_synchronized_at(1_000));
    assert_eq!(manager.is_board_synchronized_at(1_000), Some(false));
    assert!(!manager.is_synchronized_at(1_000));
    assert!(!manager.is_cpu_synchronized());
    assert_eq!(manager.is_board_synchronized(), Some(false));

    manager.synchronize().unwrap();
    assert!(manager.is_cpu_synchronized());
    assert_eq!(manager.is_board_synchronized(), Some(true));
    assert!(manager.is_synchronized_at(1_000));
    assert!(manager.is_synchronized_at(1_000 + CPU_SYNC_TIMEOUT - 1));
    assert!(!manager.is_synchronized_at(1_000 + CPU_SYNC_TIMEOUT));
    assert!(!manager.is_cpu_synchronized_at(1_000 + CPU_SYNC_TIMEOUT));
    assert_eq!(manager.is_board_synchronized_at(1_000 + CPU_SYNC_TIMEOUT), Some(true));
    assert_eq!(manager.is_board_synchronized_at(1_000 + RTC_SYNC_TIMEOUT - 1), Some(true));
    assert_eq!(manager.is_board_synchronized_at(1_000 + RTC_SYNC_TIMEOUT), Some(false));
}

#[test]
fn board_synchronization_needs_both_sources() {
    let mut manager = board_time_only();
    assert_eq!(manager.is_board_synchronized(), None);
    manager.synchronize().unwrap();
    assert_eq!(manager.is_board_synchronized(), None);
    assert_eq!(manager.is_board_synchronized_at(1_000 + 2 * RTC_SYNC_TIMEOUT), None);

    let manager = network_time_only();
    assert_eq!(manager.is_board_synchronized(), None);
}

#[test]
fn synchronize_twice_in_immediate_succession() {
    let (cpu, _, cpu_writes) = CountingTime::new(Time { hour: 0, minute: 0, second: 0 });
    let (board, board_reads, board_writes) = CountingTime::new(INITIAL_RTC_TIME);
    let (network, network_reads, _) = CountingTime::new(INITIAL_NETWORK_TIME);
    let mut manager = TimeSourceManager::new(
        MockMonotonicTime { now: 5_000 },
        Box::new(cpu),
        Some(Box::new(board)),
        Some(Box::new(network)),
    );

    assert_eq!(manager.synchronize(), Ok(()));
    assert!(manager.is_synchronized());
    assert_eq!(network_reads.get(), 1);
    assert_eq!(board_reads.get(), 0);
    assert_eq!(board_writes.get(), 1);
    assert_eq!(cpu_writes.get(), 1);

    // The second call takes the branch of the fresh board source: the network
    // is left alone, the board RTC is read and handed to the CPU.
    assert_eq!(manager.synchronize(), Ok(()));
    assert!(manager.is_synchronized());
    assert_eq!(network_reads.get(), 1);
    assert_eq!(board_reads.get(), 1);
    assert_eq!(board_writes.get(), 1);
    assert_eq!(cpu_writes.get(), 2);
    assert_eq!(manager.get_time(), Ok(INITIAL_NETWORK_TIME));
}

#[test]
fn synchronize_without_any_answer_is_no_error() {
    let (cpu, _, cpu_writes) = CountingTime::new(Time { hour: 0, minute: 0, second: 0 });
    let (mut board, _, _) = CountingTime::new(INITIAL_RTC_TIME);
    board.read_error = Some(TimeSourceError::NotAvailable);
    let (mut network, _, _) = CountingTime::new(INITIAL_NETWORK_TIME);
    network.read_error = Some(TimeSourceError::NotSynchronized);
    let mut manager = TimeSourceManager::new(
        MockMonotonicTime { now: 0 },
        Box::new(cpu),
        Some(Box::new(board)),
        Some(Box::new(network)),
    );
    assert_eq!(manager.synchronize(), Ok(()));
    assert_eq!(cpu_writes.get(), 0);
    assert!(!manager.is_synchronized());
    assert_eq!(manager.get_time(), Err(TimeSourceError::NotSynchronized));

    let (cpu, _, _) = CountingTime::new(Time { hour: 0, minute: 0, second: 0 });
    let mut manager =
        TimeSourceManager::new(MockMonotonicTime { now: 0 }, Box::new(cpu), None, None);
    assert_eq!(manager.synchronize(), Ok(()));
    assert!(!manager.is_synchronized());
}

#[test]
fn synchronize_falls_back_to_the_board_source() {
    let (cpu, _, _) = CountingTime::new(Time { hour: 0, minute: 0, second: 0 });
    let (board, _, board_writes) = CountingTime::new(INITIAL_RTC_TIME);
    let (mut network, network_reads, _) = CountingTime::new(INITIAL_NETWORK_TIME);
    network.read_error = Some(TimeSourceError::NotSynchronized);
    let mut manager = TimeSourceManager::new(
        MockMonotonicTime { now: 0 },
        Box::new(cpu),
        Some(Box::new(board)),
        Some(Box::new(network)),
    );
    assert_eq!(manager.synchronize(), Ok(()));
    assert_eq!(network_reads.get(), 1);
    assert_eq!(board_writes.get(), 0);
    assert!(manager.is_cpu_synchronized());
    // The board source was not brought in sync with the network.
    assert_eq!(manager.is_board_synchronized(), Some(false));
    assert!(!manager.is_synchronized());
    assert_eq!(manager.cpu_time.get_time(), Ok(INITIAL_RTC_TIME));
}

#[test]
fn synchronize_hands_on_the_error_of_a_source_that_takes_no_time() {
    let (mut cpu, _, _) = CountingTime::new(Time { hour: 0, minute: 0, second: 0 });
    cpu.write_error = Some(TimeSourceError::SynchronizationError);
    let (board, _, board_writes) = CountingTime::new(INITIAL_RTC_TIME);
    let (network, _, _) = CountingTime::new(INITIAL_NETWORK_TIME);
    let mut manager = TimeSourceManager::new(
        MockMonotonicTime { now: 0 },
        Box::new(cpu),
        Some(Box::new(board)),
        Some(Box::new(network)),
    );
    assert_eq!(manager.synchronize(), Err(TimeSourceError::SynchronizationError));
    assert_eq!(board_writes.get(), 0);
    assert!(!manager.is_synchronized());

    let (cpu, _, _) = CountingTime::new(Time { hour: 0, minute: 0, second: 0 });
    let (mut board, _, _) = CountingTime::new(INITIAL_RTC_TIME);
    board.write_error = Some(TimeSourceError::NotAvailable);
    let (network, _, _) = CountingTime::new(INITIAL_NETWORK_TIME);
    let mut manager = TimeSourceManager::new(
        MockMonotonicTime { now: 0 },
        Box::new(cpu),
        Some(Box::new(board)),
        Some(Box::new(network)),
    );
    assert_eq!(manager.synchronize(), Err(TimeSourceError::NotAvailable));
    assert!(manager.is_cpu_synchronized());
    assert_eq!(manager.is_board_synchronized(), Some(false));
}

#[test]
fn set_time_reaches_every_source() {
    let (cpu, _, cpu_writes) = CountingTime::new(Time { hour: 0, minute: 0, second: 0 });
    let (board, _, board_writes) = CountingTime::new(INITIAL_RTC_TIME);
    let (network, _, network_writes) = CountingTime::new(INITIAL_NETWORK_TIME);
    let mut manager = TimeSourceManager::new(
        MockMonotonicTime { now: 0 },
        Box::new(cpu),
        Some(Box::new(board)),
        Some(Box::new(network)),
    );
    assert_eq!(manager.set_time(ELAPSED_RTC_TIME), Ok(()));
    assert_eq!((cpu_writes.get(), board_writes.get(), network_writes.get()), (1, 1, 1));
    assert!(manager.is_synchronized());
    assert_eq!(manager.cpu_time.get_time(), Ok(ELAPSED_RTC_TIME));
    assert_eq!(manager.get_time(), Ok(ELAPSED_RTC_TIME));
}

#[test]
fn set_time_that_a_source_refuses_marks_nothing() {
    let (cpu, _, _) = CountingTime::new(Time { hour: 0, minute: 0, second: 0 });
    let (mut board, _, _) = CountingTime::new(INITIAL_RTC_TIME);
    board.write_error = Some(TimeSourceError::SynchronizationError);
    let (network, _, network_writes) = CountingTime::new(INITIAL_NETWORK_TIME);
    let mut manager = TimeSourceManager::new(
        MockMonotonicTime { now: 0 },
        Box::new(cpu),
        Some(Box::new(board)),
        Some(Box::new(network)),
    );
    assert_eq!(manager.set_time(ELAPSED_RTC_TIME), Err(TimeSourceError::SynchronizationError));
    assert_eq!(network_writes.get(), 0);
    assert!(!manager.is_cpu_synchronized());
    assert!(!manager.is_synchronized());
}

#[test]
fn the_board_source_is_asked_for_the_time_where_there_is_one() {
    let mut manager = board_and_network();
    assert_eq!(manager.time_provider_at(1_000), None);
    manager.synchronize().unwrap();
    assert_eq!(manager.time_provider_at(1_000), Some(TimeProvider::Board));
    assert_eq!(manager.time_provider_at(1_000 + CPU_SYNC_TIMEOUT), None);

    let mut manager = board_time_only();
    manager.synchronize().unwrap();
    assert_eq!(manager.time_provider_at(1_000), Some(TimeProvider::Board));

    let mut manager = network_time_only();
    assert_eq!(manager.time_provider_at(1_000), None);
    manager.synchronize().unwrap();
    assert_eq!(manager.time_provider_at(1_000), Some(TimeProvider::Cpu));
    assert_eq!(manager.time_provider_at(999 + CPU_SYNC_TIMEOUT), Some(TimeProvider::Cpu));
    assert_eq!(manager.time_provider_at(1_000 + CPU_SYNC_TIMEOUT), None);
}

#[test]
fn the_network_source_is_asked_while_the_board_source_is_not_known_in_sync() {
    let mut manager = board_and_network();
    assert!(manager.consults_network_at(1_000));
    manager.synchronize().unwrap();
    assert!(!manager.consults_network_at(1_000));
    assert!(!manager.consults_network_at(999 + RTC_SYNC_TIMEOUT));
    assert!(manager.consults_network_at(1_000 + RTC_SYNC_TIMEOUT));

    // Without a board source the network source is asked every time.
    let mut manager = network_time_only();
    assert!(manager.consults_network_at(1_000));
    manager.synchronize().unwrap();
    assert!(manager.consults_network_at(1_000));

    // Without a network source there is none to ask.
    let mut manager = board_time_only();
    assert!(!manager.consults_network_at(1_000));
    manager.synchronize().unwrap();
    assert!(!manager.consults_network_at(1_000 + 2 * RTC_SYNC_TIMEOUT));
}

#[test]
fn set_time_stops_at_the_first_source_that_refuses() {
    let (mut cpu, _, cpu_writes) = CountingTime::new(Time { hour: 0, minute: 0, second: 0 });
    cpu.write_error = Some(TimeSourceError::NotAvailable);
    let (mut board, _, board_writes) = CountingTime::new(INITIAL_RTC_TIME);
    board.write_error = Some(TimeSourceError::SynchronizationError);
    let (network, _, network_writes) = CountingTime::new(INITIAL_NETWORK_TIME);
    let mut manager = TimeSourceManager::new(
        MockMonotonicTime { now: 0 },
        Box::new(cpu),
        Some(Box::new(board)),
        Some(Box::new(network)),
    );
    assert_eq!(manager.set_time(ELAPSED_RTC_TIME), Err(TimeSourceError::NotAvailable));
    assert_eq!((cpu_writes.get(), board_writes.get(), network_writes.get()), (1, 0, 0));
    assert!(!manager.is_synchronized());

    let (cpu, _, _) = CountingTime::new(Time { hour: 0, minute: 0, second: 0 });
    let (mut network, _, _) = CountingTime::new(INITIAL_NETWORK_TIME);
    network.write_error = Some(TimeSourceError::NotSynchronized);
    let mut manager =
        TimeSourceManager::new(MockMonotonicTime { now: 0 }, Box::new(cpu), None, Some(Box::new(network)));
    assert_eq!(manager.set_time(ELAPSED_RTC_TIME), Err(TimeSourceError::NotSynchronized));
    assert!(!manager.is_cpu_synchronized());
    // The CPU source has taken the time all the same.
    assert_eq!(manager.cpu_time.get_time(), Ok(ELAPSED_RTC_TIME));
}

/// Answers of a course in which every source gives and takes the time, with
/// the clock at four different readings.
fn all_answer() -> SyncAnswers {
    SyncAnswers {
        checked_at: 1_000,
        network_time: Ok(INITIAL_NETWORK_TIME),
        network_read_at: 1_001,
        board_time: Ok(INITIAL_RTC_TIME),
        cpu_set: Ok(()),
        cpu_set_at: 1_002,
        board_set: Ok(()),
        board_set_at: 1_003,
    }
}

const NO_MARKS: SyncMarks = SyncMarks { cpu: None, board: None, network: None };

#[test]
fn outcome_of_a_synchronization_from_the_network() {
    // Board and network: the network is read, the CPU and the board take its time.
    assert_eq!(
        outcome_of_synchronize(NO_MARKS, true, true, all_answer()),
        (SyncMarks { cpu: Some(1_002), board: Some(1_003), network: Some(1_001) }, Ok(()))
    );
    // Network alone: there is no board to take the time.
    assert_eq!(
        outcome_of_synchronize(NO_MARKS, false, true, all_answer()),
        (SyncMarks { cpu: Some(1_002), board: None, network: Some(1_001) }, Ok(()))
    );
    // The CPU refuses: the network stays marked, nothing else is.
    let answers = SyncAnswers { cpu_set: Err(TimeSourceError::NotAvailable), ..all_answer() };
    assert_eq!(
        outcome_of_synchronize(NO_MARKS, true, true, answers),
        (SyncMarks { cpu: None, board: None, network: Some(1_001) }, Err(TimeSourceError::NotAvailable))
    );
    // The board refuses: the CPU stays marked.
    let answers = SyncAnswers { board_set: Err(TimeSourceError::SynchronizationError), ..all_answer() };
    assert_eq!(
        outcome_of_synchronize(NO_MARKS, true, true, answers),
        (
            SyncMarks { cpu: Some(1_002), board: None, network: Some(1_001) },
            Err(TimeSourceError::SynchronizationError)
        )
    );
}

#[test]
fn outcome_of_a_synchronization_from_the_board() {
    // The network gives no time: it is marked as read, and the board is asked.
    let answers = SyncAnswers { network_time: Err(TimeSourceError::NotSynchronized), ..all_answer() };
    assert_eq!(
        outcome_of_synchronize(NO_MARKS, true, true, answers),
        (SyncMarks { cpu: Some(1_002), board: None, network: Some(1_001) }, Ok(()))
    );
    // A board in sync spares the network.
    let marks = SyncMarks { cpu: Some(10), board: Some(500), network: Some(400) };
    assert_eq!(
        outcome_of_synchronize(marks, true, true, all_answer()),
        (SyncMarks { cpu: Some(1_002), board: Some(500), network: Some(400) }, Ok(()))
    );
    // A board out of sync does not.
    let answers = SyncAnswers { checked_at: 500 + RTC_SYNC_TIMEOUT, ..all_answer() };
    assert_eq!(
        outcome_of_synchronize(marks, true, true, answers),
        (SyncMarks { cpu: Some(1_002), board: Some(1_003), network: Some(1_001) }, Ok(()))
    );
    // Board alone.
    assert_eq!(
        outcome_of_synchronize(NO_MARKS, true, false, all_answer()),
        (SyncMarks { cpu: Some(1_002), board: None, network: None }, Ok(()))
    );
    let answers = SyncAnswers { cpu_set: Err(TimeSourceError::NotAvailable), ..all_answer() };
    assert_eq!(
        outcome_of_synchronize(NO_MARKS, true, false, answers),
        (NO_MARKS, Err(TimeSourceError::NotAvailable))
    );
}

#[test]
fn outcome_of_a_synchronization_without_a_time() {
    let silent = SyncAnswers {
        network_time: Err(TimeSourceError::NotAvailable),
        board_time: Err(TimeSourceError::NotSynchronized),
        cpu_set: Err(TimeSourceError::SynchronizationError),
        board_set: Err(TimeSourceError::SynchronizationError),
        ..all_answer()
    };
    // That no source gave a time is no error; the network counts as read.
    assert_eq!(
        outcome_of_synchronize(NO_MARKS, true, true, silent),
        (SyncMarks { cpu: None, board: None, network: Some(1_001) }, Ok(()))
    );
    // With no source but the CPU nothing is asked and nothing changes.
    let marks = SyncMarks { cpu: Some(1), board: Some(2), network: Some(3) };
    assert_eq!(outcome_of_synchronize(marks, false, false, all_answer()), (marks, Ok(())));
    assert_eq!(outcome_of_synchronize(marks, false, false, silent), (marks, Ok(())));
}

#[test]
fn a_second_synchronization_at_the_same_reading_changes_nothing() {
    let courses = [
        all_answer(),
        SyncAnswers { network_time: Err(TimeSourceError::NotAvailable), ..all_answer() },
        SyncAnswers { board_time: Err(TimeSourceError::NotAvailable), ..all_answer() },
        SyncAnswers { cpu_set: Err(TimeSourceError::NotAvailable), ..all_answer() },
        SyncAnswers { board_set: Err(TimeSourceError::NotAvailable), ..all_answer() },
    ];
    for course in courses {
        let answers = SyncAnswers {
            checked_at: 7_000,
            network_read_at: 7_000,
            cpu_set_at: 7_000,
            board_set_at: 7_000,
            ..course
        };
        for (has_board, has_network) in [(false, false), (true, false), (false, true), (true, true)] {
            for marks in [NO_MARKS, SyncMarks { cpu: Some(6_000), board: Some(5_000), network: None }] {
                let first = outcome_of_synchronize(marks, has_board, has_network, answers);
                let second = outcome_of_synchronize(first.0, has_board, has_network, answers);
                assert_eq!(second, first);
            }
        }
    }
}

#[test]
fn outcome_of_a_setting_of_the_time() {
    let marks = SyncMarks { cpu: Some(1), board: None, network: Some(3) };
    let taken = SetAnswers { cpu_set: Ok(()), board_set: Ok(()), network_set: Ok(()), marked_at: 9 };
    let all_marked = SyncMarks { cpu: Some(9), board: Some(9), network: Some(9) };
    assert_eq!(outcome_of_set_time(marks, true, true, taken), (all_marked, Ok(())));
    assert_eq!(outcome_of_set_time(marks, false, false, taken), (all_marked, Ok(())));

    let cpu_refuses = SetAnswers { cpu_set: Err(TimeSourceError::NotAvailable), ..taken };
    assert_eq!(
        outcome_of_set_time(marks, true, true, cpu_refuses),
        (marks, Err(TimeSourceError::NotAvailable))
    );
    let board_refuses = SetAnswers { board_set: Err(TimeSourceError::SynchronizationError), ..taken };
    assert_eq!(
        outcome_of_set_time(marks, true, true, board_refuses),
        (marks, Err(TimeSourceError::SynchronizationError))
    );
    // The answer of a source that is not there does not count.
    assert_eq!(outcome_of_set_time(marks, false, true, board_refuses), (all_marked, Ok(())));
    let network_refuses = SetAnswers { network_set: Err(TimeSourceError::NotSynchronized), ..taken };
    assert_eq!(
        outcome_of_set_time(marks, true, true, network_refuses),
        (marks, Err(TimeSourceError::NotSynchronized))
    );
    assert_eq!(outcome_of_set_time(marks, true, false, network_refuses), (all_marked, Ok(())));
    // The first source that refuses gives the error.
    let all_refuse = SetAnswers {
        cpu_set: Err(TimeSourceError::NotAvailable),
        board_set: Err(TimeSourceError::SynchronizationError),
        network_set: Err(TimeSourceError::NotSynchronized),
        marked_at: 9,
    };
    assert_eq!(
        outcome_of_set_time(marks, true, true, all_refuse),
        (marks, Err(TimeSourceError::NotAvailable))
    );
}

#[test]
fn synchronize_hands_on_the_time_that_was_read() {
    let (cpu, _, _) = CountingTime::new(Time { hour: 0, minute: 0, second: 0 });
    let (board, _, _) = CountingTime::new(INITIAL_RTC_TIME);
    let (network, _, _) = CountingTime::new(INITIAL_NETWORK_TIME);
    let mut manager = TimeSourceManager::new(
        MockMonotonicTime { now: 0 },
        Box::new(cpu),
        Some(Box::new(board)),
        Some(Box::new(network)),
    );
    assert_eq!(manager.synchronize(), Ok(()));
    assert_eq!(manager.cpu_time.get_time(), Ok(INITIAL_NETWORK_TIME));
    assert_eq!(manager.board_time.as_ref().unwrap().get_time(), Ok(INITIAL_NETWORK_TIME));

    manager.board_time.as_mut().unwrap().set_time(ELAPSED_RTC_TIME).unwrap();
    assert_eq!(manager.synchronize(), Ok(()));
    assert_eq!(manager.cpu_time.get_time(), Ok(ELAPSED_RTC_TIME));
}
