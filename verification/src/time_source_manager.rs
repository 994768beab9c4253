/* SPDX-License-Identifier: MIT
 * Copyright (c) 2023 Louis Mayencourt
 */

//! Manage multiple time sources.
//!
//! Keep the CPU time in sync with board RTC and/or network time.
//! The accuracy of the time source is assumed to be CPU < board RTC < network time.
//! The availability of time source is assumed to be CPU > board RTC > network time.
//! The power cost of fetching time is assumed to be CPU < board RTC < network time.
//!
//! To achieve high accuracy, the time sources are synchronized periodically:
//! the CPU time with the board RTC every 5 minutes, the board RTC with the
//! network time every day (if available).

use vstd::prelude::*;
use crate::time::Time;
use crate::time_monotonic::TimeMonotonic;
use crate::time_source::{TimeSource, TimeSourceError};

verus! {

/// How long a synchronization of the CPU time holds, in milliseconds.
pub const CPU_SYNC_TIMEOUT: u64 = 60 * 5 * 1000;

/// How long a synchronization of the board RTC holds, in milliseconds.
pub const RTC_SYNC_TIMEOUT: u64 = 60 * 60 * 24 * 1000;

/// When each source was last synchronized, as readings of the monotonic
/// clock; `None` for a source that never was.
#[derive(Debug, PartialEq, Clone, Copy)]
pub struct SyncMarks {
    pub cpu: Option<u64>,
    pub board: Option<u64>,
    pub network: Option<u64>,
}

/// What the clock and the sources answer in the course of one
/// synchronization. An answer counts only where the question is asked.
#[derive(Debug, PartialEq, Clone, Copy)]
pub struct SyncAnswers {
    /// The clock, when the age of the board synchronization is checked.
    pub checked_at: u64,
    /// The network source, asked for its time.
    pub network_time: Result<Time, TimeSourceError>,
    /// The clock, once the network source has answered.
    pub network_read_at: u64,
    /// The board source, asked for its time.
    pub board_time: Result<Time, TimeSourceError>,
    /// The CPU source, told to take a time.
    pub cpu_set: Result<(), TimeSourceError>,
    /// The clock, once the CPU source has taken a time.
    pub cpu_set_at: u64,
    /// The board source, told to take the network time.
    pub board_set: Result<(), TimeSourceError>,
    /// The clock, once the board source has taken the network time.
    pub board_set_at: u64,
}

/// The time that has passed at `now` since `since`; none if the clock reads
/// less than it did then.
pub open spec fn elapsed(now: u64, since: u64) -> int {
    if now >= since {
        now - since
    } else {
        0
    }
}

/// A synchronization marked at `mark` still holds at `now`: there is one, and
/// less than `timeout` has passed since.
pub open spec fn is_fresh(mark: Option<u64>, now: u64, timeout: u64) -> bool {
    mark matches Some(since) && elapsed(now, since) < timeout
}

/// Whether the board source is in sync at `now`. The board source can only be
/// out of sync where there is a network source to bring it back: `None`
/// unless both are there.
pub open spec fn board_synchronized_at(
    marks: SyncMarks,
    has_board: bool,
    has_network: bool,
    now: u64,
) -> Option<bool> {
    if has_board && has_network {
        Some(is_fresh(marks.board, now, RTC_SYNC_TIMEOUT))
    } else {
        None
    }
}

/// Whether the sources are in sync at `now`: the CPU source was synchronized
/// less than `CPU_SYNC_TIMEOUT` ago and, where there are both a board and a
/// network source, the board source less than `RTC_SYNC_TIMEOUT` ago.
pub open spec fn synchronized_at(
    marks: SyncMarks,
    has_board: bool,
    has_network: bool,
    now: u64,
) -> bool {
    &&& is_fresh(marks.cpu, now, CPU_SYNC_TIMEOUT)
    &&& board_synchronized_at(marks, has_board, has_network, now) != Some(false)
}

/// Whether a synchronization asks the network source for its time: there is
/// one, and the board source is not known to be in sync.
pub open spec fn consults_network(
    marks: SyncMarks,
    has_board: bool,
    has_network: bool,
    checked_at: u64,
) -> bool {
    has_network && board_synchronized_at(marks, has_board, has_network, checked_at) != Some(true)
}

/// The source whose time the manager hands out.
#[derive(Debug, PartialEq, Eq, Structural, Clone, Copy)]
pub enum TimeProvider {
    /// The board RTC.
    Board,
    /// The CPU clock.
    Cpu,
}

/// The source that is asked for the time at `now`: none while the sources are
/// not in sync; else the board source where there is one, which is taken to
/// be more accurate than the CPU source and to cost no more to read, and the
/// CPU source where there is none.
pub open spec fn provider_at(
    marks: SyncMarks,
    has_board: bool,
    has_network: bool,
    now: u64,
) -> Option<TimeProvider> {
    if !synchronized_at(marks, has_board, has_network, now) {
        None
    } else if has_board {
        Some(TimeProvider::Board)
    } else {
        Some(TimeProvider::Cpu)
    }
}

/// The marks with which a synchronization leaves the manager, and what it
/// returns, for given answers of the clock and the sources.
///
/// The network source is asked only where `consults_network` says so, and
/// being asked marks it. Where it gives a time, the CPU source takes that
/// time, then the board source if there is one, each marked as it succeeds;
/// a source that fails to take the time ends the synchronization with its
/// error. Otherwise the board source is asked, if there is one, and where it
/// gives a time the CPU source takes that time in the same way. That no
/// source gave a time is no error.
pub open spec fn synchronize_outcome(
    marks: SyncMarks,
    has_board: bool,
    has_network: bool,
    answers: SyncAnswers,
) -> (SyncMarks, Result<(), TimeSourceError>) {
    let asked = consults_network(marks, has_board, has_network, answers.checked_at);
    let read = if asked {
        SyncMarks { cpu: marks.cpu, board: marks.board, network: Some(answers.network_read_at) }
    } else {
        marks
    };
    let cpu_marked = SyncMarks {
        cpu: Some(answers.cpu_set_at),
        board: read.board,
        network: read.network,
    };
    if asked && answers.network_time is Ok {
        if answers.cpu_set is Err {
            (read, answers.cpu_set)
        } else if !has_board {
            (cpu_marked, Ok(()))
        } else if answers.board_set is Err {
            (cpu_marked, answers.board_set)
        } else {
            (
                SyncMarks {
                    cpu: Some(answers.cpu_set_at),
                    board: Some(answers.board_set_at),
                    network: read.network,
                },
                Ok(()),
            )
        }
    } else if has_board && answers.board_time is Ok {
        if answers.cpu_set is Err {
            (read, answers.cpu_set)
        } else {
            (cpu_marked, Ok(()))
        }
    } else {
        (read, Ok(()))
    }
}

/// The marks with which a synchronization leaves the manager, and what it
/// returns, for given answers of the clock and the sources: see
/// `synchronize_outcome`.
///
/// Where the clock read the same at every reading, a second synchronization
/// from the marks that the first one left, with sources that answer as they
/// did, leaves the same marks and returns the same: synchronizing twice in
/// immediate succession changes nothing, and so leaves the sources in sync
/// exactly if they were.
pub fn outcome_of_synchronize(
    marks: SyncMarks,
    has_board: bool,
    has_network: bool,
    answers: SyncAnswers,
) -> (r: (SyncMarks, Result<(), TimeSourceError>))
    ensures
        r == synchronize_outcome(marks, has_board, has_network, answers),
        forall|now: u64| #[trigger]
            all_read_at(answers, now) ==> synchronize_outcome(r.0, has_board, has_network, answers)
                == r,
{
    proof {
        assert forall|now: u64| #[trigger] all_read_at(answers, now) implies synchronize_outcome(
            synchronize_outcome(marks, has_board, has_network, answers).0,
            has_board,
            has_network,
            answers,
        ) == synchronize_outcome(marks, has_board, has_network, answers) by {
            lemma_synchronize_idempotent(marks, has_board, has_network, answers, now);
        }
    }
    let board_in_sync = has_board && has_network && still_holds(
        marks.board,
        answers.checked_at,
        RTC_SYNC_TIMEOUT,
    );
    let asked = has_network && !board_in_sync;
    let read = if asked {
        SyncMarks { cpu: marks.cpu, board: marks.board, network: Some(answers.network_read_at) }
    } else {
        marks
    };
    let given = if asked && answers.network_time.is_ok() {
        // The network gave a time: the CPU takes it, then the board.
        true
    } else {
        has_board && answers.board_time.is_ok()
    };
    if !given {
        return (read, Ok(()));
    }
    match answers.cpu_set {
        Err(error) => (read, Err(error)),
        Ok(()) => {
            let cpu_marked = SyncMarks {
                cpu: Some(answers.cpu_set_at),
                board: read.board,
                network: read.network,
            };
            if !(asked && answers.network_time.is_ok()) || !has_board {
                (cpu_marked, Ok(()))
            } else {
                match answers.board_set {
                    Err(error) => (cpu_marked, Err(error)),
                    Ok(()) => (
                        SyncMarks {
                            cpu: Some(answers.cpu_set_at),
                            board: Some(answers.board_set_at),
                            network: read.network,
                        },
                        Ok(()),
                    ),
                }
            }
        },
    }
}

/// The clock read the same at every reading of a synchronization: no time
/// elapsed in its course.
pub open spec fn all_read_at(answers: SyncAnswers, now: u64) -> bool {
    &&& answers.checked_at == now
    &&& answers.network_read_at == now
    &&& answers.cpu_set_at == now
    &&& answers.board_set_at == now
}

/// Manager of a CPU time source and, where the board has them, of a board RTC
/// and a network time source.
pub struct TimeSourceManager<T: TimeMonotonic> {
    // The time sources are public so that a caller can reach the sources it
    // handed over.
    pub time_monotonic: T,
    pub cpu_time: Box<dyn TimeSource>,
    pub board_time: Option<Box<dyn TimeSource>>,
    pub network_time: Option<Box<dyn TimeSource>>,
    last_cpu_sync: Option<u64>,
    last_board_sync: Option<u64>,
    last_network_sync: Option<u64>,
}

impl<T: TimeMonotonic> TimeSourceManager<T> {
    /// When each source was last synchronized.
    pub closed spec fn marks(&self) -> SyncMarks {
        SyncMarks {
            cpu: self.last_cpu_sync,
            board: self.last_board_sync,
            network: self.last_network_sync,
        }
    }

    /// Whether the manager has a board source.
    pub closed spec fn has_board(&self) -> bool {
        self.board_time is Some
    }

    /// Whether the manager has a network source.
    pub closed spec fn has_network(&self) -> bool {
        self.network_time is Some
    }

    /// A manager of the given sources, none of them synchronized yet.
    pub fn new(
        time_monotonic: T,
        cpu_time: Box<dyn TimeSource>,
        board_time: Option<Box<dyn TimeSource>>,
        network_time: Option<Box<dyn TimeSource>>,
    ) -> (manager: Self)
        ensures
            manager.marks() == (SyncMarks { cpu: None, board: None, network: None }),
            manager.has_board() == board_time is Some,
            manager.has_network() == network_time is Some,
    {
        Self {
            time_monotonic,
            cpu_time,
            board_time,
            network_time,
            last_cpu_sync: None,
            last_board_sync: None,
            last_network_sync: None,
        }
    }

    /// Whether the sources are in sync when the clock reads `now`.
    pub fn is_synchronized_at(&self, now: u64) -> (synchronized: bool)
        ensures
            synchronized == synchronized_at(
                self.marks(),
                self.has_board(),
                self.has_network(),
                now,
            ),
    {
        let cpu_synched = self.is_cpu_synchronized_at(now);
        if let Some(board_synched) = self.is_board_synchronized_at(now) {
            return cpu_synched && board_synched;
        }
        cpu_synched
    }

    /// Whether the CPU source is in sync when the clock reads `now`.
    pub fn is_cpu_synchronized_at(&self, now: u64) -> (synchronized: bool)
        ensures
            synchronized == is_fresh(self.marks().cpu, now, CPU_SYNC_TIMEOUT),
    {
        still_holds(self.last_cpu_sync, now, CPU_SYNC_TIMEOUT)
    }

    /// Whether the board source is in sync when the clock reads `now`; `None`
    /// unless there are both a board and a network source.
    pub fn is_board_synchronized_at(&self, now: u64) -> (synchronized: Option<bool>)
        ensures
            synchronized == board_synchronized_at(
                self.marks(),
                self.has_board(),
                self.has_network(),
                now,
            ),
    {
        //board time can only be out of sync if network time and board time is available
        if self.network_time.is_none() || self.board_time.is_none() {
            return None;
        }
        Some(still_holds(self.last_board_sync, now, RTC_SYNC_TIMEOUT))
    }

    /// Take the marks and the result that a synchronization has for the
    /// given answers: see `outcome_of_synchronize`.
    fn conclude_synchronize(&mut self, answers: SyncAnswers) -> (r: Result<(), TimeSourceError>)
        ensures
            final(self).has_board() == old(self).has_board(),
            final(self).has_network() == old(self).has_network(),
            (final(self).marks(), r) == synchronize_outcome(
                old(self).marks(),
                old(self).has_board(),
                old(self).has_network(),
                answers,
            ),
    {
        let marks = SyncMarks {
            cpu: self.last_cpu_sync,
            board: self.last_board_sync,
            network: self.last_network_sync,
        };
        let (marks, result) = outcome_of_synchronize(
            marks,
            self.board_time.is_some(),
            self.network_time.is_some(),
            answers,
        );
        self.last_cpu_sync = marks.cpu;
        self.last_board_sync = marks.board;
        self.last_network_sync = marks.network;
        result
    }

    /// Whether a synchronization that starts when the clock reads `now`
    /// asks the network source for its time: see `consults_network`.
    pub fn consults_network_at(&self, now: u64) -> (asked: bool)
        ensures
            asked == consults_network(self.marks(), self.has_board(), self.has_network(), now),
    {
        match self.is_board_synchronized_at(now) {
            Some(true) => false,
            _ => self.network_time.is_some(),
        }
    }

    /// The source that is asked for the time when the clock reads `now`:
    /// see `provider_at`.
    pub fn time_provider_at(&self, now: u64) -> (provider: Option<TimeProvider>)
        ensures
            provider == provider_at(self.marks(), self.has_board(), self.has_network(), now),
    {
        if !self.is_synchronized_at(now) {
            None
        } else if self.board_time.is_some() {
            Some(TimeProvider::Board)
        } else {
            Some(TimeProvider::Cpu)
        }
    }

    /// Whether the sources are in sync now: `is_synchronized_at` for a
    /// reading of the clock.
    pub fn is_synchronized(&self) -> (synchronized: bool)
        ensures
            exists|now: u64|
                synchronized == synchronized_at(
                    self.marks(),
                    self.has_board(),
                    self.has_network(),
                    now,
                ),
    {
        let now: u64 = self.time_monotonic.now();
        self.is_synchronized_at(now)
    }

    /// Whether the CPU source is in sync now: `is_cpu_synchronized_at` for a
    /// reading of the clock.
    pub fn is_cpu_synchronized(&self) -> (synchronized: bool)
        ensures
            exists|now: u64| synchronized == is_fresh(self.marks().cpu, now, CPU_SYNC_TIMEOUT),
    {
        // The clock is handed in, not read from the platform, so that the
        // manager can be exercised with a clock of the caller's own.
        let now: u64 = self.time_monotonic.now();
        self.is_cpu_synchronized_at(now)
    }

    /// Whether the board source is in sync now: `is_board_synchronized_at`
    /// for a reading of the clock.
    pub fn is_board_synchronized(&self) -> (synchronized: Option<bool>)
        ensures
            exists|now: u64|
                synchronized == board_synchronized_at(
                    self.marks(),
                    self.has_board(),
                    self.has_network(),
                    now,
                ),
    {
        let now: u64 = self.time_monotonic.now();
        self.is_board_synchronized_at(now)
    }
}

/// Whether a synchronization marked at `mark` still holds at `now`.
pub fn still_holds(mark: Option<u64>, now: u64, timeout: u64) -> (holds: bool)
    ensures
        holds == is_fresh(mark, now, timeout),
{
    match mark {
        Some(since) => {
            let elapsed: u64 = if now >= since {
                now - since
            } else {
                0
            };
            elapsed < timeout
        },
        None => false,
    }
}

impl<T: TimeMonotonic> TimeSource for TimeSourceManager<T> {
    /// Bring the CPU source up to date from the most accurate source that
    /// answers, reading the network source only while the board source is
    /// not known to be in sync. The answers of the clock and of the sources
    /// are gathered in a `SyncAnswers`; the time that is handed to a source
    /// is the one that stands in that record, and the marks and the result
    /// are those that `outcome_of_synchronize` gives for it.
    ///
    /// # Errors
    /// The error of a source that failed to take a time. That no source
    /// gave a time is no error.
    fn synchronize(&mut self) -> (r: Result<(), TimeSourceError>)
        ensures
            final(self).has_board() == old(self).has_board(),
            final(self).has_network() == old(self).has_network(),
            exists|answers: SyncAnswers|
                (final(self).marks(), r) == synchronize_outcome(
                    old(self).marks(),
                    old(self).has_board(),
                    old(self).has_network(),
                    answers,
                ),
    {
        let checked_at: u64 = self.time_monotonic.now();
        let mut answers = SyncAnswers {
            checked_at,
            network_time: Err(TimeSourceError::NotAvailable),
            network_read_at: 0,
            board_time: Err(TimeSourceError::NotAvailable),
            cpu_set: Ok(()),
            cpu_set_at: 0,
            board_set: Ok(()),
            board_set_at: 0,
        };
        // Only read network time if available and needed
        if self.consults_network_at(checked_at) {
            // Try to read the network time if out of sync
            if let Some(network) = &self.network_time {
                answers.network_time = network.get_time();
                // Network time is "read only", so reading it count as a sync
                answers.network_read_at = self.time_monotonic.now();
            }
            if let Ok(network_time) = answers.network_time {
                // Synchronize all time source with network time
                answers.cpu_set = self.cpu_time.set_time(network_time);
                if answers.cpu_set.is_ok() {
                    answers.cpu_set_at = self.time_monotonic.now();
                    if let Some(rtc) = self.board_time.as_mut() {
                        answers.board_set = rtc.set_time(network_time);
                        if answers.board_set.is_ok() {
                            answers.board_set_at = self.time_monotonic.now();
                        }
                    }
                }
                return self.conclude_synchronize(answers);
            }
        }
        // Try to read the board time

        if let Some(rtc) = &self.board_time {
            answers.board_time = rtc.get_time();
        }
        if let Ok(board_time) = answers.board_time {
            answers.cpu_set = self.cpu_time.set_time(board_time);
            if answers.cpu_set.is_ok() {
                answers.cpu_set_at = self.time_monotonic.now();
            }
        }
        self.conclude_synchronize(answers)
    }

    /// The time of the board source where there is one, else of the CPU
    /// source, as long as the sources are in sync.
    ///
    /// # Errors
    /// `NotSynchronized` while the sources are not in sync; else whatever
    /// the source answers.
    fn get_time(&self) -> (r: Result<Time, TimeSourceError>)
        ensures
            r == Err::<Time, TimeSourceError>(TimeSourceError::NotSynchronized) || exists|now: u64|
                synchronized_at(self.marks(), self.has_board(), self.has_network(), now),
    {
        let now: u64 = self.time_monotonic.now();
        match (self.time_provider_at(now), &self.board_time) {
            (Some(TimeProvider::Board), Some(rtc)) => rtc.get_time(),
            (Some(_), _) => self.cpu_time.get_time(),
            (None, _) => Err(TimeSourceError::NotSynchronized),
        }
    }

    /// Set all time sources with the given time, and mark them all as
    /// synchronized at one reading of the clock. The answers of the sources
    /// and of the clock are gathered in a `SetAnswers`; the marks and the
    /// result are those that `outcome_of_set_time` gives for it.
    ///
    /// # Errors
    /// The error of the first source that failed to take the time, in the
    /// order CPU, board, network; the marks are then as they were.
    fn set_time(&mut self, now: Time) -> (r: Result<(), TimeSourceError>)
        ensures
            final(self).has_board() == old(self).has_board(),
            final(self).has_network() == old(self).has_network(),
            r is Err ==> final(self).marks() == old(self).marks(),
            r is Ok ==> exists|at: u64|
                final(self).marks() == (SyncMarks {
                    cpu: Some(at),
                    board: Some(at),
                    network: Some(at),
                }),
            exists|answers: SetAnswers|
                (final(self).marks(), r) == set_time_outcome(
                    old(self).marks(),
                    old(self).has_board(),
                    old(self).has_network(),
                    answers,
                ),
    {
        let mut answers = SetAnswers {
            cpu_set: Ok(()),
            board_set: Ok(()),
            network_set: Ok(()),
            marked_at: 0,
        };
        answers.cpu_set = self.cpu_time.set_time(now);
        if answers.cpu_set.is_ok() {
            if let Some(rtc) = self.board_time.as_mut() {
                answers.board_set = rtc.set_time(now);
            }
            if answers.board_set.is_ok() {
                if let Some(network) = self.network_time.as_mut() {
                    answers.network_set = network.set_time(now);
                }
                if answers.network_set.is_ok() {
                    answers.marked_at = self.time_monotonic.now();
                }
            }
        }
        let marks = SyncMarks {
            cpu: self.last_cpu_sync,
            board: self.last_board_sync,
            network: self.last_network_sync,
        };
        let (marks, result) = outcome_of_set_time(
            marks,
            self.board_time.is_some(),
            self.network_time.is_some(),
            answers,
        );
        self.last_cpu_sync = marks.cpu;
        self.last_board_sync = marks.board;
        self.last_network_sync = marks.network;
        proof {
            assert((self.marks(), result) == set_time_outcome(
                old(self).marks(),
                old(self).has_board(),
                old(self).has_network(),
                answers,
            ));
        }
        result
    }
}

/// What the sources and the clock answer in the course of one setting of the
/// time. An answer counts only where the question is asked.
#[derive(Debug, PartialEq, Clone, Copy)]
pub struct SetAnswers {
    /// The CPU source, told to take the time.
    pub cpu_set: Result<(), TimeSourceError>,
    /// The board source, told to take the time.
    pub board_set: Result<(), TimeSourceError>,
    /// The network source, told to take the time.
    pub network_set: Result<(), TimeSourceError>,
    /// The clock, once every source has taken the time.
    pub marked_at: u64,
}

/// The marks with which a setting of the time leaves the manager, and what it
/// returns, for given answers of the sources and the clock.
///
/// The CPU source is told first, then the board source and the network
/// source where there are any. The first source that fails to take the time
/// ends the setting with its error, and the marks stay as they were. Where
/// every source has taken the time, all three are marked at one reading of
/// the clock.
pub open spec fn set_time_outcome(
    marks: SyncMarks,
    has_board: bool,
    has_network: bool,
    answers: SetAnswers,
) -> (SyncMarks, Result<(), TimeSourceError>) {
    if answers.cpu_set is Err {
        (marks, answers.cpu_set)
    } else if has_board && answers.board_set is Err {
        (marks, answers.board_set)
    } else if has_network && answers.network_set is Err {
        (marks, answers.network_set)
    } else {
        (
            SyncMarks {
                cpu: Some(answers.marked_at),
                board: Some(answers.marked_at),
                network: Some(answers.marked_at),
            },
            Ok(()),
        )
    }
}

/// The marks with which a setting of the time leaves the manager, and what it
/// returns, for given answers of the sources and the clock: see
/// `set_time_outcome`.
pub fn outcome_of_set_time(
    marks: SyncMarks,
    has_board: bool,
    has_network: bool,
    answers: SetAnswers,
) -> (r: (SyncMarks, Result<(), TimeSourceError>))
    ensures
        r == set_time_outcome(marks, has_board, has_network, answers),
{
    if let Err(error) = answers.cpu_set {
        return (marks, Err(error));
    }
    if has_board {
        if let Err(error) = answers.board_set {
            return (marks, Err(error));
        }
    }
    if has_network {
        if let Err(error) = answers.network_set {
            return (marks, Err(error));
        }
    }
    let at = Some(answers.marked_at);
    (SyncMarks { cpu: at, board: at, network: at }, Ok(()))
}

/// After a setting of the time that succeeded, the sources are in sync at
/// the reading of the clock at which they were marked.
pub proof fn lemma_set_time_synchronizes(
    marks: SyncMarks,
    has_board: bool,
    has_network: bool,
    answers: SetAnswers,
)
    requires
        set_time_outcome(marks, has_board, has_network, answers).1 is Ok,
    ensures
        synchronized_at(
            set_time_outcome(marks, has_board, has_network, answers).0,
            has_board,
            has_network,
            answers.marked_at,
        ),
{
}

} // verus!

verus! {

/// Synchronizing is idempotent while no time elapses: a second
/// synchronization, at the same reading of the clock and with sources that
/// answer as they did the first time, leaves every mark where the first one
/// put it and returns what the first one returned.
pub proof fn lemma_synchronize_idempotent(
    marks: SyncMarks,
    has_board: bool,
    has_network: bool,
    answers: SyncAnswers,
    now: u64,
)
    requires
        all_read_at(answers, now),
    ensures
        ({
            let first = synchronize_outcome(marks, has_board, has_network, answers);
            synchronize_outcome(first.0, has_board, has_network, answers) == first
        }),
{
}

/// Synchronizing twice in immediate succession leaves `is_synchronized`
/// unchanged: with no time elapsing and sources that answer as they did the
/// first time, the sources are in sync after the second synchronization
/// exactly if they were after the first.
pub proof fn lemma_second_synchronize_keeps_status(
    marks: SyncMarks,
    has_board: bool,
    has_network: bool,
    answers: SyncAnswers,
    now: u64,
)
    requires
        all_read_at(answers, now),
    ensures
        ({
            let first = synchronize_outcome(marks, has_board, has_network, answers).0;
            let second = synchronize_outcome(first, has_board, has_network, answers).0;
            synchronized_at(second, has_board, has_network, now) == synchronized_at(
                first,
                has_board,
                has_network,
                now,
            )
        }),
{
    lemma_synchronize_idempotent(marks, has_board, has_network, answers, now);
}

/// Sources that are in sync stay in sync through a synchronization in whose
/// course no time elapses, whatever the sources answer.
pub proof fn lemma_synchronize_keeps_synchronized(
    marks: SyncMarks,
    has_board: bool,
    has_network: bool,
    answers: SyncAnswers,
    now: u64,
)
    requires
        all_read_at(answers, now),
        synchronized_at(marks, has_board, has_network, now),
    ensures
        synchronized_at(
            synchronize_outcome(marks, has_board, has_network, answers).0,
            has_board,
            has_network,
            now,
        ),
{
}

/// Once the network time was taken by the CPU and a board source, the next
/// synchronization does not ask the network source again while the board
/// synchronization holds: the second of two synchronizations in immediate
/// succession takes the branch of the fresh board source.
pub proof fn lemma_fresh_board_spares_network(
    marks: SyncMarks,
    has_network: bool,
    answers: SyncAnswers,
    now: u64,
)
    requires
        all_read_at(answers, now),
        consults_network(marks, true, has_network, now),
        answers.network_time is Ok,
        synchronize_outcome(marks, true, has_network, answers).1 is Ok,
    ensures
        !consults_network(
            synchronize_outcome(marks, true, has_network, answers).0,
            true,
            has_network,
            now,
        ),
        synchronized_at(
            synchronize_outcome(marks, true, has_network, answers).0,
            true,
            has_network,
            now,
        ),
{
}

/// A manager whose CPU source was never synchronized is not in sync,
/// whatever the clock reads.
pub proof fn lemma_never_synchronized(marks: SyncMarks, has_board: bool, has_network: bool, now: u64)
    requires
        marks.cpu is None,
    ensures
        !synchronized_at(marks, has_board, has_network, now),
{
}

/// With a board source alone, a synchronization in which the board source
/// gives its time and the CPU source takes it leaves the sources in sync at
/// the moment the CPU source is marked.
pub proof fn lemma_board_only_synchronizes(marks: SyncMarks, answers: SyncAnswers)
    requires
        answers.board_time is Ok,
        answers.cpu_set is Ok,
    ensures
        synchronize_outcome(marks, true, false, answers).1 is Ok,
        synchronized_at(
            synchronize_outcome(marks, true, false, answers).0,
            true,
            false,
            answers.cpu_set_at,
        ),
{
}

/// A synchronization that is older than its timeout no longer holds.
pub proof fn lemma_stale_after_timeout(mark: Option<u64>, now: u64, timeout: u64)
    requires
        mark matches Some(since) && now >= since && now - since >= timeout,
    ensures
        !is_fresh(mark, now, timeout),
{
}

} // verus!
