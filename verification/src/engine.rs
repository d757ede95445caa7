use vstd::prelude::*;

use crate::elements::NexusSettings;
use crate::errors::{NexusConversionError, NexusMissingError, NexusMissingEventlistError, NexusMissingRunStartError, NexusPushError, RunStartError};
use crate::messages::{Alarm, FrameAssembledEventListMessage, LogData, RunStart, RunStop, SampleEnvironmentData};
use crate::nexus_file::NexusConfiguration;
use crate::run::{
    run_accepts_frame, run_alarm_step, run_completed, run_frame_step, run_log_data_step,
    run_sample_environment_step, run_started_by, run_stop_step, Run,
};
use crate::run_parameters::{run_start_valid, timestamp_in_run, RunStarted};
use crate::time::{chrono_millis_in_range, is_clock_reading, Timestamp};

verus! {

/// Why the engine refused a command.
#[derive(Clone, Copy, Debug, PartialEq, Eq, Structural)]
pub enum EngineError {
    /// A run start arrived while the newest run had not stopped.
    UnexpectedRunStart,
    /// A run stop arrived with no run to stop.
    UnexpectedRunStop,
    /// A run start whose time or name cannot be read.
    InvalidRunStart(RunStartError),
    /// A message could not be written.
    Push(NexusPushError),
}

/// Every run is well formed.
pub open spec fn runs_wf(runs: Seq<Run>) -> bool {
    forall|i: int| 0 <= i < runs.len() ==> (#[trigger] runs[i]).wf()
}

/// Only the newest run may lack a stop time.
pub open spec fn only_newest_open(runs: Seq<Run>) -> bool {
    forall|i: int| 0 <= i < runs.len() - 1 ==> (#[trigger] runs[i]).parameters.collect_until is Some
}

/// The newest run has stopped (or there is none): a new run may start.
pub open spec fn may_start(runs: Seq<Run>) -> bool {
    runs.len() == 0 || runs.last().parameters.collect_until is Some
}

/// The index of the first run that a message stamped `timestamp` belongs to.
pub open spec fn run_for(runs: Seq<Run>, timestamp: Timestamp) -> Option<int> {
    if exists|i: int| 0 <= i < runs.len() && timestamp_in_run(
        (#[trigger] runs[i]).parameters.started.collect_from,
        runs[i].parameters.collect_until,
        timestamp,
    ) {
        Some(
            choose|i: int|
                0 <= i < runs.len() && timestamp_in_run(
                    (#[trigger] runs[i]).parameters.started.collect_from,
                    runs[i].parameters.collect_until,
                    timestamp,
                ) && forall|j: int|
                    0 <= j < i ==> !timestamp_in_run(
                        (#[trigger] runs[j]).parameters.started.collect_from,
                        runs[j].parameters.collect_until,
                        timestamp,
                    ),
        )
    } else {
        None
    }
}

/// The error `RunStarted::new` gives for an invalid run-start message.
pub open spec fn run_start_error(message: RunStart) -> RunStartError {
    if message.start_time > i64::MAX {
        RunStartError::Conversion(NexusConversionError::TryFromInt)
    } else if !chrono_millis_in_range(message.start_time as i64) {
        RunStartError::CollectFrom
    } else {
        RunStartError::Missing(NexusMissingError::RunStart(NexusMissingRunStartError::RunName))
    }
}

/// `runs` with run `i` changed as `step` says, and the others kept.
pub open spec fn only_run_changed(old: Seq<Run>, new: Seq<Run>, i: int) -> bool {
    &&& new.len() == old.len()
    &&& forall|j: int| 0 <= j < old.len() && j != i ==> #[trigger] new[j] == old[j]
}

/// Keeps the runs that messages are written into, starts and stops them, and
/// lets go of runs that have completed.
pub struct NexusEngine {
    /// The directory of the files, if any.
    pub filename: Option<String>,
    /// The runs, oldest first.
    pub run_cache: Vec<Run>,
    pub nexus_settings: NexusSettings,
    pub nexus_configuration: NexusConfiguration,
}

impl NexusEngine {
    /// The runs are well formed and only the newest may lack a stop time.
    pub open spec fn wf(&self) -> bool {
        runs_wf(self.run_cache@) && only_newest_open(self.run_cache@)
    }

    /// An engine with no run and an empty configuration.
    pub fn new(filename: Option<String>, nexus_settings: NexusSettings) -> (e: Self)
        ensures
            e.wf(),
            e.filename == filename,
            e.run_cache@.len() == 0,
            e.nexus_settings == nexus_settings,
            e.nexus_configuration.configuration@ == Seq::<char>::empty(),
    {
        NexusEngine {
            filename,
            run_cache: Vec::new(),
            nexus_settings,
            nexus_configuration: NexusConfiguration::new(String::new()),
        }
    }

    /// An engine with no run and the given configuration.
    pub fn with_configuration(
        filename: Option<String>,
        nexus_settings: NexusSettings,
        nexus_configuration: NexusConfiguration,
    ) -> (e: Self)
        ensures
            e.wf(),
            e.filename == filename,
            e.run_cache@.len() == 0,
            e.nexus_settings == nexus_settings,
            e.nexus_configuration == nexus_configuration,
    {
        NexusEngine { filename, run_cache: Vec::new(), nexus_settings, nexus_configuration }
    }

    /// The number of runs held.
    pub fn get_num_cached_runs(&self) -> (n: usize)
        ensures
            n == self.run_cache@.len(),
    {
        self.run_cache.len()
    }

    /// Whether the run that a frame of `message` belongs to, if any, can take
    /// it without an overflow.
    pub fn accepts_frame(&self, message: &FrameAssembledEventListMessage) -> (r: bool)
        ensures
            r == (message.metadata.timestamp matches Some(ts) ==> (run_for(self.run_cache@, ts) matches Some(i)
                ==> run_accepts_frame(self.run_cache@[i], *message))),
    {
        match message.metadata.timestamp {
            None => true,
            Some(ts) => match self.find_run(&ts) {
                None => true,
                Some(i) => self.run_cache[i].accepts_frame(message),
            },
        }
    }

    /// The index of the first run that a message stamped `timestamp` belongs to.
    pub fn find_run(&self, timestamp: &Timestamp) -> (r: Option<usize>)
        ensures
            r matches Some(i) ==> run_for(self.run_cache@, *timestamp) == Some(i as int) && i < self.run_cache@.len(),
            r is None ==> run_for(self.run_cache@, *timestamp) is None,
    {
        let n = self.run_cache.len();
        let mut i: usize = 0;
        while i < n
            invariant
                n == self.run_cache@.len(),
                i <= n,
                forall|j: int|
                    0 <= j < i ==> !timestamp_in_run(
                        (#[trigger] self.run_cache@[j]).parameters.started.collect_from,
                        self.run_cache@[j].parameters.collect_until,
                        *timestamp,
                    ),
            decreases n - i,
        {
            if self.run_cache[i].is_message_timestamp_valid(timestamp) {
                proof {
                    let k = choose|k: int|
                        0 <= k < self.run_cache@.len() && timestamp_in_run(
                            (#[trigger] self.run_cache@[k]).parameters.started.collect_from,
                            self.run_cache@[k].parameters.collect_until,
                            *timestamp,
                        ) && forall|j: int|
                            0 <= j < k ==> !timestamp_in_run(
                                (#[trigger] self.run_cache@[j]).parameters.started.collect_from,
                                self.run_cache@[j].parameters.collect_until,
                                *timestamp,
                            );
                    assert(k == i) by {
                        if k > i {
                            assert(!timestamp_in_run(
                                self.run_cache@[i as int].parameters.started.collect_from,
                                self.run_cache@[i as int].parameters.collect_until,
                                *timestamp,
                            ));
                        }
                    }
                }
                return Some(i);
            }
            i = i + 1;
        }
        None
    }

    /// Starts a run, unless the newest run has not stopped.
    pub fn start_command(&mut self, message: &RunStart) -> (r: Result<(), EngineError>)
        requires
            old(self).wf(),
            run_start_valid(*message),
        ensures
            final(self).wf(),
            final(self).filename == old(self).filename,
            final(self).nexus_settings == old(self).nexus_settings,
            final(self).nexus_configuration == old(self).nexus_configuration,
            may_start(old(self).run_cache@) ==> r is Ok && final(self).run_cache@.len() == old(self).run_cache@.len() + 1
                && final(self).run_cache@.drop_last() == old(self).run_cache@
                && run_started_by(final(self).run_cache@.last(), *message, old(self).nexus_settings, old(self).nexus_configuration),
            !may_start(old(self).run_cache@) ==> r == Err::<(), EngineError>(EngineError::UnexpectedRunStart)
                && final(self).run_cache@ == old(self).run_cache@,
    {
        let n = self.run_cache.len();
        if n == 0 || self.run_cache[n - 1].has_run_stop() {
            let run = Run::new_run(message, &self.nexus_settings, &self.nexus_configuration);
            let ghost before = self.run_cache@;
            self.run_cache.push(run);
            proof {
                assert(self.run_cache@.drop_last() == before);
                assert forall|i: int| 0 <= i < self.run_cache@.len() implies (#[trigger] self.run_cache@[i]).wf() by {
                    if i < before.len() {
                        assert(before[i].wf());
                    }
                }
                assert forall|i: int| 0 <= i < self.run_cache@.len() - 1 implies (
                #[trigger] self.run_cache@[i]).parameters.collect_until is Some by {
                    assert(self.run_cache@[i] == before[i]);
                    if i < before.len() - 1 {
                    } else {
                        assert(i == before.len() - 1);
                    }
                }
            }
            Ok(())
        } else {
            Err(EngineError::UnexpectedRunStart)
        }
    }

    /// Starts a run, unless the newest run has not stopped or the message's
    /// start time or name cannot be read.
    pub fn try_start_command(&mut self, message: &RunStart) -> (r: Result<(), EngineError>)
        requires
            old(self).wf(),
        ensures
            final(self).wf(),
            final(self).filename == old(self).filename,
            final(self).nexus_settings == old(self).nexus_settings,
            final(self).nexus_configuration == old(self).nexus_configuration,
            !may_start(old(self).run_cache@) ==> r == Err::<(), EngineError>(EngineError::UnexpectedRunStart)
                && final(self).run_cache@ == old(self).run_cache@,
            may_start(old(self).run_cache@) && !run_start_valid(*message) ==> r == Err::<(), EngineError>(
                EngineError::InvalidRunStart(run_start_error(*message)),
            ) && final(self).run_cache@ == old(self).run_cache@,
            may_start(old(self).run_cache@) && run_start_valid(*message) ==> r is Ok && final(self).run_cache@.len()
                == old(self).run_cache@.len() + 1 && final(self).run_cache@.drop_last() == old(self).run_cache@
                && run_started_by(final(self).run_cache@.last(), *message, old(self).nexus_settings, old(self).nexus_configuration),
    {
        let n = self.run_cache.len();
        if !(n == 0 || self.run_cache[n - 1].has_run_stop()) {
            return Err(EngineError::UnexpectedRunStart);
        }
        match RunStarted::new(message) {
            Ok(_) => self.start_command(message),
            Err(e) => Err(EngineError::InvalidRunStart(e)),
        }
    }

    /// Stops the newest run; refused when there is none.
    pub fn stop_command(&mut self, message: &RunStop) -> (r: Result<(), EngineError>)
        requires
            old(self).wf(),
        ensures
            final(self).wf(),
            final(self).filename == old(self).filename,
            final(self).nexus_settings == old(self).nexus_settings,
            final(self).nexus_configuration == old(self).nexus_configuration,
            old(self).run_cache@.len() == 0 ==> r == Err::<(), EngineError>(EngineError::UnexpectedRunStop)
                && final(self).run_cache@ == old(self).run_cache@,
            old(self).run_cache@.len() > 0 ==> {
                let i = old(self).run_cache@.len() - 1;
                &&& only_run_changed(old(self).run_cache@, final(self).run_cache@, i)
                &&& exists|now: Timestamp, rp: Result<(), NexusPushError>|
                    is_clock_reading(now) && #[trigger] run_stop_step(old(self).run_cache@[i], final(self).run_cache@[i], *message, now, rp)
                        && r == match rp {
                        Ok(()) => Ok::<(), EngineError>(()),
                        Err(e) => Err::<(), EngineError>(EngineError::Push(e)),
                    }
            },
    {
        let n = self.run_cache.len();
        if n == 0 {
            return Err(EngineError::UnexpectedRunStop);
        }
        let ghost before = self.run_cache@;
        let mut last = self.run_cache.pop().unwrap();
        let now = Timestamp::now();
        let rp = last.set_stop_if_valid_at(message, now);
        self.run_cache.push(last);
        proof {
            assert(self.run_cache@.drop_last() == before.drop_last());
            assert(run_stop_step(before[n - 1], self.run_cache@[n - 1], *message, now, rp));
            assert forall|i: int| 0 <= i < self.run_cache@.len() implies (#[trigger] self.run_cache@[i]).wf() by {
                assert(before[i].wf());
            }
            assert forall|i: int| 0 <= i < self.run_cache@.len() - 1 implies (
            #[trigger] self.run_cache@[i]).parameters.collect_until is Some by {
                assert(self.run_cache@[i] == before[i]);
            }
            assert(only_run_changed(before, self.run_cache@, n - 1));
        }
        match rp {
            Ok(()) => Ok(()),
            Err(e) => Err(EngineError::Push(e)),
        }
    }

    /// Takes run `i` out, applies nothing, and is the frame for the pushes below.
    proof fn lemma_replace_keeps_wf(before: Seq<Run>, after: Seq<Run>, i: int)
        requires
            runs_wf(before),
            only_newest_open(before),
            0 <= i < before.len(),
            only_run_changed(before, after, i),
            after[i].wf(),
            after[i].parameters.collect_until == before[i].parameters.collect_until,
        ensures
            runs_wf(after),
            only_newest_open(after),
    {
        assert forall|j: int| 0 <= j < after.len() implies (#[trigger] after[j]).wf() by {
            if j != i {
                assert(before[j].wf());
            }
        }
        assert forall|j: int| 0 <= j < after.len() - 1 implies (#[trigger] after[j]).parameters.collect_until is Some by {
            if j != i {
                assert(after[j] == before[j]);
            }
            assert(before[j].parameters.collect_until is Some);
        }
    }

    /// Writes a frame's events into the first run its timestamp belongs to; a
    /// frame without a timestamp is refused, one that belongs to no run is
    /// dropped.
    #[verifier::rlimit(40)]
    pub fn process_event_list(&mut self, message: &FrameAssembledEventListMessage) -> (r: Result<(), NexusPushError>)
        requires
            old(self).wf(),
            message.metadata.timestamp matches Some(ts) ==> (run_for(old(self).run_cache@, ts) matches Some(i)
                ==> run_accepts_frame(old(self).run_cache@[i], *message)),
        ensures
            final(self).wf(),
            final(self).filename == old(self).filename,
            final(self).nexus_settings == old(self).nexus_settings,
            final(self).nexus_configuration == old(self).nexus_configuration,
            match message.metadata.timestamp {
                None => r == Err::<(), NexusPushError>(
                    NexusPushError::MissingValue(NexusMissingError::Eventlist(NexusMissingEventlistError::Timestamp)),
                ) && final(self).run_cache@ == old(self).run_cache@,
                Some(ts) => match run_for(old(self).run_cache@, ts) {
                    None => r is Ok && final(self).run_cache@ == old(self).run_cache@,
                    Some(i) => only_run_changed(old(self).run_cache@, final(self).run_cache@, i) && run_frame_step(
                        old(self).run_cache@[i],
                        final(self).run_cache@[i],
                        *message,
                        r,
                    ),
                },
            },
    {
        let timestamp = match message.metadata.timestamp {
            Some(ts) => ts,
            None => {
                return Err(
                    NexusPushError::MissingValue(NexusMissingError::Eventlist(NexusMissingEventlistError::Timestamp)),
                );
            },
        };
        match self.find_run(&timestamp) {
            Some(i) => {
                let ghost before = self.run_cache@;
                let mut run = self.run_cache.remove(i);
                let r = run.push_frame_event_list(message);
                self.run_cache.insert(i, run);
                proof {
                    assert(only_run_changed(before, self.run_cache@, i as int));
                    Self::lemma_replace_keeps_wf(before, self.run_cache@, i as int);
                }
                r
            },
            None => Ok(()),
        }
    }

    /// Writes sample-environment data into the first run its packet timestamp
    /// belongs to; data that belongs to no run is dropped.
    #[verifier::rlimit(40)]
    pub fn sample_envionment(&mut self, message: &SampleEnvironmentData) -> (r: Result<(), NexusPushError>)
        requires
            old(self).wf(),
        ensures
            final(self).wf(),
            final(self).filename == old(self).filename,
            final(self).nexus_settings == old(self).nexus_settings,
            final(self).nexus_configuration == old(self).nexus_configuration,
            match run_for(old(self).run_cache@, Timestamp { nanos: message.packet_timestamp as i128 }) {
                None => r is Ok && final(self).run_cache@ == old(self).run_cache@,
                Some(i) => only_run_changed(old(self).run_cache@, final(self).run_cache@, i)
                    && run_sample_environment_step(old(self).run_cache@[i], final(self).run_cache@[i], *message, r),
            },
    {
        let timestamp = Timestamp::from_nanos(message.packet_timestamp);
        match self.find_run(&timestamp) {
            Some(i) => {
                let ghost before = self.run_cache@;
                let mut run = self.run_cache.remove(i);
                let r = run.push_sample_environment(message);
                self.run_cache.insert(i, run);
                proof {
                    Self::lemma_replace_keeps_wf(before, self.run_cache@, i as int);
                }
                r
            },
            None => Ok(()),
        }
    }

    /// Writes a run-log message into the first run its timestamp belongs to;
    /// a message that belongs to no run is dropped.
    #[verifier::rlimit(40)]
    pub fn logdata(&mut self, message: &LogData) -> (r: Result<(), NexusPushError>)
        requires
            old(self).wf(),
        ensures
            final(self).wf(),
            final(self).filename == old(self).filename,
            final(self).nexus_settings == old(self).nexus_settings,
            final(self).nexus_configuration == old(self).nexus_configuration,
            match run_for(old(self).run_cache@, Timestamp { nanos: message.timestamp as i128 }) {
                None => r is Ok && final(self).run_cache@ == old(self).run_cache@,
                Some(i) => only_run_changed(old(self).run_cache@, final(self).run_cache@, i) && run_log_data_step(
                    old(self).run_cache@[i],
                    final(self).run_cache@[i],
                    *message,
                    r,
                ),
            },
    {
        let timestamp = Timestamp::from_nanos(message.timestamp);
        match self.find_run(&timestamp) {
            Some(i) => {
                let ghost before = self.run_cache@;
                let mut run = self.run_cache.remove(i);
                let r = run.push_log_data(message);
                self.run_cache.insert(i, run);
                proof {
                    assert(only_run_changed(before, self.run_cache@, i as int));
                    Self::lemma_replace_keeps_wf(before, self.run_cache@, i as int);
                }
                r
            },
            None => Ok(()),
        }
    }

    /// Writes an alarm into the first run its timestamp belongs to; an alarm
    /// that belongs to no run is dropped.
    #[verifier::rlimit(40)]
    pub fn alarm(&mut self, message: &Alarm) -> (r: Result<(), NexusPushError>)
        requires
            old(self).wf(),
            run_for(old(self).run_cache@, Timestamp { nanos: message.timestamp as i128 }) is Some
                ==> message.source_name is Some,
        ensures
            final(self).wf(),
            final(self).filename == old(self).filename,
            final(self).nexus_settings == old(self).nexus_settings,
            final(self).nexus_configuration == old(self).nexus_configuration,
            match run_for(old(self).run_cache@, Timestamp { nanos: message.timestamp as i128 }) {
                None => r is Ok && final(self).run_cache@ == old(self).run_cache@,
                Some(i) => only_run_changed(old(self).run_cache@, final(self).run_cache@, i) && run_alarm_step(
                    old(self).run_cache@[i],
                    final(self).run_cache@[i],
                    *message,
                    r,
                ),
            },
    {
        let timestamp = Timestamp::from_nanos(message.timestamp);
        match self.find_run(&timestamp) {
            Some(i) => {
                let ghost before = self.run_cache@;
                let mut run = self.run_cache.remove(i);
                let r = run.push_alarm(message);
                self.run_cache.insert(i, run);
                proof {
                    assert(only_run_changed(before, self.run_cache@, i as int));
                    Self::lemma_replace_keeps_wf(before, self.run_cache@, i as int);
                }
                r
            },
            None => Ok(()),
        }
    }

    /// Lets go, at time `now`, of every run that has stopped and has been
    /// unchanged for more than `delay_nanos`; the others stay, in order.
    pub fn flush_at(&mut self, now: Timestamp, delay_nanos: i64)
        requires
            old(self).wf(),
            now.in_range(),
        ensures
            final(self).wf(),
            final(self).run_cache@ == old(self).run_cache@.filter(|run: Run| !run_completed(run, now, delay_nanos)),
            final(self).filename == old(self).filename,
            final(self).nexus_settings == old(self).nexus_settings,
            final(self).nexus_configuration == old(self).nexus_configuration,
    {
        let ghost orig = self.run_cache@;
        let ghost keep = |run: Run| !run_completed(run, now, delay_nanos);
        let mut remaining: Vec<Run> = Vec::new();
        std::mem::swap(&mut remaining, &mut self.run_cache);
        assert(orig.take(0).filter(keep) == Seq::<Run>::empty()) by {
            reveal(Seq::filter);
        }
        while remaining.len() > 0
            invariant
                runs_wf(orig),
                only_newest_open(orig),
                now.in_range(),
                keep == (|run: Run| !run_completed(run, now, delay_nanos)),
                remaining@.len() <= orig.len(),
                remaining@ == orig.skip(orig.len() - remaining@.len()),
                self.run_cache@ == orig.take(orig.len() - remaining@.len()).filter(keep),
                runs_wf(self.run_cache@),
                forall|i: int|
                    0 <= i < self.run_cache@.len() && (#[trigger] self.run_cache@[i]).parameters.collect_until is None
                        ==> remaining@.len() == 0 && i == self.run_cache@.len() - 1,
                self.filename == old(self).filename,
                self.nexus_settings == old(self).nexus_settings,
                self.nexus_configuration == old(self).nexus_configuration,
            decreases remaining@.len(),
        {
            let ghost k = orig.len() - remaining@.len();
            let run = remaining.remove(0);
            proof {
                assert(run == orig[k]);
                assert(orig.take(k + 1) == orig.take(k).push(orig[k]));
                orig.take(k).lemma_filter_push(orig[k], keep);
                assert(remaining@ == orig.skip(k + 1));
                assert(run.wf());
            }
            if !run.has_completed_at(now, delay_nanos) {
                let ghost kept = self.run_cache@;
                self.run_cache.push(run);
                proof {
                    assert forall|i: int| 0 <= i < self.run_cache@.len() implies (#[trigger] self.run_cache@[i]).wf() by {
                        if i < kept.len() {
                            assert(kept[i].wf());
                        }
                    }
                    assert forall|i: int|
                        0 <= i < self.run_cache@.len() && (#[trigger] self.run_cache@[i]).parameters.collect_until is None
                            implies remaining@.len() == 0 && i == self.run_cache@.len() - 1 by {
                        if i < kept.len() {
                            assert(kept[i].parameters.collect_until is None);
                        } else {
                            if k < orig.len() - 1 {
                                assert(orig[k].parameters.collect_until is Some);
                            }
                        }
                    }
                }
            }
        }
        proof {
            assert(orig.take(orig.len() as int) == orig);
            assert forall|i: int| 0 <= i < self.run_cache@.len() - 1 implies (
            #[trigger] self.run_cache@[i]).parameters.collect_until is Some by {
                if self.run_cache@[i].parameters.collect_until is None {
                    assert(i == self.run_cache@.len() - 1);
                }
            }
        }
    }

    /// Lets go of every run that has stopped and has been unchanged for more
    /// than `delay_nanos`, as `flush_at` does at the current time.
    pub fn flush(&mut self, delay_nanos: i64)
        requires
            old(self).wf(),
        ensures
            final(self).wf(),
            exists|now: Timestamp|
                is_clock_reading(now) && final(self).run_cache@ == old(self).run_cache@.filter(
                    |run: Run| !run_completed(run, now, delay_nanos),
                ),
            final(self).filename == old(self).filename,
            final(self).nexus_settings == old(self).nexus_settings,
            final(self).nexus_configuration == old(self).nexus_configuration,
    {
        let now = Timestamp::now();
        self.flush_at(now, delay_nanos);
    }
}

} // verus!
