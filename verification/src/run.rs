use vstd::prelude::*;

use crate::elements::NexusSettings;
use crate::errors::{NexusConversionError, NexusMissingError, NexusMissingEventlistError, NexusPushError, RunStopError};
use crate::event_data::data_accepts;
use crate::logs::{runlog_step, selog_alarm_step, selog_sample_environment_step};
use crate::messages::{Alarm, FrameAssembledEventListMessage, LogData, RunStart, RunStop, SampleEnvironmentData};
use crate::nexus_file::{groups_fresh, raw_data_event_step, NXRoot, NexusConfiguration, RawData};
use crate::periods::periods_accept;
use crate::run_parameters::{bound_outcome, run_start_valid, timestamp_in_run, RunParameters};
use crate::time::{chrono_millis_in_range, is_clock_reading, Timestamp};

verus! {

/// What the run keeps of each frame.
#[derive(Clone, Copy, Debug, PartialEq, Eq, Structural)]
pub struct FrameParameters {
    pub datetime: Timestamp,
}

/// A run: its time bounds, its frames, and the NeXus file it writes.
#[derive(Clone, Debug)]
pub struct Run {
    pub parameters: RunParameters,
    pub frames: Vec<FrameParameters>,
    pub nx_root: NXRoot,
}

/// The run has stopped and has not changed for more than `delay_nanos` before `now`.
pub open spec fn run_completed(run: Run, now: Timestamp, delay_nanos: i64) -> bool {
    run.parameters.collect_until is Some && now.nanos - run.parameters.last_modified.nanos > delay_nanos
}

/// The frame may be written into the run without overflow.
pub open spec fn run_accepts_frame(run: Run, message: FrameAssembledEventListMessage) -> bool {
    &&& periods_accept(run.nx_root.raw_data_1.periods)
    &&& data_accepts(run.nx_root.raw_data_1.detector_1, message)
}

/// The run's parameters after a change that may have touched only its last-modified time.
pub open spec fn parameters_kept(old: RunParameters, new: RunParameters, changed: bool) -> bool {
    &&& new.started == old.started
    &&& new.collect_until == old.collect_until
    &&& new.last_modified.in_range()
    &&& !changed ==> new.last_modified == old.last_modified
}

/// What writing a frame's events does to the run: the frame is recorded and
/// the file updated when the message has a timestamp; the run counts as
/// changed when everything was written.
pub open spec fn run_frame_step(old: Run, new: Run, message: FrameAssembledEventListMessage, r: Result<(), NexusPushError>) -> bool {
    match message.metadata.timestamp {
        None => r == Err::<(), NexusPushError>(
            NexusPushError::MissingValue(NexusMissingError::Eventlist(NexusMissingEventlistError::Timestamp)),
        ) && new == old,
        Some(ts) => {
            &&& new.frames@ == old.frames@.push(FrameParameters { datetime: ts })
            &&& new.nx_root.file_name == old.nx_root.file_name
            &&& new.nx_root.file_time == old.nx_root.file_time
            &&& raw_data_event_step(old.nx_root.raw_data_1, new.nx_root.raw_data_1, message, r)
            &&& parameters_kept(old.parameters, new.parameters, r is Ok)
        },
    }
}

/// What writing a run-log message does to the run.
pub open spec fn run_log_data_step(old: Run, new: Run, message: LogData, r: Result<(), NexusPushError>) -> bool {
    &&& new.frames == old.frames
    &&& new.nx_root == (NXRoot { raw_data_1: RawData { run_log: new.nx_root.raw_data_1.run_log, ..old.nx_root.raw_data_1 }, ..old.nx_root })
    &&& runlog_step(old.nx_root.raw_data_1.run_log, new.nx_root.raw_data_1.run_log, message, r)
    &&& parameters_kept(old.parameters, new.parameters, r is Ok)
}

/// What writing sample-environment data does to the run.
pub open spec fn run_sample_environment_step(old: Run, new: Run, message: SampleEnvironmentData, r: Result<(), NexusPushError>) -> bool {
    &&& new.frames == old.frames
    &&& new.nx_root == (NXRoot { raw_data_1: RawData { selog: new.nx_root.raw_data_1.selog, ..old.nx_root.raw_data_1 }, ..old.nx_root })
    &&& selog_sample_environment_step(old.nx_root.raw_data_1.selog, new.nx_root.raw_data_1.selog, message, r)
    &&& parameters_kept(old.parameters, new.parameters, r is Ok)
}

/// What writing an alarm does to the run.
pub open spec fn run_alarm_step(old: Run, new: Run, message: Alarm, r: Result<(), NexusPushError>) -> bool {
    &&& new.frames == old.frames
    &&& new.nx_root == (NXRoot { raw_data_1: RawData { selog: new.nx_root.raw_data_1.selog, ..old.nx_root.raw_data_1 }, ..old.nx_root })
    &&& selog_alarm_step(old.nx_root.raw_data_1.selog, new.nx_root.raw_data_1.selog, message, r)
    &&& parameters_kept(old.parameters, new.parameters, r is Ok)
}

/// What a run-stop message does to the run at time `now`: its stop time is
/// read, then the run is bounded by it.
pub open spec fn run_stop_step(old: Run, new: Run, message: RunStop, now: Timestamp, r: Result<(), NexusPushError>) -> bool {
    &&& new.frames == old.frames
    &&& new.nx_root == old.nx_root
    &&& if message.stop_time > i64::MAX {
        r == Err::<(), NexusPushError>(NexusPushError::RunStop(RunStopError::Conversion(NexusConversionError::TryFromInt)))
            && new.parameters == old.parameters
    } else if !chrono_millis_in_range(message.stop_time as i64) {
        r == Err::<(), NexusPushError>(NexusPushError::RunStop(RunStopError::CollectUntil)) && new.parameters == old.parameters
    } else {
        let (b, p) = bound_outcome(
            old.parameters,
            Timestamp::spec_from_millis(message.stop_time as int),
            now,
        );
        &&& new.parameters == p
        &&& r == match b {
            Ok(()) => Ok::<(), NexusPushError>(()),
            Err(e) => Err::<(), NexusPushError>(NexusPushError::RunStop(e)),
        }
    }
}

/// A run just started by `message`.
pub open spec fn run_started_by(
    run: Run,
    message: RunStart,
    settings: NexusSettings,
    configuration: NexusConfiguration,
) -> bool {
    &&& run.parameters.started.collect_from == Timestamp::spec_from_millis(message.start_time as int)
    &&& run.parameters.started.run_name@ == message.run_name.unwrap()@
    &&& run.parameters.collect_until is None
    &&& run.frames@.len() == 0
    &&& run.nx_root.file_name == message.filename
    &&& run.nx_root.file_time is Some
    &&& run.nx_root.raw_data_1.notes is Some
    &&& run.nx_root.raw_data_1.notes.unwrap()@ == match message.metadata {
        Some(m) => m@,
        None => Seq::<char>::empty(),
    }
    &&& run.nx_root.raw_data_1.program_configuration == Some(configuration.configuration)
    &&& groups_fresh(run.nx_root.raw_data_1, settings)
}

impl Run {
    /// Whether a frame of `message` can be written into this run without an overflow.
    pub fn accepts_frame(&self, message: &FrameAssembledEventListMessage) -> (r: bool)
        ensures
            r == run_accepts_frame(*self, *message),
    {
        self.nx_root.raw_data_1.periods.accepts_frame() && self.nx_root.raw_data_1.detector_1.accepts(message)
    }

    /// The logs are well formed and the last-modified time is in range.
    pub open spec fn wf(&self) -> bool {
        self.nx_root.wf() && self.parameters.last_modified.in_range()
    }

    /// Starts a run from a valid run-start message: the file's root records the
    /// start, then the writer's configuration.
    pub fn new_run(run_start: &RunStart, settings: &NexusSettings, configuration: &NexusConfiguration) -> (run: Self)
        requires
            run_start_valid(*run_start),
        ensures
            run.wf(),
            run_started_by(run, *run_start, *settings, *configuration),
    {
        let now = Timestamp::now();
        let mut nx_root = NXRoot::new(settings);
        let run_started = nx_root.handle_run_start_at(run_start, now).unwrap();
        nx_root.raw_data_1.handle_configuration(configuration);
        Run { parameters: RunParameters::new(run_started), frames: Vec::new(), nx_root }
    }

    /// The run's parameters.
    pub fn parameters(&self) -> (p: &RunParameters)
        ensures
            *p == self.parameters,
    {
        &self.parameters
    }

    /// The run's name.
    pub fn get_name(&self) -> (name: &String)
        ensures
            name@ == self.parameters.started.run_name@,
    {
        &self.parameters.started.run_name
    }

    /// Whether the run has a stop time.
    pub fn has_run_stop(&self) -> (r: bool)
        ensures
            r == self.parameters.collect_until is Some,
    {
        self.parameters.collect_until.is_some()
    }

    /// Reads the stop time of a run-stop message and bounds the run by it, at time `now`.
    pub fn set_stop_if_valid_at(&mut self, run_stop: &RunStop, now: Timestamp) -> (r: Result<(), NexusPushError>)
        ensures
            run_stop_step(*old(self), *final(self), *run_stop, now, r),
    {
        let collect_until = match self.nx_root.raw_data_1.handle_run_stop(run_stop) {
            Ok(t) => t,
            Err(e) => {
                return Err(e);
            },
        };
        match self.parameters.bound_at(collect_until, now) {
            Ok(()) => Ok(()),
            Err(e) => Err(NexusPushError::RunStop(e)),
        }
    }

    /// Reads the stop time of a run-stop message and bounds the run by it.
    pub fn set_stop_if_valid(&mut self, run_stop: &RunStop) -> (r: Result<(), NexusPushError>)
        requires
            old(self).wf(),
        ensures
            final(self).wf(),
            exists|now: Timestamp| is_clock_reading(now) && #[trigger] run_stop_step(*old(self), *final(self), *run_stop, now, r),
    {
        let now = Timestamp::now();
        let r = self.set_stop_if_valid_at(run_stop, now);
        assert(run_stop_step(*old(self), *final(self), *run_stop, now, r));
        r
    }

    /// Whether a message stamped `timestamp` belongs to the run.
    pub fn is_message_timestamp_valid(&self, timestamp: &Timestamp) -> (r: bool)
        ensures
            r == timestamp_in_run(self.parameters.started.collect_from, self.parameters.collect_until, *timestamp),
    {
        self.parameters.is_message_timestamp_valid(timestamp)
    }

    /// Whether, at time `now`, the run has stopped and has been unchanged for
    /// more than `delay_nanos`.
    pub fn has_completed_at(&self, now: Timestamp, delay_nanos: i64) -> (r: bool)
        requires
            self.wf(),
            now.in_range(),
        ensures
            r == run_completed(*self, now, delay_nanos),
    {
        self.parameters.collect_until.is_some() && now.nanos - self.parameters.last_modified.nanos > delay_nanos as i128
    }

    /// Writes a frame's events: the frame is recorded, its periods counted and
    /// its events written; the run then counts as changed.
    pub fn push_frame_event_list(&mut self, message: &FrameAssembledEventListMessage) -> (r: Result<(), NexusPushError>)
        requires
            old(self).wf(),
            run_accepts_frame(*old(self), *message),
        ensures
            final(self).wf(),
            run_frame_step(*old(self), *final(self), *message, r),
    {
        let datetime = match message.metadata.timestamp {
            Some(ts) => ts,
            None => {
                return Err(
                    NexusPushError::MissingValue(NexusMissingError::Eventlist(NexusMissingEventlistError::Timestamp)),
                );
            },
        };
        self.frames.push(FrameParameters { datetime });
        match self.nx_root.raw_data_1.handle_event_list(message) {
            Ok(()) => {},
            Err(e) => {
                return Err(e);
            },
        }
        self.parameters.update_last_modified();
        Ok(())
    }

    /// Writes a run-log message; the run then counts as changed.
    pub fn push_log_data(&mut self, message: &LogData) -> (r: Result<(), NexusPushError>)
        requires
            old(self).wf(),
        ensures
            final(self).wf(),
            run_log_data_step(*old(self), *final(self), *message, r),
    {
        match self.nx_root.raw_data_1.handle_log_data(message) {
            Ok(()) => {},
            Err(e) => {
                return Err(e);
            },
        }
        self.parameters.update_last_modified();
        Ok(())
    }

    /// Writes sample-environment data; the run then counts as changed.
    pub fn push_sample_environment(&mut self, message: &SampleEnvironmentData) -> (r: Result<(), NexusPushError>)
        requires
            old(self).wf(),
        ensures
            final(self).wf(),
            run_sample_environment_step(*old(self), *final(self), *message, r),
    {
        match self.nx_root.raw_data_1.handle_sample_environment(message) {
            Ok(()) => {},
            Err(e) => {
                return Err(e);
            },
        }
        self.parameters.update_last_modified();
        Ok(())
    }

    /// Writes an alarm; the run then counts as changed.
    pub fn push_alarm(&mut self, message: &Alarm) -> (r: Result<(), NexusPushError>)
        requires
            old(self).wf(),
            message.source_name is Some,
        ensures
            final(self).wf(),
            run_alarm_step(*old(self), *final(self), *message, r),
    {
        match self.nx_root.raw_data_1.handle_alarm(message) {
            Ok(()) => {},
            Err(e) => {
                return Err(e);
            },
        }
        self.parameters.update_last_modified();
        Ok(())
    }
}

} // verus!
