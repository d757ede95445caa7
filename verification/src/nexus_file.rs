use vstd::prelude::*;

use crate::elements::NexusSettings;
use crate::errors::{NexusConversionError, NexusPushError, RunStopError};
use crate::event_data::{data_accepts, data_step, Data};
use crate::logs::{runlog_step, selog_alarm_step, selog_sample_environment_step, RunLog, Selog};
use crate::messages::{Alarm, FrameAssembledEventListMessage, LogData, RunStart, RunStop, SampleEnvironmentData};
use crate::periods::{periods_accept, periods_empty, periods_step, Periods};
use crate::run_parameters::{run_start_valid, run_stop_time, RunStarted};
use crate::time::{chrono_millis_in_range, Timestamp};

verus! {

/// Configuration of the writer, recorded with the name of the creating program.
#[derive(Clone, Debug)]
pub struct NexusConfiguration {
    pub configuration: String,
}

impl NexusConfiguration {
    /// A configuration with the given text.
    pub fn new(configuration: String) -> (c: Self)
        ensures
            c.configuration == configuration,
    {
        NexusConfiguration { configuration }
    }
}

/// The `raw_data_1` entry: the parts of it that messages change.
#[derive(Clone, Debug)]
pub struct RawData {
    /// Notes of the run, from the run-start message's metadata.
    pub notes: Option<String>,
    /// The configuration of the creating program.
    pub program_configuration: Option<String>,
    pub periods: Periods,
    pub detector_1: Data,
    pub run_log: RunLog,
    pub selog: Selog,
}

/// The root of a NeXus file, as messages shape it.
#[derive(Clone, Debug)]
pub struct NXRoot {
    /// The data file name that the run-start message carries.
    pub file_name: Option<String>,
    /// When the file was created.
    pub file_time: Option<Timestamp>,
    pub raw_data_1: RawData,
}

/// The entry's groups as a new run gets them: periods, event data, run logs
/// and sample-environment logs are empty and take their chunk sizes from
/// `settings`.
pub open spec fn groups_fresh(d: RawData, settings: NexusSettings) -> bool {
    &&& periods_empty(d.periods)
    &&& d.periods.periodlist_chunk_size == settings.periodlist_chunk_size
    &&& d.detector_1.event_id@.len() == 0
    &&& d.detector_1.event_index@.len() == 0
    &&& d.detector_1.event_time_offset@.len() == 0
    &&& d.detector_1.event_time_zero@.len() == 0
    &&& d.detector_1.event_time_zero_attributes.offset is None
    &&& d.detector_1.event_period_number@.len() == 0
    &&& d.detector_1.event_pulse_height@.len() == 0
    &&& d.detector_1.framelist_chunk_size == settings.framelist_chunk_size
    &&& d.detector_1.eventlist_chunk_size == settings.eventlist_chunk_size
    &&& d.run_log.settings == settings
    &&& d.run_log.logs@.len() == 0
    &&& d.selog.settings == settings
    &&& d.selog.selogs@.len() == 0
}

impl RawData {
    /// The logs are well formed.
    pub open spec fn wf(&self) -> bool {
        self.run_log.wf() && self.selog.wf()
    }

    /// The entry before any message.
    pub fn new(settings: &NexusSettings) -> (d: Self)
        ensures
            d.wf(),
            d.notes is None,
            d.program_configuration is None,
            groups_fresh(d, *settings),
    {
        RawData {
            notes: None,
            program_configuration: None,
            periods: Periods::new(settings),
            detector_1: Data::new(settings),
            run_log: RunLog::new(settings),
            selog: Selog::new(settings),
        }
    }

    /// Records a run start: the notes, then what the run start establishes.
    pub fn handle_run_start(&mut self, message: &RunStart) -> (r: Result<RunStarted, NexusPushError>)
        ensures
            final(self).notes is Some,
            final(self).notes.unwrap()@ == match message.metadata {
                Some(m) => m@,
                None => Seq::<char>::empty(),
            },
            final(self).program_configuration == old(self).program_configuration,
            final(self).periods == old(self).periods,
            final(self).detector_1 == old(self).detector_1,
            final(self).run_log == old(self).run_log,
            final(self).selog == old(self).selog,
            r is Ok <==> run_start_valid(*message),
            r matches Ok(s) ==> s.collect_from == Timestamp::spec_from_millis(message.start_time as int)
                && s.collect_from.in_range() && s.run_name@ == message.run_name.unwrap()@,
    {
        let notes = match &message.metadata {
            Some(m) => m.clone(),
            None => String::new(),
        };
        self.notes = Some(notes);
        match RunStarted::new(message) {
            Ok(s) => Ok(s),
            Err(e) => Err(NexusPushError::RunStart(e)),
        }
    }

    /// Records the writer's configuration.
    pub fn handle_configuration(&mut self, configuration: &NexusConfiguration)
        ensures
            final(self).program_configuration == Some(configuration.configuration),
            final(self).notes == old(self).notes,
            final(self).periods == old(self).periods,
            final(self).detector_1 == old(self).detector_1,
            final(self).run_log == old(self).run_log,
            final(self).selog == old(self).selog,
    {
        self.program_configuration = Some(configuration.configuration.clone());
    }

    /// Records a frame's events: first the period counts, then the event data.
    pub fn handle_event_list(&mut self, message: &FrameAssembledEventListMessage) -> (r: Result<(), NexusPushError>)
        requires
            periods_accept(old(self).periods),
            data_accepts(old(self).detector_1, *message),
        ensures
            raw_data_event_step(*old(self), *final(self), *message, r),
    {
        let rp = self.periods.handle_message(message);
        match rp {
            Ok(()) => {},
            Err(e) => {
                assert(periods_step(old(self).periods, self.periods, *message, rp));
                return Err(e);
            },
        }
        let r = self.detector_1.handle_message(message);
        assert(periods_step(old(self).periods, self.periods, *message, rp));
        r
    }

    /// Reads the stop time of a run-stop message.
    pub fn handle_run_stop(&self, message: &RunStop) -> (r: Result<Timestamp, NexusPushError>)
        ensures
            message.stop_time > i64::MAX ==> r == Err::<Timestamp, NexusPushError>(
                NexusPushError::RunStop(RunStopError::Conversion(NexusConversionError::TryFromInt)),
            ),
            message.stop_time <= i64::MAX && !chrono_millis_in_range(message.stop_time as i64) ==> r == Err::<
                Timestamp,
                NexusPushError,
            >(NexusPushError::RunStop(RunStopError::CollectUntil)),
            message.stop_time <= i64::MAX && chrono_millis_in_range(message.stop_time as i64) ==> r == Ok::<
                Timestamp,
                NexusPushError,
            >(Timestamp::spec_from_millis(message.stop_time as int)),
            r matches Ok(t) ==> t.in_range(),
    {
        match run_stop_time(message) {
            Ok(t) => Ok(t),
            Err(e) => Err(NexusPushError::RunStop(e)),
        }
    }

    /// Records a run-log message.
    pub fn handle_log_data(&mut self, message: &LogData) -> (r: Result<(), NexusPushError>)
        requires
            old(self).wf(),
        ensures
            final(self).wf(),
            runlog_step(old(self).run_log, final(self).run_log, *message, r),
            *final(self) == (RawData { run_log: final(self).run_log, ..*old(self) }),
    {
        self.run_log.handle_message(message)
    }

    /// Records sample-environment data.
    pub fn handle_sample_environment(&mut self, message: &SampleEnvironmentData) -> (r: Result<(), NexusPushError>)
        requires
            old(self).wf(),
        ensures
            final(self).wf(),
            selog_sample_environment_step(old(self).selog, final(self).selog, *message, r),
            *final(self) == (RawData { selog: final(self).selog, ..*old(self) }),
    {
        self.selog.handle_sample_environment(message)
    }

    /// Records an alarm.
    pub fn handle_alarm(&mut self, message: &Alarm) -> (r: Result<(), NexusPushError>)
        requires
            old(self).wf(),
            message.source_name is Some,
        ensures
            final(self).wf(),
            selog_alarm_step(old(self).selog, final(self).selog, *message, r),
            *final(self) == (RawData { selog: final(self).selog, ..*old(self) }),
    {
        self.selog.handle_alarm(message)
    }
}

/// What recording a frame's events does to the entry: the periods are counted
/// and, if that succeeded, the event data written.
pub open spec fn raw_data_event_step(old: RawData, new: RawData, message: FrameAssembledEventListMessage, r: Result<(), NexusPushError>) -> bool {
    &&& new.notes == old.notes
    &&& new.program_configuration == old.program_configuration
    &&& new.run_log == old.run_log
    &&& new.selog == old.selog
    &&& exists|rp: Result<(), NexusPushError>| #[trigger] periods_step(old.periods, new.periods, message, rp) && if rp is Err {
        r == rp && new.detector_1 == old.detector_1
    } else {
        data_step(old.detector_1, new.detector_1, message, r)
    }
}

impl NXRoot {
    /// The logs are well formed.
    pub open spec fn wf(&self) -> bool {
        self.raw_data_1.wf()
    }

    /// The root before any message.
    pub fn new(settings: &NexusSettings) -> (n: Self)
        ensures
            n.wf(),
            n.file_name is None,
            n.file_time is None,
            n.raw_data_1.notes is None,
            n.raw_data_1.program_configuration is None,
            groups_fresh(n.raw_data_1, *settings),
    {
        NXRoot { file_name: None, file_time: None, raw_data_1: RawData::new(settings) }
    }

    /// Records a run start at time `now`: the data file name if the
    /// message has one, the creation time, and the entry's run-start data.
    pub fn handle_run_start_at(&mut self, message: &RunStart, now: Timestamp) -> (r: Result<RunStarted, NexusPushError>)
        ensures
            final(self).file_name == match message.filename {
                Some(f) => Some(f),
                None => old(self).file_name,
            },
            final(self).file_time == Some(now),
            final(self).raw_data_1.notes is Some,
            final(self).raw_data_1.notes.unwrap()@ == match message.metadata {
                Some(m) => m@,
                None => Seq::<char>::empty(),
            },
            final(self).raw_data_1 == (RawData { notes: final(self).raw_data_1.notes, ..old(self).raw_data_1 }),
            r is Ok <==> run_start_valid(*message),
            r matches Ok(s) ==> s.collect_from == Timestamp::spec_from_millis(message.start_time as int)
                && s.collect_from.in_range() && s.run_name@ == message.run_name.unwrap()@,
    {
        if let Some(filename) = &message.filename {
            self.file_name = Some(filename.clone());
        }
        self.file_time = Some(now);
        self.raw_data_1.handle_run_start(message)
    }
}

} // verus!
