use vstd::prelude::*;

use crate::elements::NexusSettings;
use crate::errors::{NexusMissingAlarmError, NexusMissingError, NexusMissingSelogError, NexusPushError, NumericType};
use crate::event_data::append_all;
use crate::messages::{severity_name, Alarm, LogData, SampleEnvironmentData};
use crate::numeric::{
    log_data_values, sample_environment_values, seq_concat, seq_type, type_after, NumericLog, NumericSeq,
    NumericVector,
};

verus! {

/// The content of a numeric log-value dataset: its type and its values.
pub struct NumericModel {
    pub name: &'static str,
    pub chunk_size: usize,
    pub type_desc: Option<NumericType>,
    pub values: Option<NumericSeq>,
}

/// The view of a numeric log-value dataset.
pub open spec fn numeric_model(l: NumericLog) -> NumericModel {
    NumericModel {
        name: l.name,
        chunk_size: l.chunk_size,
        type_desc: l.type_desc,
        values: match l.values {
            Some(v) => Some(v@),
            None => None,
        },
    }
}

/// Appending the values `s`: the type is set or checked, then the values added.
pub open spec fn numeric_append(m: NumericModel, s: NumericSeq) -> (Result<(), NexusPushError>, NumericModel) {
    match type_after(m.type_desc, seq_type(s)) {
        Err(e) => (Err(NexusPushError::LogValue(e)), m),
        Ok(t) => (
            Ok(()),
            NumericModel {
                type_desc: t,
                values: Some(
                    match m.values {
                        Some(o) => seq_concat(o, s),
                        None => s,
                    },
                ),
                ..m
            },
        ),
    }
}

/// The dataset's values, when present, are of its type.
pub open spec fn numeric_consistent(l: NumericLog) -> bool {
    l.values matches Some(v) ==> l.type_desc == Some(seq_type(v@))
}

/// Sets the type from `values` and appends them.
fn append_typed(log: &mut NumericLog, values: &NumericVector) -> (r: Result<(), NexusPushError>)
    requires
        numeric_consistent(*old(log)),
    ensures
        numeric_consistent(*final(log)),
        (r, numeric_model(*final(log))) == numeric_append(numeric_model(*old(log)), values@),
        final(log).name == old(log).name,
        final(log).chunk_size == old(log).chunk_size,
{
    match log.try_set_type(values.type_descriptor()) {
        Ok(()) => {},
        Err(e) => {
            return Err(NexusPushError::LogValue(e));
        },
    }
    match log.append_numerics(values) {
        Ok(()) => Ok(()),
        Err(e) => Err(NexusPushError::LogValue(e)),
    }
}

/// A run log of one source: the time of each value and the values.
#[derive(Clone, Debug)]
pub struct Log {
    pub name: String,
    /// Nanoseconds since the epoch of each message.
    pub time: Vec<i64>,
    pub time_chunk_size: usize,
    pub value: NumericLog,
}

/// The view of a run log.
pub struct LogModel {
    pub name: Seq<char>,
    pub time_chunk_size: usize,
    pub time: Seq<i64>,
    pub value: NumericModel,
}

impl View for Log {
    type V = LogModel;

    open spec fn view(&self) -> LogModel {
        LogModel {
            name: self.name@,
            time_chunk_size: self.time_chunk_size,
            time: self.time@,
            value: numeric_model(self.value),
        }
    }
}

/// A run log receives a message: its timestamp is recorded, then its value
/// is converted and appended.
pub open spec fn log_step(m: LogModel, message: LogData) -> (Result<(), NexusPushError>, LogModel) {
    let timed = LogModel { time: m.time.push(message.timestamp), ..m };
    match log_data_values(message.value) {
        Err(e) => (Err(e), timed),
        Ok(s) => {
            let (r, v) = numeric_append(m.value, s);
            (r, LogModel { value: v, ..timed })
        },
    }
}

/// The empty run log called `name`, its datasets in chunks of `chunk_size`.
pub open spec fn empty_log(name: Seq<char>, chunk_size: usize) -> LogModel {
    LogModel {
        name,
        time_chunk_size: chunk_size,
        time: Seq::empty(),
        value: NumericModel { name: "value", chunk_size, type_desc: None, values: None },
    }
}

impl Log {
    /// An empty run log called `name`.
    pub fn new(name: String, settings: &NexusSettings) -> (l: Self)
        ensures
            l@ == empty_log(name@, settings.runloglist_chunk_size),
            l.wf(),
            l.time_chunk_size == settings.runloglist_chunk_size,
            l.value.chunk_size == settings.runloglist_chunk_size,
    {
        Log {
            name,
            time: Vec::new(),
            time_chunk_size: settings.runloglist_chunk_size,
            value: NumericLog::new("value", settings.runloglist_chunk_size),
        }
    }

    /// The value dataset is consistent with its type.
    pub open spec fn wf(&self) -> bool {
        numeric_consistent(self.value)
    }

    /// Records a run-log message.
    pub fn handle_message(&mut self, message: &LogData) -> (r: Result<(), NexusPushError>)
        requires
            old(self).wf(),
        ensures
            final(self).wf(),
            (r, final(self)@) == log_step(old(self)@, *message),
            final(self).time_chunk_size == old(self).time_chunk_size,
            final(self).value.chunk_size == old(self).value.chunk_size,
            final(self).value.name == old(self).value.name,
    {
        self.time.push(message.timestamp);
        let value = match NumericVector::try_from_log_data(&message.value) {
            Ok(v) => v,
            Err(e) => {
                return Err(e);
            },
        };
        append_typed(&mut self.value, &value)
    }
}

/// The index of the first log called `name`.
pub open spec fn log_index(logs: Seq<Log>, name: Seq<char>) -> Option<int> {
    if exists|i: int| 0 <= i < logs.len() && (#[trigger] logs[i]).name@ == name {
        Some(choose|i: int| 0 <= i < logs.len() && (#[trigger] logs[i]).name@ == name && forall|j: int| 0 <= j < i ==> (#[trigger] logs[j]).name@ != name)
    } else {
        None
    }
}

fn find_log(logs: &Vec<Log>, name: &String) -> (r: Option<usize>)
    ensures
        r matches Some(i) ==> log_index(logs@, name@) == Some(i as int) && i < logs@.len(),
        r is None ==> log_index(logs@, name@) is None,
{
    let n = logs.len();
    let mut i: usize = 0;
    while i < n
        invariant
            n == logs@.len(),
            i <= n,
            forall|j: int| 0 <= j < i ==> (#[trigger] logs@[j]).name@ != name@,
        decreases n - i,
    {
        if logs[i].name == *name {
            proof {
                assert(logs@[i as int].name@ == name@);
                let k = choose|k: int| 0 <= k < logs@.len() && (#[trigger] logs@[k]).name@ == name@ && forall|j: int| 0 <= j < k ==> (#[trigger] logs@[j]).name@ != name@;
                assert(k == i) by {
                    if k < i {
                    } else if k > i {
                        assert(logs@[i as int].name@ != name@);
                    }
                }
            }
            return Some(i);
        }
        i = i + 1;
    }
    None
}

/// What recording a run-log message does to the group, and its result.
pub open spec fn runlog_step(old: RunLog, new: RunLog, message: LogData, r: Result<(), NexusPushError>) -> bool {
    &&& new.wf()
    &&& new.settings == old.settings
    &&& match log_index(old.logs@, message.source_name@) {
        Some(i) => {
            &&& new.logs@.len() == old.logs@.len()
            &&& forall|j: int| 0 <= j < old.logs@.len() && j != i ==> #[trigger] new.logs@[j] == old.logs@[j]
            &&& (r, new.logs@[i]@) == log_step(old.logs@[i]@, message)
        },
        None => {
            let (r0, m) = log_step(empty_log(message.source_name@, old.settings.runloglist_chunk_size), message);
            &&& r == r0
            &&& r0 is Ok ==> new.logs@.len() == old.logs@.len() + 1
                && new.logs@.drop_last() == old.logs@ && new.logs@.last()@ == m
            &&& r0 is Err ==> new.logs@ == old.logs@
        }
    }
}

/// The `runlog` group: one run log per source.
#[derive(Clone, Debug)]
pub struct RunLog {
    pub settings: NexusSettings,
    pub logs: Vec<Log>,
}

impl RunLog {
    /// Every run log is well formed.
    pub open spec fn wf(&self) -> bool {
        forall|i: int| 0 <= i < self.logs@.len() ==> (#[trigger] self.logs@[i]).wf()
    }

    /// The group before any message.
    pub fn new(settings: &NexusSettings) -> (g: Self)
        ensures
            g.settings == *settings,
            g.logs@.len() == 0,
            g.wf(),
    {
        RunLog { settings: *settings, logs: Vec::new() }
    }

    /// Records a run-log message in the log of its source; a source not seen
    /// before gets a new log, kept only if the message was recorded.
    pub fn handle_message(&mut self, message: &LogData) -> (r: Result<(), NexusPushError>)
        requires
            old(self).wf(),
        ensures
            runlog_step(*old(self), *final(self), *message, r),
    {
        match find_log(&self.logs, &message.source_name) {
            Some(i) => {
                let ghost before = self.logs@;
                let mut log = self.logs.remove(i);
                let r = log.handle_message(message);
                self.logs.insert(i, log);
                proof {
                    assert forall|j: int| 0 <= j < before.len() && j != i implies #[trigger] self.logs@[j] == before[j] by {}
                }
                r
            },
            None => {
                let mut log = Log::new(message.source_name.clone(), &self.settings);
                match log.handle_message(message) {
                    Ok(()) => {},
                    Err(e) => {
                        return Err(e);
                    },
                }
                let ghost before = self.logs@;
                self.logs.push(log);
                proof {
                    assert(self.logs@.drop_last() == before);
                }
                Ok(())
            },
        }
    }
}

/// The log of one sample-environment block: alarms, and timed values.
#[derive(Clone, Debug)]
pub struct ValueLog {
    pub alarm_severity: Vec<String>,
    pub alarm_status: Vec<String>,
    pub alarm_time: Vec<i64>,
    pub time: Vec<i64>,
    pub value: NumericLog,
    pub chunk_size: usize,
}

/// The view of a value log.
pub struct ValueLogModel {
    pub alarm_severity: Seq<Seq<char>>,
    pub alarm_status: Seq<Seq<char>>,
    pub alarm_time: Seq<i64>,
    pub time: Seq<i64>,
    pub value: NumericModel,
    pub chunk_size: usize,
}

impl View for ValueLog {
    type V = ValueLogModel;

    open spec fn view(&self) -> ValueLogModel {
        ValueLogModel {
            alarm_severity: self.alarm_severity@.map_values(|s: String| s@),
            alarm_status: self.alarm_status@.map_values(|s: String| s@),
            alarm_time: self.alarm_time@,
            time: self.time@,
            chunk_size: self.chunk_size,
            value: numeric_model(self.value),
        }
    }
}

/// A value log receives sample-environment data: the timestamps are appended,
/// then the values.
pub open spec fn sample_environment_step(m: ValueLogModel, message: SampleEnvironmentData) -> (
    Result<(), NexusPushError>,
    ValueLogModel,
) {
    match message.timestamps {
        None => (Err(NexusPushError::MissingValue(NexusMissingError::Selog(NexusMissingSelogError::Times))), m),
        Some(ts) => {
            let timed = ValueLogModel { time: m.time + ts@, ..m };
            match sample_environment_values(message.values) {
                Err(e) => (Err(e), timed),
                Ok(s) => {
                    let (r, v) = numeric_append(m.value, s);
                    (r, ValueLogModel { value: v, ..timed })
                },
            }
        },
    }
}

/// A value log receives an alarm: its severity name, its message and its time
/// are appended, in that order, as long as they are present.
pub open spec fn alarm_step(m: ValueLogModel, message: Alarm) -> (Result<(), NexusPushError>, ValueLogModel) {
    match severity_name(message.severity) {
        None => (Err(NexusPushError::MissingValue(NexusMissingError::Alarm(NexusMissingAlarmError::Severity))), m),
        Some(sev) => {
            let with_severity = ValueLogModel { alarm_severity: m.alarm_severity.push(sev@), ..m };
            match message.message {
                None => (
                    Err(NexusPushError::MissingValue(NexusMissingError::Alarm(NexusMissingAlarmError::Message))),
                    with_severity,
                ),
                Some(text) => (
                    Ok(()),
                    ValueLogModel {
                        alarm_status: m.alarm_status.push(text@),
                        alarm_time: m.alarm_time.push(message.timestamp),
                        ..with_severity
                    },
                ),
            }
        },
    }
}

/// The empty value log, its datasets in chunks of `chunk_size`.
pub open spec fn empty_value_log(chunk_size: usize) -> ValueLogModel {
    ValueLogModel {
        alarm_severity: Seq::empty(),
        alarm_status: Seq::empty(),
        alarm_time: Seq::empty(),
        time: Seq::empty(),
        value: NumericModel { name: "value", chunk_size, type_desc: None, values: None },
        chunk_size,
    }
}

impl ValueLog {
    /// An empty value log.
    pub fn new(settings: &NexusSettings) -> (l: Self)
        ensures
            l@ == empty_value_log(settings.seloglist_chunk_size),
            l.wf(),
            l.chunk_size == settings.seloglist_chunk_size,
    {
        let l = ValueLog {
            alarm_severity: Vec::new(),
            alarm_status: Vec::new(),
            alarm_time: Vec::new(),
            time: Vec::new(),
            value: NumericLog::new("value", settings.seloglist_chunk_size),
            chunk_size: settings.seloglist_chunk_size,
        };
        assert(l@.alarm_severity == Seq::<Seq<char>>::empty());
        assert(l@.alarm_status == Seq::<Seq<char>>::empty());
        l
    }

    /// The value dataset is consistent with its type.
    pub open spec fn wf(&self) -> bool {
        numeric_consistent(self.value)
    }

    /// Records sample-environment data.
    pub fn handle_sample_environment(&mut self, message: &SampleEnvironmentData) -> (r: Result<(), NexusPushError>)
        requires
            old(self).wf(),
        ensures
            final(self).wf(),
            (r, final(self)@) == sample_environment_step(old(self)@, *message),
            final(self).chunk_size == old(self).chunk_size,
    {
        let timestamps = match &message.timestamps {
            Some(ts) => ts,
            None => {
                return Err(NexusPushError::MissingValue(NexusMissingError::Selog(NexusMissingSelogError::Times)));
            },
        };
        append_all(&mut self.time, timestamps);
        let value = match NumericVector::try_from_sample_environment(&message.values) {
            Ok(v) => v,
            Err(e) => {
                return Err(e);
            },
        };
        append_typed(&mut self.value, &value)
    }

    /// Records an alarm.
    pub fn handle_alarm(&mut self, message: &Alarm) -> (r: Result<(), NexusPushError>)
        requires
            old(self).wf(),
        ensures
            final(self).wf(),
            (r, final(self)@) == alarm_step(old(self)@, *message),
            final(self).chunk_size == old(self).chunk_size,
    {
        let severity = match message.severity.variant_name() {
            Some(s) => s,
            None => {
                return Err(NexusPushError::MissingValue(NexusMissingError::Alarm(NexusMissingAlarmError::Severity)));
            },
        };
        let ghost before = self.alarm_severity@;
        self.alarm_severity.push(severity.to_owned());
        assert(self.alarm_severity@.map_values(|s: String| s@) == before.map_values(|s: String| s@).push(severity@));
        let text = match &message.message {
            Some(t) => t,
            None => {
                return Err(NexusPushError::MissingValue(NexusMissingError::Alarm(NexusMissingAlarmError::Message)));
            },
        };
        let ghost before_status = self.alarm_status@;
        self.alarm_status.push(text.clone());
        assert(self.alarm_status@.map_values(|s: String| s@) == before_status.map_values(|s: String| s@).push(text@));
        self.alarm_time.push(message.timestamp);
        Ok(())
    }
}

/// A sample-environment block: the value log of one named source.
#[derive(Clone, Debug)]
pub struct SelogBlock {
    pub name: String,
    pub value_log: ValueLog,
}

/// The index of the first block called `name`.
pub open spec fn block_index(blocks: Seq<SelogBlock>, name: Seq<char>) -> Option<int> {
    if exists|i: int| 0 <= i < blocks.len() && (#[trigger] blocks[i]).name@ == name {
        Some(choose|i: int| 0 <= i < blocks.len() && (#[trigger] blocks[i]).name@ == name && forall|j: int| 0 <= j < i ==> (#[trigger] blocks[j]).name@ != name)
    } else {
        None
    }
}

fn find_block(blocks: &Vec<SelogBlock>, name: &String) -> (r: Option<usize>)
    ensures
        r matches Some(i) ==> block_index(blocks@, name@) == Some(i as int) && i < blocks@.len(),
        r is None ==> block_index(blocks@, name@) is None,
{
    let n = blocks.len();
    let mut i: usize = 0;
    while i < n
        invariant
            n == blocks@.len(),
            i <= n,
            forall|j: int| 0 <= j < i ==> (#[trigger] blocks@[j]).name@ != name@,
        decreases n - i,
    {
        if blocks[i].name == *name {
            proof {
                assert(blocks@[i as int].name@ == name@);
                let k = choose|k: int| 0 <= k < blocks@.len() && (#[trigger] blocks@[k]).name@ == name@ && forall|j: int| 0 <= j < k ==> (#[trigger] blocks@[j]).name@ != name@;
                assert(k == i) by {
                    if k < i {
                    } else if k > i {
                        assert(blocks@[i as int].name@ != name@);
                    }
                }
            }
            return Some(i);
        }
        i = i + 1;
    }
    None
}

/// What recording sample-environment data does to the group, and its result.
pub open spec fn selog_sample_environment_step(old: Selog, new: Selog, message: SampleEnvironmentData, r: Result<(), NexusPushError>) -> bool {
    &&& new.wf()
    &&& new.settings == old.settings
    &&& match block_index(old.selogs@, message.name@) {
        Some(i) => {
            &&& new.selogs@.len() == old.selogs@.len()
            &&& forall|j: int| 0 <= j < old.selogs@.len() && j != i ==> #[trigger] new.selogs@[j] == old.selogs@[j]
            &&& new.selogs@[i].name == old.selogs@[i].name
            &&& (r, new.selogs@[i].value_log@) == sample_environment_step(old.selogs@[i].value_log@, message)
        },
        None => {
            let (r0, m) = sample_environment_step(empty_value_log(old.settings.seloglist_chunk_size), message);
            &&& r == r0
            &&& r0 is Ok ==> new.selogs@.len() == old.selogs@.len() + 1
                && new.selogs@.drop_last() == old.selogs@
                && new.selogs@.last().name@ == message.name@
                && new.selogs@.last().value_log@ == m
            &&& r0 is Err ==> new.selogs@ == old.selogs@
        }
    }
}

/// What recording an alarm does to the group, and its result.
pub open spec fn selog_alarm_step(old: Selog, new: Selog, message: Alarm, r: Result<(), NexusPushError>) -> bool {
    &&& new.wf()
    &&& new.settings == old.settings
    &&& match block_index(old.selogs@, message.source_name.unwrap()@) {
        Some(i) => {
            &&& new.selogs@.len() == old.selogs@.len()
            &&& forall|j: int| 0 <= j < old.selogs@.len() && j != i ==> #[trigger] new.selogs@[j] == old.selogs@[j]
            &&& new.selogs@[i].name == old.selogs@[i].name
            &&& (r, new.selogs@[i].value_log@) == alarm_step(old.selogs@[i].value_log@, message)
        },
        None => {
            let (r0, m) = alarm_step(empty_value_log(old.settings.seloglist_chunk_size), message);
            &&& r == r0
            &&& r0 is Ok ==> new.selogs@.len() == old.selogs@.len() + 1
                && new.selogs@.drop_last() == old.selogs@
                && new.selogs@.last().name@ == message.source_name.unwrap()@
                && new.selogs@.last().value_log@ == m
            &&& r0 is Err ==> new.selogs@ == old.selogs@
        }
    }
}

/// The `selog` group: one block per sample-environment source.
#[derive(Clone, Debug)]
pub struct Selog {
    pub settings: NexusSettings,
    pub selogs: Vec<SelogBlock>,
}

impl Selog {
    /// Every block's value log is well formed.
    pub open spec fn wf(&self) -> bool {
        forall|i: int| 0 <= i < self.selogs@.len() ==> (#[trigger] self.selogs@[i]).value_log.wf()
    }

    /// The group before any message.
    pub fn new(settings: &NexusSettings) -> (g: Self)
        ensures
            g.settings == *settings,
            g.selogs@.len() == 0,
            g.wf(),
    {
        Selog { settings: *settings, selogs: Vec::new() }
    }

    /// Records sample-environment data in the block of its source; a source
    /// not seen before gets a new block, kept only if the data was recorded.
    pub fn handle_sample_environment(&mut self, message: &SampleEnvironmentData) -> (r: Result<(), NexusPushError>)
        requires
            old(self).wf(),
        ensures
            selog_sample_environment_step(*old(self), *final(self), *message, r),
    {
        match find_block(&self.selogs, &message.name) {
            Some(i) => {
                let ghost before = self.selogs@;
                let mut block = self.selogs.remove(i);
                let r = block.value_log.handle_sample_environment(message);
                self.selogs.insert(i, block);
                proof {
                    assert forall|j: int| 0 <= j < before.len() && j != i implies #[trigger] self.selogs@[j] == before[j] by {}
                }
                r
            },
            None => {
                let mut block = SelogBlock { name: message.name.clone(), value_log: ValueLog::new(&self.settings) };
                match block.value_log.handle_sample_environment(message) {
                    Ok(()) => {},
                    Err(e) => {
                        return Err(e);
                    },
                }
                let ghost before = self.selogs@;
                self.selogs.push(block);
                proof {
                    assert(self.selogs@.drop_last() == before);
                }
                Ok(())
            },
        }
    }

    /// Records an alarm in the block of its source; a source not seen before
    /// gets a new block, kept only if the alarm was recorded.
    pub fn handle_alarm(&mut self, message: &Alarm) -> (r: Result<(), NexusPushError>)
        requires
            old(self).wf(),
            message.source_name is Some,
        ensures
            selog_alarm_step(*old(self), *final(self), *message, r),
    {
        let source_name = match &message.source_name {
            Some(name) => name,
            None => {
                return Ok(());
            },
        };
        match find_block(&self.selogs, source_name) {
            Some(i) => {
                let ghost before = self.selogs@;
                let mut block = self.selogs.remove(i);
                let r = block.value_log.handle_alarm(message);
                self.selogs.insert(i, block);
                proof {
                    assert forall|j: int| 0 <= j < before.len() && j != i implies #[trigger] self.selogs@[j] == before[j] by {}
                }
                r
            },
            None => {
                let mut block = SelogBlock { name: source_name.clone(), value_log: ValueLog::new(&self.settings) };
                match block.value_log.handle_alarm(message) {
                    Ok(()) => {},
                    Err(e) => {
                        return Err(e);
                    },
                }
                let ghost before = self.selogs@;
                self.selogs.push(block);
                proof {
                    assert(self.selogs@.drop_last() == before);
                }
                Ok(())
            },
        }
    }
}


/// Law: recording sample-environment data appends its timestamps. After a
/// message with timestamps, whatever its values and whatever the result, the
/// time dataset holds the old times, in place, followed by the message's
/// timestamps in message order; the alarm datasets are untouched.
pub proof fn law_sample_environment_appends_times(
    m: ValueLogModel,
    message: SampleEnvironmentData,
    r: Result<(), NexusPushError>,
    n: ValueLogModel,
)
    requires
        (r, n) == sample_environment_step(m, message),
        message.timestamps is Some,
    ensures
        n.time.len() == m.time.len() + message.timestamps.unwrap()@.len(),
        forall|k: int| 0 <= k < m.time.len() ==> #[trigger] n.time[k] == m.time[k],
        forall|k: int|
            0 <= k < message.timestamps.unwrap()@.len() ==> n.time[m.time.len() + k]
                == #[trigger] message.timestamps.unwrap()@[k],
        n.alarm_severity == m.alarm_severity,
        n.alarm_status == m.alarm_status,
        n.alarm_time == m.alarm_time,
{
    let ts = message.timestamps.unwrap()@;
    assert forall|k: int| 0 <= k < ts.len() implies n.time[m.time.len() + k] == #[trigger] ts[k] by {
        assert((m.time + ts)[m.time.len() + k] == ts[k]);
    }
}


/// Law: recording run-log data appends its time. After any message, whatever
/// its value and the result, the log's times are the old times, in place,
/// followed by the message's timestamp.
pub proof fn law_log_data_appends_time(m: LogModel, message: LogData, r: Result<(), NexusPushError>, n: LogModel)
    requires
        (r, n) == log_step(m, message),
    ensures
        n.time.len() == m.time.len() + 1,
        forall|k: int| 0 <= k < m.time.len() ==> #[trigger] n.time[k] == m.time[k],
        n.time[m.time.len() as int] == message.timestamp,
        n.name == m.name,
{
}

/// Law: a complete alarm (with a known severity and a message) appends one
/// entry to each alarm dataset, its severity's name, its text and its time,
/// keeping the old entries in place; the time and value datasets are untouched.
pub proof fn law_alarm_appends_one_entry(m: ValueLogModel, message: Alarm, r: Result<(), NexusPushError>, n: ValueLogModel)
    requires
        (r, n) == alarm_step(m, message),
        severity_name(message.severity) is Some,
        message.message is Some,
    ensures
        r is Ok,
        n.alarm_time.len() == m.alarm_time.len() + 1,
        forall|k: int| 0 <= k < m.alarm_time.len() ==> #[trigger] n.alarm_time[k] == m.alarm_time[k],
        n.alarm_time[m.alarm_time.len() as int] == message.timestamp,
        n.alarm_status.len() == m.alarm_status.len() + 1,
        forall|k: int| 0 <= k < m.alarm_status.len() ==> #[trigger] n.alarm_status[k] == m.alarm_status[k],
        n.alarm_status[m.alarm_status.len() as int] == message.message.unwrap()@,
        n.alarm_severity.len() == m.alarm_severity.len() + 1,
        forall|k: int| 0 <= k < m.alarm_severity.len() ==> #[trigger] n.alarm_severity[k] == m.alarm_severity[k],
        n.alarm_severity[m.alarm_severity.len() as int] == severity_name(message.severity).unwrap()@,
        n.time == m.time,
        n.value == m.value,
{
}

} // verus!
