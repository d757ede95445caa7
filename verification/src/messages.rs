use vstd::prelude::*;

use crate::time::Timestamp;

verus! {

/// Identifier of a digitiser.
pub type DigitizerId = u8;

/// Identifier of a detector channel.
pub type Channel = u32;

/// Time of an event, relative to the start of its frame.
pub type Time = u32;

/// Pulse height of an event.
pub type Intensity = u16;

/// Number of a frame.
pub type FrameNumber = u32;

/// Metadata of a frame, as the digitisers report it.
///
/// Two metadata describe the same frame when they agree in everything but the
/// veto flags (see `same_frame`); `==` on this type is that relation.
#[derive(Clone, Copy, Debug)]
pub struct FrameMetadata {
    pub timestamp: Timestamp,
    pub period_number: u64,
    pub protons_per_pulse: u8,
    pub running: bool,
    pub frame_number: u32,
    pub veto_flags: u16,
}

/// The two metadata describe the same frame: equal in every field but `veto_flags`.
pub open spec fn same_frame(a: FrameMetadata, b: FrameMetadata) -> bool {
    &&& a.timestamp == b.timestamp
    &&& a.period_number == b.period_number
    &&& a.protons_per_pulse == b.protons_per_pulse
    &&& a.running == b.running
    &&& a.frame_number == b.frame_number
}

impl PartialEq for FrameMetadata {
    fn eq(&self, other: &Self) -> (r: bool) {
        self.timestamp.nanos == other.timestamp.nanos
            && self.period_number == other.period_number
            && self.protons_per_pulse == other.protons_per_pulse
            && self.running == other.running
            && self.frame_number == other.frame_number
    }
}

impl vstd::std_specs::cmp::PartialEqSpecImpl for FrameMetadata {
    open spec fn obeys_eq_spec() -> bool {
        true
    }

    open spec fn eq_spec(&self, other: &Self) -> bool {
        same_frame(*self, *other)
    }
}

/// Metadata of a frame-assembled event list; the timestamp may be absent.
#[derive(Clone, Copy, Debug, PartialEq, Eq, Structural)]
pub struct EventListMetadata {
    pub timestamp: Option<Timestamp>,
    pub period_number: u64,
    pub protons_per_pulse: u8,
    pub running: bool,
    pub frame_number: u32,
    pub veto_flags: u16,
}

/// The events of one frame, gathered from all digitisers.
#[derive(Clone, Debug)]
pub struct FrameAssembledEventListMessage {
    pub metadata: EventListMetadata,
    pub channel: Option<Vec<Channel>>,
    pub time: Option<Vec<Time>>,
    pub voltage: Option<Vec<Intensity>>,
}

/// A run-start command.
#[derive(Clone, Debug)]
pub struct RunStart {
    /// Milliseconds since the UNIX epoch.
    pub start_time: u64,
    pub run_name: Option<String>,
    pub instrument_name: Option<String>,
    pub filename: Option<String>,
    pub metadata: Option<String>,
}

/// A run-stop command.
#[derive(Clone, Debug)]
pub struct RunStop {
    /// Milliseconds since the UNIX epoch.
    pub stop_time: u64,
    pub run_name: Option<String>,
}

/// The value of a run-log message; each scalar kind may be absent from the
/// message although its tag is set. Floating-point values are carried as their
/// IEEE-754 bit patterns.
#[derive(Clone, Copy, Debug, PartialEq, Eq, Structural)]
pub enum LogDataValue {
    Byte(Option<i8>),
    Short(Option<i16>),
    Int(Option<i32>),
    Long(Option<i64>),
    UByte(Option<u8>),
    UShort(Option<u16>),
    UInt(Option<u32>),
    ULong(Option<u64>),
    Float(Option<u32>),
    Double(Option<u64>),
    /// Any other kind of value (arrays, or none).
    Other,
}

/// A run-log message.
#[derive(Clone, Debug)]
pub struct LogData {
    pub source_name: String,
    /// Nanoseconds since the UNIX epoch.
    pub timestamp: i64,
    pub value: LogDataValue,
}

/// The values of a sample-environment message; each array may be absent from
/// the message although its tag is set. Floating-point values are carried as
/// their IEEE-754 bit patterns.
#[derive(Clone, Debug)]
pub enum SampleEnvironmentValues {
    Int8Array(Option<Vec<i8>>),
    Int16Array(Option<Vec<i16>>),
    Int32Array(Option<Vec<i32>>),
    Int64Array(Option<Vec<i64>>),
    UInt8Array(Option<Vec<u8>>),
    UInt16Array(Option<Vec<u16>>),
    UInt32Array(Option<Vec<u32>>),
    UInt64Array(Option<Vec<u64>>),
    FloatArray(Option<Vec<u32>>),
    DoubleArray(Option<Vec<u64>>),
    /// Any other kind of value, or none.
    Other,
}

/// A sample-environment message.
#[derive(Clone, Debug)]
pub struct SampleEnvironmentData {
    pub name: String,
    /// Nanoseconds since the UNIX epoch.
    pub packet_timestamp: i64,
    pub timestamps: Option<Vec<i64>>,
    pub values: SampleEnvironmentValues,
}

/// Severity of an alarm.
#[derive(Clone, Copy, Debug, PartialEq, Eq, Structural)]
pub enum AlarmSeverity {
    Normal,
    Minor,
    Major,
    Invalid,
    /// A severity code that the schema does not name.
    Unknown(i16),
}

/// The name of each severity; unnamed codes have none.
pub open spec fn severity_name(s: AlarmSeverity) -> Option<&'static str> {
    match s {
        AlarmSeverity::Normal => Some("OK"),
        AlarmSeverity::Minor => Some("MINOR"),
        AlarmSeverity::Major => Some("MAJOR"),
        AlarmSeverity::Invalid => Some("INVALID"),
        AlarmSeverity::Unknown(_) => None,
    }
}

impl AlarmSeverity {
    /// The name of the severity, if the schema names it.
    pub fn variant_name(&self) -> (r: Option<&'static str>)
        ensures
            r == severity_name(*self),
    {
        match self {
            AlarmSeverity::Normal => Some("OK"),
            AlarmSeverity::Minor => Some("MINOR"),
            AlarmSeverity::Major => Some("MAJOR"),
            AlarmSeverity::Invalid => Some("INVALID"),
            AlarmSeverity::Unknown(_) => None,
        }
    }
}

/// An alarm message.
#[derive(Clone, Debug)]
pub struct Alarm {
    pub source_name: Option<String>,
    /// Nanoseconds since the UNIX epoch.
    pub timestamp: i64,
    pub severity: AlarmSeverity,
    pub message: Option<String>,
}

} // verus!
