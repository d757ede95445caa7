use vstd::prelude::*;

verus! {

/// A field missing from an alarm message.
#[derive(Clone, Copy, Debug, PartialEq, Eq, Structural)]
pub enum NexusMissingAlarmError {
    Message,
    Severity,
}

/// A field missing from a sample-environment message.
#[derive(Clone, Copy, Debug, PartialEq, Eq, Structural)]
pub enum NexusMissingSelogError {
    Message,
    Times,
}

/// A field missing from a run-log message.
#[derive(Clone, Copy, Debug, PartialEq, Eq, Structural)]
pub enum NexusMissingRunlogError {
    Message,
}

/// A field missing from a run-start message.
#[derive(Clone, Copy, Debug, PartialEq, Eq, Structural)]
pub enum NexusMissingRunStartError {
    RunName,
}

/// A field missing from a frame-assembled event-list message.
#[derive(Clone, Copy, Debug, PartialEq, Eq, Structural)]
pub enum NexusMissingEventlistError {
    Timestamp,
    Channels,
    Voltages,
    Times,
}

/// A field missing from some message.
#[derive(Clone, Copy, Debug, PartialEq, Eq, Structural)]
pub enum NexusMissingError {
    Alarm(NexusMissingAlarmError),
    Selog(NexusMissingSelogError),
    Runlog(NexusMissingRunlogError),
    Eventlist(NexusMissingEventlistError),
    RunStart(NexusMissingRunStartError),
}

/// A value that could not be converted.
#[derive(Clone, Copy, Debug, PartialEq, Eq, Structural)]
pub enum NexusConversionError {
    /// An unsigned message field does not fit in a signed integer.
    TryFromInt,
    /// The nanosecond distance between two timestamps does not fit in an `i64`.
    NanosecondError,
}

/// Reasons a run-start message is refused.
#[derive(Clone, Copy, Debug, PartialEq, Eq, Structural)]
pub enum RunStartError {
    /// The start time is outside chrono's range.
    CollectFrom,
    Conversion(NexusConversionError),
    Missing(NexusMissingError),
}

/// Reasons a run-stop message is refused.
#[derive(Clone, Copy, Debug, PartialEq, Eq, Structural)]
pub enum RunStopError {
    /// The run already has a stop time.
    UnexpectedRunStop,
    /// The stop time is not after the start time.
    RunStopBeforeRunStart,
    /// The stop time is outside chrono's range.
    CollectUntil,
    Conversion(NexusConversionError),
}

/// Errors of the numeric log-value datasets.
#[derive(Clone, Copy, Debug, PartialEq, Eq, Structural)]
pub enum NexusNumericError {
    /// A run-log value of a type that the log cannot hold.
    InvalidRunLogType,
    /// A sample-environment value of a type that the log cannot hold.
    InvalidSelogType,
    /// The dataset already holds values of another type.
    TypeMismatch { required_type: NumericType, input_type: NumericType },
    /// The dataset was used before its type was set.
    NumericTypeNotSet,
}

/// The element type of a numeric dataset.
#[derive(Clone, Copy, Debug, PartialEq, Eq, Structural)]
pub enum NumericType {
    I1,
    I2,
    I4,
    I8,
    U1,
    U2,
    U4,
    U8,
    F4,
    F8,
}

/// Errors raised while a message is written into the NeXus structure.
#[derive(Clone, Copy, Debug, PartialEq, Eq, Structural)]
pub enum NexusPushError {
    MissingValue(NexusMissingError),
    Conversion(NexusConversionError),
    LogValue(NexusNumericError),
    RunStart(RunStartError),
    RunStop(RunStopError),
    /// An entry past the end of a dataset was to be changed.
    IndexOutOfBounds,
}

} // verus!
