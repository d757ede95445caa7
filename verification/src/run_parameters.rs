use vstd::prelude::*;

use crate::errors::{NexusConversionError, NexusMissingError, NexusMissingRunStartError, RunStartError, RunStopError};
use crate::messages::{RunStart, RunStop};
use crate::time::{chrono_millis_in_range, Timestamp};

verus! {

/// The run-start message carries a start time that chrono can represent and a run name.
pub open spec fn run_start_valid(message: RunStart) -> bool {
    &&& message.start_time <= i64::MAX
    &&& chrono_millis_in_range(message.start_time as i64)
    &&& message.run_name is Some
}

/// What a run-start message establishes: when the run collects from, and its name.
#[derive(Clone, Debug)]
pub struct RunStarted {
    pub collect_from: Timestamp,
    pub run_name: String,
}

impl RunStarted {
    /// Reads the start time (milliseconds since the epoch) and the run name.
    pub fn new(message: &RunStart) -> (r: Result<Self, RunStartError>)
        ensures
            message.start_time > i64::MAX ==> r == Err::<Self, RunStartError>(
                RunStartError::Conversion(NexusConversionError::TryFromInt),
            ),
            message.start_time <= i64::MAX && !chrono_millis_in_range(message.start_time as i64) ==> r == Err::<
                Self,
                RunStartError,
            >(RunStartError::CollectFrom),
            message.start_time <= i64::MAX && chrono_millis_in_range(message.start_time as i64)
                && message.run_name is None ==> r == Err::<Self, RunStartError>(
                RunStartError::Missing(NexusMissingError::RunStart(NexusMissingRunStartError::RunName)),
            ),
            r is Ok <==> run_start_valid(*message),
            r matches Ok(s) ==> s.collect_from == Timestamp::spec_from_millis(message.start_time as int)
                && s.collect_from.in_range() && s.run_name@ == message.run_name.unwrap()@,
    {
        if message.start_time > i64::MAX as u64 {
            return Err(RunStartError::Conversion(NexusConversionError::TryFromInt));
        }
        let collect_from = match Timestamp::from_millis(message.start_time as i64) {
            Some(t) => t,
            None => {
                return Err(RunStartError::CollectFrom);
            },
        };
        let run_name = match &message.run_name {
            Some(name) => name.clone(),
            None => {
                return Err(RunStartError::Missing(NexusMissingError::RunStart(NexusMissingRunStartError::RunName)));
            },
        };
        Ok(RunStarted { collect_from, run_name })
    }
}

/// Reads the stop time (milliseconds since the epoch) of a run-stop message.
pub fn run_stop_time(message: &RunStop) -> (r: Result<Timestamp, RunStopError>)
    ensures
        message.stop_time > i64::MAX ==> r == Err::<Timestamp, RunStopError>(
            RunStopError::Conversion(NexusConversionError::TryFromInt),
        ),
        message.stop_time <= i64::MAX && !chrono_millis_in_range(message.stop_time as i64) ==> r == Err::<
            Timestamp,
            RunStopError,
        >(RunStopError::CollectUntil),
        message.stop_time <= i64::MAX && chrono_millis_in_range(message.stop_time as i64) ==> r == Ok::<
            Timestamp,
            RunStopError,
        >(Timestamp::spec_from_millis(message.stop_time as int)),
        r matches Ok(t) ==> t.in_range(),
{
    if message.stop_time > i64::MAX as u64 {
        return Err(RunStopError::Conversion(NexusConversionError::TryFromInt));
    }
    match Timestamp::from_millis(message.stop_time as i64) {
        Some(t) => Ok(t),
        None => Err(RunStopError::CollectUntil),
    }
}

/// `timestamp` falls within the run: strictly after its start and, once the
/// run has a stop time, strictly before it.
pub open spec fn timestamp_in_run(collect_from: Timestamp, collect_until: Option<Timestamp>, timestamp: Timestamp) -> bool {
    &&& collect_from.nanos < timestamp.nanos
    &&& (collect_until matches Some(until) ==> timestamp.nanos < until.nanos)
}

/// The result of bounding a run by `collect_until` at time `now`, and the
/// parameters after it: refused when the run already has a stop time, or when
/// the stop is not after the start; otherwise the stop time is set.
pub open spec fn bound_outcome(p: RunParameters, collect_until: Timestamp, now: Timestamp) -> (
    Result<(), RunStopError>,
    RunParameters,
) {
    if p.collect_until is Some {
        (Err(RunStopError::UnexpectedRunStop), p)
    } else if p.started.collect_from.nanos < collect_until.nanos {
        (Ok(()), RunParameters { collect_until: Some(collect_until), last_modified: now, ..p })
    } else {
        (Err(RunStopError::RunStopBeforeRunStart), p)
    }
}

/// The time bounds of a run and when it last changed.
#[derive(Clone, Debug)]
pub struct RunParameters {
    pub started: RunStarted,
    pub collect_until: Option<Timestamp>,
    pub last_modified: Timestamp,
}

impl RunParameters {
    /// Parameters of a run that has started and not stopped, last changed at `now`.
    pub fn new_at(started: RunStarted, now: Timestamp) -> (p: Self)
        ensures
            p.started == started,
            p.collect_until is None,
            p.last_modified == now,
    {
        RunParameters { started, collect_until: None, last_modified: now }
    }

    /// Parameters of a run that has started and not stopped, last changed now.
    pub fn new(started: RunStarted) -> (p: Self)
        ensures
            p.started == started,
            p.collect_until is None,
            p.last_modified.in_range(),
    {
        RunParameters::new_at(started, Timestamp::now())
    }

    /// Sets the stop time, at time `now`: refused when the run already has one,
    /// or when it is not after the start.
    pub fn bound_at(&mut self, collect_until: Timestamp, now: Timestamp) -> (r: Result<(), RunStopError>)
        ensures
            (r, *final(self)) == bound_outcome(*old(self), collect_until, now),
    {
        if self.collect_until.is_some() {
            Err(RunStopError::UnexpectedRunStop)
        } else if self.started.collect_from.nanos < collect_until.nanos {
            self.collect_until = Some(collect_until);
            self.last_modified = now;
            Ok(())
        } else {
            Err(RunStopError::RunStopBeforeRunStart)
        }
    }

    /// Sets the stop time, as `bound_at` does at the current time.
    pub fn bound(&mut self, collect_until: Timestamp) -> (r: Result<(), RunStopError>)
        ensures
            old(self).last_modified.in_range() ==> final(self).last_modified.in_range(),
            old(self).collect_until is Some ==> r == Err::<(), RunStopError>(RunStopError::UnexpectedRunStop)
                && *final(self) == *old(self),
            old(self).collect_until is None && old(self).started.collect_from.nanos >= collect_until.nanos ==> r
                == Err::<(), RunStopError>(RunStopError::RunStopBeforeRunStart) && *final(self) == *old(self),
            old(self).collect_until is None && old(self).started.collect_from.nanos < collect_until.nanos ==> r
                == Ok::<(), RunStopError>(()) && final(self).collect_until == Some(collect_until)
                && final(self).started == old(self).started,
    {
        self.bound_at(collect_until, Timestamp::now())
    }

    /// Records that the run changed at `now`.
    pub fn update_last_modified_at(&mut self, now: Timestamp)
        ensures
            final(self).started == old(self).started,
            final(self).collect_until == old(self).collect_until,
            final(self).last_modified == now,
    {
        self.last_modified = now;
    }

    /// Records that the run changed now.
    pub fn update_last_modified(&mut self)
        ensures
            final(self).started == old(self).started,
            final(self).collect_until == old(self).collect_until,
            final(self).last_modified.in_range(),
    {
        self.update_last_modified_at(Timestamp::now());
    }

    /// Records that a frame arrived now.
    pub fn new_frame(&mut self)
        ensures
            final(self).started == old(self).started,
            final(self).collect_until == old(self).collect_until,
            final(self).last_modified.in_range(),
    {
        self.update_last_modified();
    }

    /// Whether a message stamped `timestamp` belongs to the run: strictly after
    /// the start and, if the run has stopped, strictly before the stop.
    pub fn is_message_timestamp_valid(&self, timestamp: &Timestamp) -> (r: bool)
        ensures
            r == timestamp_in_run(self.started.collect_from, self.collect_until, *timestamp),
    {
        if self.started.collect_from.nanos < timestamp.nanos {
            match &self.collect_until {
                Some(collect_until) => timestamp.nanos < collect_until.nanos,
                None => true,
            }
        } else {
            false
        }
    }
}

/// Law: a run is bounded at most once. After a stop time has been accepted,
/// any further stop time is refused as unexpected and changes nothing, and the
/// run then admits exactly the timestamps strictly between its start and the
/// accepted stop.
pub proof fn law_run_is_bounded_once(p: RunParameters, first: Timestamp, second: Timestamp, now1: Timestamp, now2: Timestamp)
    requires
        bound_outcome(p, first, now1).0 is Ok,
    ensures
        ({
            let bounded = bound_outcome(p, first, now1).1;
            &&& bound_outcome(bounded, second, now2) == (Err::<(), RunStopError>(RunStopError::UnexpectedRunStop), bounded)
            &&& forall|t: Timestamp|
                #[trigger] timestamp_in_run(bounded.started.collect_from, bounded.collect_until, t) <==> (
                p.started.collect_from.nanos < t.nanos < first.nanos)
        }),
{
}

} // verus!
