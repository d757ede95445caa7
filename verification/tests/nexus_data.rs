use supermusr_pipeline::elements::{get_value, NexusBuilder, NexusClass, NexusDataHolder, NexusSettings, NexusUnits, Units};
use supermusr_pipeline::errors::{
    NexusConversionError, NexusMissingAlarmError, NexusMissingError, NexusMissingRunlogError, NexusMissingSelogError,
    NexusNumericError, NexusPushError, NumericType, RunStartError, RunStopError,
};
use supermusr_pipeline::event_data::{Data, EventTimeZero, EventTimeZeroResult};
use supermusr_pipeline::logs::{Log, RunLog, Selog, ValueLog};
use supermusr_pipeline::messages::{
    Alarm, AlarmSeverity, EventListMetadata, FrameAssembledEventListMessage, LogData, LogDataValue, RunStart, RunStop,
    SampleEnvironmentData, SampleEnvironmentValues,
};
use supermusr_pipeline::numeric::{NumericLog, NumericVector};
use supermusr_pipeline::periods::Periods;
use supermusr_pipeline::run_parameters::{run_stop_time, RunParameters, RunStarted};
use supermusr_pipeline::time::{Timestamp, CHRONO_MAX_SECS, CHRONO_MIN_SECS};

fn frame(period_number: u64, veto_flags: u16, timestamp: Option<Timestamp>) -> FrameAssembledEventListMessage {
    FrameAssembledEventListMessage {
        metadata: EventListMetadata {
            timestamp,
            period_number,
            protons_per_pulse: 0,
            running: true,
            frame_number: 0,
            veto_flags,
        },
        channel: None,
        time: None,
        voltage: None,
    }
}

fn settings() -> NexusSettings {
    NexusSettings::new(10, 20, false)
}

#[test]
fn timestamps_from_milliseconds() {
    assert_eq!(Timestamp::from_millis(16), Some(Timestamp { nanos: 16_000_000 }));
    assert_eq!(Timestamp::from_millis(-1), Some(Timestamp { nanos: -1_000_000 }));
    // Beyond chrono's range of dates.
    assert_eq!(Timestamp::from_millis(i64::MAX), None);
    assert_eq!(Timestamp::from_millis(i64::MIN), None);
}

#[test]
fn distance_between_timestamps() {
    let a = Timestamp::from_nanos(5);
    let b = Timestamp::from_nanos(-7);
    assert_eq!(a.nanos_since(&b), Some(12));
    assert_eq!(b.nanos_since(&a), Some(-12));
    let far = Timestamp::from_millis(10_000_000_000_000).unwrap();
    assert_eq!(far.nanos_since(&Timestamp::from_nanos(0)), None);
}

#[test]
fn settings_fix_the_small_chunk_sizes() {
    let s = NexusSettings::new(1, 2, true);
    assert_eq!(
        (s.framelist_chunk_size, s.eventlist_chunk_size, s.periodlist_chunk_size, s.runloglist_chunk_size),
        (1, 2, 8, 64)
    );
    assert_eq!((s.seloglist_chunk_size, s.alarmlist_chunk_size, s.use_swmr), (1024, 32, true));
    let d = NexusSettings::default_settings();
    assert_eq!((d.framelist_chunk_size, d.periodlist_chunk_size, d.use_swmr), (0, 0, false));
}

#[test]
fn unit_texts() {
    assert_eq!(NexusUnits::MicroAmpHours.to_str(), "uAh");
    assert_eq!(NexusUnits::MegaElectronVoltsOverC.to_str(), "MeVc^-1");
    assert_eq!(NexusUnits::Seconds.to_str(), "second");
    assert_eq!(Units::Mev.get(), "mEv");
    assert_eq!(Units::Microsecond.get(), "microsecond");
}

#[test]
fn builders_set_the_class() {
    let h: NexusDataHolder<u32> = NexusDataHolder::begin("counts").finish_with_default_value(3);
    assert_eq!(h.name, "counts");
    assert_eq!(h.class, NexusClass::Mutable { default_value: 3 });
    let h = NexusBuilder::<u32>::new("n").finish_with_auto_default();
    assert_eq!(h.class, NexusClass::Mutable { default_value: 0 });
    let h = NexusBuilder::<u32>::new("f").finish_with_fixed_value(9);
    assert_eq!(h.class, NexusClass::Fixed { fixed_value: 9 });
    let h = NexusBuilder::<u32>::new("r").finish_with_resizable(1, 2, 3);
    assert_eq!(h.class, NexusClass::Appendable { default_value: 1, default_size: 2, chunk_size: 3 });
    let h = NexusBuilder::<u32>::new("v").finish_log_value_with_resizable(64);
    assert_eq!(h.class, NexusClass::LogValueResizable { chunk_size: 64 });
}

#[test]
fn get_value_reports_a_missing_run_log_value() {
    assert_eq!(get_value(Some(5u8)), Ok(5));
    assert_eq!(get_value::<u8>(None), Err(NexusMissingError::Runlog(NexusMissingRunlogError::Message)));
}

#[test]
fn event_time_zero_result_from_offset_difference() {
    assert_eq!(EventTimeZeroResult::new(25), EventTimeZeroResult { time_zero: 25, offset_diff: None });
    assert_eq!(EventTimeZeroResult::new(0), EventTimeZeroResult { time_zero: 0, offset_diff: None });
    assert_eq!(EventTimeZeroResult::new(-40), EventTimeZeroResult { time_zero: 0, offset_diff: Some(40) });
}

#[test]
fn event_time_zero_offset_moves_back_only() {
    let mut e = EventTimeZero::new();
    assert_eq!(e.handle_message(&Timestamp::from_nanos(100)), Ok(EventTimeZeroResult { time_zero: 0, offset_diff: None }));
    assert_eq!(e.offset, Some(Timestamp::from_nanos(100)));
    assert_eq!(e.handle_message(&Timestamp::from_nanos(130)), Ok(EventTimeZeroResult { time_zero: 30, offset_diff: None }));
    assert_eq!(e.offset, Some(Timestamp::from_nanos(100)));
    assert_eq!(e.handle_message(&Timestamp::from_nanos(60)), Ok(EventTimeZeroResult { time_zero: 0, offset_diff: Some(40) }));
    assert_eq!(e.offset, Some(Timestamp::from_nanos(60)));
    let far = Timestamp::from_millis(10_000_000_000_000).unwrap();
    assert_eq!(e.handle_message(&far), Err(NexusPushError::Conversion(NexusConversionError::NanosecondError)));
    assert_eq!(e.offset, Some(Timestamp::from_nanos(60)));
}

#[test]
fn event_time_zero_counts_from_the_earliest_frame() {
    let mut data = Data::new(&settings());
    for (ns, channels) in [(1_000i64, vec![1u32, 2]), (1_500, vec![3]), (400, vec![4, 5, 6])] {
        let mut m = frame(0, 0, Some(Timestamp::from_nanos(ns)));
        let n = channels.len();
        m.channel = Some(channels);
        m.time = Some(vec![7; n]);
        m.voltage = Some(vec![9; n]);
        data.handle_message(&m).unwrap();
    }
    assert_eq!(data.event_time_zero_attributes.offset, Some(Timestamp::from_nanos(400)));
    assert_eq!(data.event_time_zero, vec![600, 1_100, 0]);
    assert_eq!(data.event_index, vec![0, 2, 3]);
    assert_eq!(data.event_id, vec![1, 2, 3, 4, 5, 6]);
    assert_eq!(data.event_time_offset.len(), 6);
    assert_eq!(data.event_pulse_height.len(), 6);
    assert_eq!(data.event_period_number, vec![0, 0, 0]);
}

#[test]
fn a_frame_without_timestamp_writes_its_events_then_fails() {
    let mut data = Data::new(&settings());
    let mut m = frame(3, 0, None);
    m.channel = Some(vec![1]);
    m.time = Some(vec![2]);
    m.voltage = Some(vec![3]);
    assert_eq!(
        data.handle_message(&m),
        Err(NexusPushError::MissingValue(NexusMissingError::Eventlist(
            supermusr_pipeline::errors::NexusMissingEventlistError::Timestamp
        )))
    );
    assert_eq!(data.event_id, vec![1]);
    assert_eq!(data.event_index, vec![0]);
    assert_eq!(data.event_period_number, vec![3]);
    assert!(data.event_time_zero.is_empty());
}

#[test]
fn periods_count_raw_and_good_frames() {
    let mut p = Periods::new(&settings());
    p.handle_message(&frame(5, 0, None)).unwrap();
    p.handle_message(&frame(7, 1, None)).unwrap();
    assert_eq!(p.number, 2);
    assert_eq!(p.raw_frames, vec![1, 1]);
    assert_eq!(p.good_frames, vec![1, 0]);
    p.handle_message(&frame(5, 0, None)).unwrap();
    p.handle_message(&frame(7, 2, None)).unwrap();
    assert_eq!(p.number, 2);
    assert_eq!(p.output, vec![5, 7, 5, 7]);
    assert_eq!(p.raw_frames, vec![2, 2]);
    assert_eq!(p.good_frames, vec![2, 0]);
    assert_eq!(p.frames_requested, vec![1, 1]);
    assert_eq!(p.period_types, vec![0, 0]);
}

#[test]
fn periods_report_a_missing_entry() {
    let mut p = Periods::new(&settings());
    p.output.push(9);
    assert_eq!(p.handle_message(&frame(9, 0, None)), Err(NexusPushError::IndexOutOfBounds));
    assert_eq!(p.output, vec![9, 9]);
}

#[test]
fn numeric_vectors_convert_and_append() {
    let v = NumericVector::try_from_log_data(&LogDataValue::Int(Some(-4))).unwrap();
    assert_eq!(v.len(), 1);
    assert_eq!(v.type_descriptor(), NumericType::I4);
    assert_eq!(
        NumericVector::try_from_log_data(&LogDataValue::Int(None)).unwrap_err(),
        NexusPushError::MissingValue(NexusMissingError::Runlog(NexusMissingRunlogError::Message))
    );
    assert_eq!(
        NumericVector::try_from_log_data(&LogDataValue::Other).unwrap_err(),
        NexusPushError::LogValue(NexusNumericError::InvalidRunLogType)
    );
    assert_eq!(
        NumericVector::try_from_sample_environment(&SampleEnvironmentValues::Other).unwrap_err(),
        NexusPushError::LogValue(NexusNumericError::InvalidSelogType)
    );
    let mut a = NumericVector::try_from_sample_environment(&SampleEnvironmentValues::UInt16Array(Some(vec![1, 2]))).unwrap();
    let b = NumericVector::U2(vec![3]);
    assert!(a.append(&b));
    assert_eq!(a.len(), 3);
    assert!(!a.append(&NumericVector::U4(vec![3])));
    assert_eq!(a.len(), 3);
}

#[test]
fn numeric_log_type_is_set_once() {
    let mut l = NumericLog::new("value", 4);
    assert_eq!(l.append_numerics(&NumericVector::U1(vec![1])), Err(NexusNumericError::NumericTypeNotSet));
    assert_eq!(l.try_set_type(NumericType::U1), Ok(()));
    assert_eq!(l.try_set_type(NumericType::U1), Ok(()));
    assert_eq!(
        l.try_set_type(NumericType::F8),
        Err(NexusNumericError::TypeMismatch { required_type: NumericType::U1, input_type: NumericType::F8 })
    );
    assert_eq!(l.append_numerics(&NumericVector::U1(vec![1])), Ok(()));
    assert_eq!(l.append_numerics(&NumericVector::U1(vec![2, 3])), Ok(()));
    assert_eq!(l.values.as_ref().map(|v| v.len()), Some(3));
}

fn log_data(source: &str, timestamp: i64, value: LogDataValue) -> LogData {
    LogData { source_name: source.to_string(), timestamp, value }
}

#[test]
fn a_run_log_takes_the_type_of_its_first_value() {
    let mut log = Log::new("temperature".to_string(), &settings());
    assert_eq!(log.handle_message(&log_data("temperature", 1, LogDataValue::Double(Some(7)))), Ok(()));
    assert_eq!(log.handle_message(&log_data("temperature", 2, LogDataValue::Double(Some(8)))), Ok(()));
    assert_eq!(
        log.handle_message(&log_data("temperature", 3, LogDataValue::Int(Some(1)))),
        Err(NexusPushError::LogValue(NexusNumericError::TypeMismatch {
            required_type: NumericType::F8,
            input_type: NumericType::I4
        }))
    );
    assert_eq!(log.time, vec![1, 2, 3]);
    assert_eq!(log.value.values.as_ref().map(|v| v.len()), Some(2));
}

#[test]
fn run_logs_are_kept_per_source() {
    let mut g = RunLog::new(&settings());
    g.handle_message(&log_data("a", 1, LogDataValue::UByte(Some(1)))).unwrap();
    g.handle_message(&log_data("b", 2, LogDataValue::UByte(Some(2)))).unwrap();
    g.handle_message(&log_data("a", 3, LogDataValue::UByte(Some(3)))).unwrap();
    assert_eq!(g.logs.len(), 2);
    assert_eq!(g.logs[0].name, "a");
    assert_eq!(g.logs[0].time, vec![1, 3]);
    assert_eq!(g.logs[1].time, vec![2]);
    // A new source whose first message fails gets no log.
    assert!(g.handle_message(&log_data("c", 4, LogDataValue::Other)).is_err());
    assert_eq!(g.logs.len(), 2);
}

fn alarm(source: Option<&str>, severity: AlarmSeverity, message: Option<&str>) -> Alarm {
    Alarm { source_name: source.map(|s| s.to_string()), timestamp: 11, severity, message: message.map(|s| s.to_string()) }
}

#[test]
fn value_logs_record_alarms() {
    let mut v = ValueLog::new(&settings());
    assert_eq!(v.handle_alarm(&alarm(Some("x"), AlarmSeverity::Normal, Some("fine"))), Ok(()));
    assert_eq!(v.alarm_severity, vec!["OK".to_string()]);
    assert_eq!(v.alarm_status, vec!["fine".to_string()]);
    assert_eq!(v.alarm_time, vec![11]);
    assert_eq!(
        v.handle_alarm(&alarm(Some("x"), AlarmSeverity::Unknown(42), Some("?"))),
        Err(NexusPushError::MissingValue(NexusMissingError::Alarm(NexusMissingAlarmError::Severity)))
    );
    assert_eq!(
        v.handle_alarm(&alarm(Some("x"), AlarmSeverity::Major, None)),
        Err(NexusPushError::MissingValue(NexusMissingError::Alarm(NexusMissingAlarmError::Message)))
    );
    assert_eq!(v.alarm_severity, vec!["OK".to_string(), "MAJOR".to_string()]);
    assert_eq!(v.alarm_status.len(), 1);
}

#[test]
fn value_logs_record_sample_environment_data() {
    let mut v = ValueLog::new(&settings());
    let data = SampleEnvironmentData {
        name: "field".to_string(),
        packet_timestamp: 0,
        timestamps: Some(vec![1, 2]),
        values: SampleEnvironmentValues::Int64Array(Some(vec![10, 20])),
    };
    assert_eq!(v.handle_sample_environment(&data), Ok(()));
    assert_eq!(v.time, vec![1, 2]);
    let no_times = SampleEnvironmentData { timestamps: None, ..data.clone() };
    assert_eq!(
        v.handle_sample_environment(&no_times),
        Err(NexusPushError::MissingValue(NexusMissingError::Selog(NexusMissingSelogError::Times)))
    );
    assert_eq!(v.time, vec![1, 2]);
}

#[test]
fn selog_blocks_are_kept_per_source() {
    let mut s = Selog::new(&settings());
    s.handle_alarm(&alarm(Some("x"), AlarmSeverity::Minor, Some("m"))).unwrap();
    s.handle_alarm(&alarm(Some("y"), AlarmSeverity::Invalid, Some("n"))).unwrap();
    s.handle_alarm(&alarm(Some("x"), AlarmSeverity::Major, Some("o"))).unwrap();
    assert_eq!(s.selogs.len(), 2);
    assert_eq!(s.selogs[0].name, "x");
    assert_eq!(s.selogs[0].value_log.alarm_severity, vec!["MINOR".to_string(), "MAJOR".to_string()]);
    assert!(s.handle_alarm(&alarm(Some("z"), AlarmSeverity::Unknown(5), Some("p"))).is_err());
    assert_eq!(s.selogs.len(), 2);
}

#[test]
fn run_start_is_read() {
    let start = RunStart {
        start_time: 1_500,
        run_name: Some("r".to_string()),
        instrument_name: None,
        filename: None,
        metadata: None,
    };
    let s = RunStarted::new(&start).unwrap();
    assert_eq!(s.collect_from, Timestamp { nanos: 1_500_000_000 });
    assert_eq!(s.run_name, "r");
    let bad = RunStart { start_time: i64::MAX as u64, ..start.clone() };
    assert_eq!(RunStarted::new(&bad).unwrap_err(), RunStartError::CollectFrom);
}

#[test]
fn run_stop_time_is_read() {
    assert_eq!(run_stop_time(&RunStop { stop_time: 2, run_name: None }), Ok(Timestamp { nanos: 2_000_000 }));
    assert_eq!(
        run_stop_time(&RunStop { stop_time: i64::MAX as u64, run_name: None }),
        Err(RunStopError::CollectUntil)
    );
    assert_eq!(
        run_stop_time(&RunStop { stop_time: 1 << 63, run_name: None }),
        Err(RunStopError::Conversion(NexusConversionError::TryFromInt))
    );
}

#[test]
fn a_run_is_bounded_once() {
    let started = RunStarted { collect_from: Timestamp::from_nanos(10), run_name: "r".to_string() };
    let mut p = RunParameters::new_at(started, Timestamp::from_nanos(0));
    assert!(p.is_message_timestamp_valid(&Timestamp::from_nanos(11)));
    assert!(!p.is_message_timestamp_valid(&Timestamp::from_nanos(10)));
    assert_eq!(p.bound_at(Timestamp::from_nanos(10), Timestamp::from_nanos(1)), Err(RunStopError::RunStopBeforeRunStart));
    assert_eq!(p.bound_at(Timestamp::from_nanos(20), Timestamp::from_nanos(2)), Ok(()));
    assert_eq!(p.last_modified, Timestamp::from_nanos(2));
    assert_eq!(p.bound_at(Timestamp::from_nanos(30), Timestamp::from_nanos(3)), Err(RunStopError::UnexpectedRunStop));
    assert_eq!(p.collect_until, Some(Timestamp::from_nanos(20)));
    assert!(p.is_message_timestamp_valid(&Timestamp::from_nanos(19)));
    assert!(!p.is_message_timestamp_valid(&Timestamp::from_nanos(20)));
}

#[test]
fn checked_milliseconds_and_clock_readings() {
    assert_eq!(Timestamp::from_checked_millis(3, true), Some(Timestamp { nanos: 3_000_000 }));
    assert_eq!(Timestamp::from_checked_millis(3, false), None);
    assert_eq!(Timestamp::from_clock_reading(5, 123_456_789), Timestamp { nanos: 5_789 });
    assert_eq!(Timestamp::from_clock_reading(-2, 0), Timestamp { nanos: -2_000 });
    let now = Timestamp::now();
    assert!(now.nanos > 1_600_000_000_000_000_000);
}

#[test]
fn chrono_range_of_milliseconds() {
    let first = CHRONO_MIN_SECS * 1000;
    let last = CHRONO_MAX_SECS * 1000 + 999;
    assert_eq!(Timestamp::from_millis(first), Some(Timestamp { nanos: first as i128 * 1_000_000 }));
    assert_eq!(Timestamp::from_millis(first - 1), None);
    assert_eq!(Timestamp::from_millis(last), Some(Timestamp { nanos: last as i128 * 1_000_000 }));
    assert_eq!(Timestamp::from_millis(last + 1), None);
}

#[test]
fn logs_keep_their_dataset_names_and_chunks() {
    let mut log = Log::new("t".to_string(), &settings());
    log.handle_message(&log_data("t", 1, LogDataValue::Short(Some(2)))).unwrap();
    assert_eq!((log.value.name, log.value.chunk_size, log.time_chunk_size), ("value", 64, 64));
    let mut v = ValueLog::new(&settings());
    v.handle_alarm(&alarm(Some("x"), AlarmSeverity::Normal, Some("ok"))).unwrap();
    assert_eq!((v.value.name, v.value.chunk_size, v.chunk_size), ("value", 1024, 1024));
}
