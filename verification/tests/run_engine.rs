use supermusr_pipeline::elements::NexusSettings;
use supermusr_pipeline::engine::{EngineError, NexusEngine};
use supermusr_pipeline::errors::{RunStartError, RunStopError, NexusPushError};
use supermusr_pipeline::messages::{
    Alarm, AlarmSeverity, EventListMetadata, FrameAssembledEventListMessage, LogData, LogDataValue, RunStart, RunStop,
    SampleEnvironmentData, SampleEnvironmentValues,
};
use supermusr_pipeline::time::Timestamp;

fn create_start(name: &str, start_time: u64) -> RunStart {
    RunStart {
        start_time,
        run_name: Some(name.to_string()),
        instrument_name: Some("Super MuSR".to_string()),
        filename: None,
        metadata: None,
    }
}

fn create_stop(name: &str, stop_time: u64) -> RunStop {
    RunStop { stop_time, run_name: Some(name.to_string()) }
}

fn create_frame_assembled_message(timestamp: Timestamp) -> FrameAssembledEventListMessage {
    FrameAssembledEventListMessage {
        metadata: EventListMetadata {
            timestamp: Some(timestamp),
            period_number: 0,
            protons_per_pulse: 0,
            running: false,
            frame_number: 0,
            veto_flags: 0,
        },
        channel: None,
        time: None,
        voltage: None,
    }
}

/// 2000-01-01T00:00:`second`Z, in milliseconds since the epoch.
fn millis_at_second(second: u64) -> u64 {
    (946_684_800 + second) * 1_000
}

#[test]
fn empty_run() {
    let mut nexus = NexusEngine::new(None, NexusSettings::default_settings());
    let start = create_start("Test1", 16);
    nexus.start_command(&start).unwrap();

    assert_eq!(nexus.run_cache.len(), 1);
    assert_eq!(
        nexus.run_cache.first().unwrap().parameters().started.collect_from,
        Timestamp::from_millis(16).unwrap()
    );
    assert!(nexus.run_cache.first().unwrap().parameters().collect_until.is_none());

    let stop = create_stop("Test1", 17);
    nexus.stop_command(&stop).unwrap();

    assert_eq!(nexus.run_cache.iter().len(), 1);

    let run = nexus.run_cache.iter().next();

    assert!(run.is_some());
    assert!(run.unwrap().parameters().collect_until.is_some());
    assert_eq!(run.unwrap().get_name(), "Test1");

    assert!(run.unwrap().parameters().collect_until.is_some());
    assert_eq!(
        run.unwrap().parameters().collect_until.unwrap(),
        Timestamp::from_millis(17).unwrap()
    );
}

#[test]
fn no_run_start() {
    let mut nexus = NexusEngine::new(None, NexusSettings::default_settings());

    let stop = create_stop("Test1", 0);
    assert!(nexus.stop_command(&stop).is_err());
}

#[test]
fn no_run_stop() {
    let mut nexus = NexusEngine::new(None, NexusSettings::default_settings());

    let start1 = create_start("Test1", 0);
    nexus.start_command(&start1).unwrap();

    let start2 = create_start("Test2", 0);
    assert!(nexus.start_command(&start2).is_err());
}

#[test]
fn frame_messages_correct() {
    let mut nexus = NexusEngine::new(None, NexusSettings::default_settings());

    let ts = Timestamp::from_millis(millis_at_second(16) as i64).unwrap();
    let ts_start = Timestamp::from_millis(millis_at_second(15) as i64).unwrap();
    let ts_end = Timestamp::from_millis(millis_at_second(17) as i64).unwrap();

    let start = create_start("Test1", (ts_start.nanos / 1_000_000) as u64);
    nexus.start_command(&start).unwrap();

    let message = create_frame_assembled_message(ts);
    nexus.process_event_list(&message).unwrap();

    let stop = create_stop("Test1", (ts_end.nanos / 1_000_000) as u64);
    nexus.stop_command(&stop).unwrap();

    assert_eq!(nexus.run_cache.iter().len(), 1);

    let run = nexus.run_cache.iter().next();

    let timestamp = message.metadata.timestamp.unwrap();

    assert!(run.unwrap().is_message_timestamp_valid(&timestamp));

    nexus.flush(0);
    assert_eq!(nexus.run_cache.iter().len(), 0);
}

#[test]
fn a_stop_before_the_start_is_refused() {
    let mut nexus = NexusEngine::new(None, NexusSettings::default_settings());
    nexus.start_command(&create_start("Test1", 100)).unwrap();
    assert_eq!(
        nexus.stop_command(&create_stop("Test1", 100)),
        Err(EngineError::Push(NexusPushError::RunStop(RunStopError::RunStopBeforeRunStart)))
    );
    assert!(nexus.run_cache[0].parameters().collect_until.is_none());
}

#[test]
fn a_second_stop_is_refused() {
    let mut nexus = NexusEngine::new(None, NexusSettings::default_settings());
    nexus.start_command(&create_start("Test1", 100)).unwrap();
    nexus.stop_command(&create_stop("Test1", 200)).unwrap();
    assert_eq!(
        nexus.stop_command(&create_stop("Test1", 300)),
        Err(EngineError::Push(NexusPushError::RunStop(RunStopError::UnexpectedRunStop)))
    );
    assert_eq!(nexus.run_cache[0].parameters().collect_until, Timestamp::from_millis(200));
}

#[test]
fn a_stop_time_beyond_i64_is_refused() {
    let mut nexus = NexusEngine::new(None, NexusSettings::default_settings());
    nexus.start_command(&create_start("Test1", 100)).unwrap();
    assert_eq!(
        nexus.stop_command(&create_stop("Test1", u64::MAX)),
        Err(EngineError::Push(NexusPushError::RunStop(RunStopError::Conversion(
            supermusr_pipeline::errors::NexusConversionError::TryFromInt
        ))))
    );
}

#[test]
fn a_stop_without_a_run_is_unexpected() {
    let mut nexus = NexusEngine::new(None, NexusSettings::default_settings());
    assert_eq!(nexus.stop_command(&create_stop("Test1", 0)), Err(EngineError::UnexpectedRunStop));
}

#[test]
fn a_start_while_a_run_is_open_is_unexpected() {
    let mut nexus = NexusEngine::new(None, NexusSettings::default_settings());
    nexus.start_command(&create_start("Test1", 0)).unwrap();
    assert_eq!(nexus.start_command(&create_start("Test2", 0)), Err(EngineError::UnexpectedRunStart));
    assert_eq!(nexus.get_num_cached_runs(), 1);
}

#[test]
fn a_start_without_a_name_is_refused_when_checked() {
    let mut nexus = NexusEngine::new(None, NexusSettings::default_settings());
    let mut start = create_start("Test1", 0);
    start.run_name = None;
    assert_eq!(
        nexus.try_start_command(&start),
        Err(EngineError::InvalidRunStart(RunStartError::Missing(
            supermusr_pipeline::errors::NexusMissingError::RunStart(
                supermusr_pipeline::errors::NexusMissingRunStartError::RunName
            )
        )))
    );
    let start = create_start("Test1", u64::MAX);
    assert_eq!(
        nexus.try_start_command(&start),
        Err(EngineError::InvalidRunStart(RunStartError::Conversion(
            supermusr_pipeline::errors::NexusConversionError::TryFromInt
        )))
    );
    assert_eq!(nexus.get_num_cached_runs(), 0);
    assert_eq!(nexus.try_start_command(&create_start("Test1", 0)), Ok(()));
    assert_eq!(nexus.get_num_cached_runs(), 1);
}

#[test]
fn a_frame_goes_to_the_run_it_falls_in() {
    let mut nexus = NexusEngine::new(None, NexusSettings::default_settings());
    nexus.start_command(&create_start("Test1", 1_000)).unwrap();
    nexus.stop_command(&create_stop("Test1", 2_000)).unwrap();
    nexus.start_command(&create_start("Test2", 3_000)).unwrap();

    let mut message = create_frame_assembled_message(Timestamp::from_millis(3_500).unwrap());
    message.channel = Some(vec![4, 5]);
    message.time = Some(vec![10, 20]);
    message.voltage = Some(vec![7, 8]);
    nexus.process_event_list(&message).unwrap();

    let first = &nexus.run_cache[0].nx_root.raw_data_1.detector_1;
    let second = &nexus.run_cache[1].nx_root.raw_data_1.detector_1;
    assert!(first.event_id.is_empty());
    assert_eq!(second.event_id, vec![4, 5]);
    assert_eq!(second.event_time_offset, vec![10, 20]);
    assert_eq!(second.event_pulse_height, vec![7, 8]);
    assert_eq!(second.event_index, vec![0]);
    assert_eq!(nexus.run_cache[1].frames.len(), 1);

    // A frame outside every run is dropped without error.
    let outside = create_frame_assembled_message(Timestamp::from_millis(2_500).unwrap());
    assert_eq!(nexus.process_event_list(&outside), Ok(()));
    assert_eq!(nexus.run_cache[0].frames.len(), 0);
    assert_eq!(nexus.run_cache[1].frames.len(), 1);
}

#[test]
fn a_frame_without_timestamp_is_refused() {
    let mut nexus = NexusEngine::new(None, NexusSettings::default_settings());
    nexus.start_command(&create_start("Test1", 1_000)).unwrap();
    let mut message = create_frame_assembled_message(Timestamp::from_millis(1_500).unwrap());
    message.metadata.timestamp = None;
    assert_eq!(
        nexus.process_event_list(&message),
        Err(NexusPushError::MissingValue(supermusr_pipeline::errors::NexusMissingError::Eventlist(
            supermusr_pipeline::errors::NexusMissingEventlistError::Timestamp
        )))
    );
}

#[test]
fn flush_keeps_open_and_recent_runs() {
    let mut nexus = NexusEngine::new(None, NexusSettings::default_settings());
    nexus.start_command(&create_start("Test1", 1_000)).unwrap();
    nexus.stop_command(&create_stop("Test1", 2_000)).unwrap();
    nexus.start_command(&create_start("Test2", 3_000)).unwrap();
    let last_modified = nexus.run_cache[0].parameters().last_modified;
    // Not yet quiet for longer than a day: both stay.
    nexus.flush_at(Timestamp { nanos: last_modified.nanos + 1 }, 86_400_000_000_000);
    assert_eq!(nexus.get_num_cached_runs(), 2);
    // Quiet for longer than the delay: the stopped run goes, the open one stays.
    nexus.flush_at(Timestamp { nanos: last_modified.nanos + 86_400_000_000_001 }, 86_400_000_000_000);
    assert_eq!(nexus.get_num_cached_runs(), 1);
    assert_eq!(nexus.run_cache[0].get_name(), "Test2");
}

#[test]
fn logs_and_alarms_go_to_the_run_they_fall_in() {
    let mut nexus = NexusEngine::new(None, NexusSettings::default_settings());
    nexus.start_command(&create_start("Test1", 1_000)).unwrap();
    let inside = 1_500_000_000i64;
    let log = LogData { source_name: "temp".to_string(), timestamp: inside, value: LogDataValue::UInt(Some(4)) };
    assert_eq!(nexus.logdata(&log), Ok(()));
    let selog = SampleEnvironmentData {
        name: "field".to_string(),
        packet_timestamp: inside,
        timestamps: Some(vec![inside]),
        values: SampleEnvironmentValues::DoubleArray(Some(vec![0])),
    };
    assert_eq!(nexus.sample_envionment(&selog), Ok(()));
    let alarm = Alarm {
        source_name: Some("field".to_string()),
        timestamp: inside,
        severity: AlarmSeverity::Minor,
        message: Some("drift".to_string()),
    };
    assert_eq!(nexus.alarm(&alarm), Ok(()));
    let raw = &nexus.run_cache[0].nx_root.raw_data_1;
    assert_eq!(raw.run_log.logs.len(), 1);
    assert_eq!(raw.run_log.logs[0].time, vec![inside]);
    assert_eq!(raw.selog.selogs.len(), 1);
    assert_eq!(raw.selog.selogs[0].value_log.time, vec![inside]);
    assert_eq!(raw.selog.selogs[0].value_log.alarm_status, vec!["drift".to_string()]);

    // Before the run starts: dropped without error.
    let early = LogData { timestamp: 999_999_999, ..log.clone() };
    assert_eq!(nexus.logdata(&early), Ok(()));
    assert_eq!(nexus.run_cache[0].nx_root.raw_data_1.run_log.logs[0].time, vec![inside]);
}

#[test]
fn a_run_is_built_with_the_engine_settings() {
    let settings = NexusSettings::new(10, 20, false);
    let mut nexus = NexusEngine::new(None, settings);
    nexus.start_command(&create_start("Test1", 100)).unwrap();
    let raw = &nexus.run_cache[0].nx_root.raw_data_1;
    assert_eq!(raw.periods.periodlist_chunk_size, settings.periodlist_chunk_size);
    assert_eq!(raw.detector_1.framelist_chunk_size, 10);
    assert_eq!(raw.detector_1.eventlist_chunk_size, 20);
    assert_eq!(raw.run_log.settings, settings);
    assert_eq!(raw.selog.settings, settings);
    assert!(raw.detector_1.event_time_offset.is_empty());
    assert!(raw.detector_1.event_pulse_height.is_empty());
}

#[test]
fn frames_are_accepted_until_a_counter_is_full() {
    let mut nexus = NexusEngine::new(None, NexusSettings::default_settings());
    let ts = Timestamp::from_millis(millis_at_second(16) as i64).unwrap();
    let message = create_frame_assembled_message(ts);
    assert!(nexus.accepts_frame(&message));
    nexus.start_command(&create_start("Test1", (ts.nanos / 1_000_000) as u64 - 1000)).unwrap();
    assert!(nexus.accepts_frame(&message));
    nexus.run_cache[0].nx_root.raw_data_1.periods.number = u32::MAX;
    assert!(!nexus.accepts_frame(&message));
}
