use supermusr_pipeline::aggregator::{AggregatedFrame, FrameCache};
use supermusr_pipeline::messages::FrameMetadata;
use supermusr_pipeline::time::Timestamp;

/// The events of one digitiser message: time, intensity and channel of each.
#[derive(Clone, Debug, PartialEq)]
struct EventData {
    time: Vec<u32>,
    intensity: Vec<u16>,
    channel: Vec<u32>,
}

impl EventData {
    fn new(time: Vec<u32>, intensity: Vec<u16>, channel: Vec<u32>) -> Self {
        EventData { time, intensity, channel }
    }

    /// `count` events per channel, at times `offset .. offset + count`, of intensity zero.
    fn dummy_data(offset: u32, count: u32, channels: &[u32]) -> Self {
        let mut data = EventData::new(Vec::new(), Vec::new(), Vec::new());
        for c in channels {
            for i in 0..count {
                data.time.push(offset + i);
                data.intensity.push(0);
                data.channel.push(*c);
            }
        }
        data
    }
}

/// The events of all digitisers of a frame, in the order the messages arrived.
fn accumulate(frame: &AggregatedFrame<EventData>) -> EventData {
    let mut all = EventData::new(Vec::new(), Vec::new(), Vec::new());
    for (_, d) in &frame.digitiser_data {
        all.time.extend_from_slice(&d.time);
        all.intensity.extend_from_slice(&d.intensity);
        all.channel.extend_from_slice(&d.channel);
    }
    all
}

const TTL_100_MS: u64 = 100_000_000;

#[test]
fn one_frame_in_one_frame_out() {
    let mut cache = FrameCache::<EventData>::new(TTL_100_MS, vec![0, 1, 4, 8]);

    let frame_1 = FrameMetadata {
        timestamp: Timestamp::now(),
        period_number: 1,
        protons_per_pulse: 8,
        running: true,
        frame_number: 1728,
        veto_flags: 4,
    };

    assert!(cache.poll().is_none());

    assert_eq!(cache.get_num_partial_frames(), 0);
    cache.push(0, &frame_1, EventData::dummy_data(0, 5, &[0, 1, 2]));
    assert_eq!(cache.get_num_partial_frames(), 1);

    assert!(cache.poll().is_none());

    cache.push(1, &frame_1, EventData::dummy_data(0, 5, &[3, 4, 5]));

    assert!(cache.poll().is_none());

    cache.push(4, &frame_1, EventData::dummy_data(0, 5, &[6, 7, 8]));

    assert!(cache.poll().is_none());

    cache.push(8, &frame_1, EventData::dummy_data(0, 5, &[9, 10, 11]));

    {
        let frame = cache.poll().unwrap();
        assert_eq!(cache.get_num_partial_frames(), 0);

        assert_eq!(frame.metadata, frame_1);

        let mut dids = frame.digitiser_ids.clone();
        dids.sort();
        assert_eq!(dids, &[0, 1, 4, 8]);

        assert_eq!(
            accumulate(&frame),
            EventData::new(
                vec![
                    0, 1, 2, 3, 4, 0, 1, 2, 3, 4, 0, 1, 2, 3, 4, 0, 1, 2, 3, 4, 0, 1, 2, 3, 4, 0, 1, 2, 3,
                    4, 0, 1, 2, 3, 4, 0, 1, 2, 3, 4, 0, 1, 2, 3, 4, 0, 1, 2, 3, 4, 0, 1, 2, 3, 4, 0, 1, 2,
                    3, 4
                ],
                vec![0; 60],
                vec![
                    0, 0, 0, 0, 0, 1, 1, 1, 1, 1, 2, 2, 2, 2, 2, 3, 3, 3, 3, 3, 4, 4, 4, 4, 4, 5, 5, 5, 5,
                    5, 6, 6, 6, 6, 6, 7, 7, 7, 7, 7, 8, 8, 8, 8, 8, 9, 9, 9, 9, 9, 10, 10, 10, 10, 10,
                    11, 11, 11, 11, 11
                ],
            )
        );
    }

    assert!(cache.poll().is_none());
}

#[test]
fn one_frame_in_one_frame_out_missing_digitiser_timeout() {
    let mut cache = FrameCache::<EventData>::new(TTL_100_MS, vec![0, 1, 4, 8]);

    let start = Timestamp::now();
    let frame_1 = FrameMetadata {
        timestamp: start,
        period_number: 1,
        protons_per_pulse: 8,
        running: true,
        frame_number: 1728,
        veto_flags: 4,
    };

    assert!(cache.poll_at(start).is_none());

    cache.push_at(start, 0, &frame_1, EventData::dummy_data(0, 5, &[0, 1, 2]));

    assert!(cache.poll_at(start).is_none());

    cache.push_at(start, 1, &frame_1, EventData::dummy_data(0, 5, &[3, 4, 5]));

    assert!(cache.poll_at(start).is_none());

    cache.push_at(start, 8, &frame_1, EventData::dummy_data(0, 5, &[9, 10, 11]));

    assert!(cache.poll_at(start).is_none());

    // 105 ms later, past the 100 ms the frame waits.
    let later = Timestamp { nanos: start.nanos + 105_000_000 };

    {
        let frame = cache.poll_at(later).unwrap();

        assert_eq!(frame.metadata, frame_1);

        let mut dids = frame.digitiser_ids.clone();
        dids.sort();
        assert_eq!(dids, &[0, 1, 8]);

        assert_eq!(
            accumulate(&frame),
            EventData::new(
                vec![
                    0, 1, 2, 3, 4, 0, 1, 2, 3, 4, 0, 1, 2, 3, 4, 0, 1, 2, 3, 4, 0, 1, 2, 3, 4, 0, 1, 2, 3,
                    4, 0, 1, 2, 3, 4, 0, 1, 2, 3, 4, 0, 1, 2, 3, 4,
                ],
                vec![0; 45],
                vec![
                    0, 0, 0, 0, 0, 1, 1, 1, 1, 1, 2, 2, 2, 2, 2, 3, 3, 3, 3, 3, 4, 4, 4, 4, 4, 5, 5, 5, 5,
                    5, 9, 9, 9, 9, 9, 10, 10, 10, 10, 10, 11, 11, 11, 11, 11
                ],
            )
        );
    }

    assert!(cache.poll_at(later).is_none());
}

#[test]
fn test_metadata_equality() {
    let mut cache = FrameCache::<EventData>::new(TTL_100_MS, vec![1, 2]);

    let timestamp = Timestamp::now();
    let frame_1 = FrameMetadata {
        timestamp,
        period_number: 1,
        protons_per_pulse: 8,
        running: true,
        frame_number: 1728,
        veto_flags: 4,
    };

    let frame_2 = FrameMetadata {
        timestamp,
        period_number: 1,
        protons_per_pulse: 8,
        running: true,
        frame_number: 1728,
        veto_flags: 5,
    };

    assert_eq!(cache.frames.len(), 0);
    assert!(cache.poll().is_none());

    cache.push(1, &frame_1, EventData::dummy_data(0, 5, &[0, 1, 2]));
    assert_eq!(cache.frames.len(), 1);
    assert!(cache.poll().is_none());

    cache.push(2, &frame_2, EventData::dummy_data(0, 5, &[0, 1, 2]));
    assert_eq!(cache.frames.len(), 1);
    assert!(cache.poll().is_some());
}

#[test]
fn veto_flags_of_all_messages_are_gathered() {
    let mut cache = FrameCache::<u8>::new(TTL_100_MS, vec![1, 2]);
    let now = Timestamp::now();
    let meta = |veto_flags: u16| FrameMetadata {
        timestamp: now,
        period_number: 3,
        protons_per_pulse: 1,
        running: false,
        frame_number: 7,
        veto_flags,
    };
    cache.push_at(now, 2, &meta(0b0100), 20);
    cache.push_at(now, 1, &meta(0b0001), 10);
    let frame = cache.poll_at(now).unwrap();
    assert_eq!(frame.metadata.veto_flags, 0b0101);
    assert_eq!(frame.digitiser_ids, vec![1, 2]);
    assert_eq!(frame.digitiser_data, vec![(2, 20), (1, 10)]);
}

#[test]
fn frames_differing_in_metadata_are_kept_apart() {
    let mut cache = FrameCache::<u8>::new(TTL_100_MS, vec![1]);
    let now = Timestamp::now();
    let a = FrameMetadata { timestamp: now, period_number: 1, protons_per_pulse: 1, running: true, frame_number: 1, veto_flags: 0 };
    let b = FrameMetadata { frame_number: 2, ..a };
    cache.push_at(now, 0, &a, 1);
    cache.push_at(now, 0, &b, 2);
    assert_eq!(cache.get_num_partial_frames(), 2);
    // Neither frame has digitiser 1, and neither has expired.
    assert!(cache.poll_at(now).is_none());
    let expired = Timestamp { nanos: now.nanos + 100_000_001 };
    // The oldest frame goes first.
    assert_eq!(cache.poll_at(expired).unwrap().metadata.frame_number, 1);
    assert_eq!(cache.poll_at(expired).unwrap().metadata.frame_number, 2);
    assert!(cache.poll_at(expired).is_none());
}

#[test]
fn a_frame_is_not_expired_at_its_expiry() {
    let mut cache = FrameCache::<u8>::new(TTL_100_MS, vec![1]);
    let now = Timestamp::from_nanos(1_000);
    let a = FrameMetadata { timestamp: now, period_number: 1, protons_per_pulse: 1, running: true, frame_number: 1, veto_flags: 0 };
    cache.push_at(now, 0, &a, 1);
    assert!(cache.poll_at(Timestamp::from_nanos(1_000 + 100_000_000)).is_none());
    assert!(cache.poll_at(Timestamp::from_nanos(1_000 + 100_000_001)).is_some());
}
