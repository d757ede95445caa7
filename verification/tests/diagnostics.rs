use supermusr_pipeline::analyser::{AnalysisKey, Analyser, MessageKey};
use supermusr_pipeline::daq_trace::{
    format_timestamp, join_datetime_text, sorted_order, split_seconds, text_or_not_available, App, DigitiserRow,
};
use supermusr_pipeline::time::{CHRONO_MAX_SECS, CHRONO_MIN_SECS};
use supermusr_pipeline::frame_debug::{classify, is_metadata_equal, FrameCollector, FrameStatus, MessageData, MessageKind};
use supermusr_pipeline::pairing::{ChannelEventList, EventList, Header, MessageGroup, MessagePair};
use supermusr_pipeline::sorting::{sorted_frame_numbers, sorted_ids};
use supermusr_pipeline::time::Timestamp;

fn message(id: u8, period_number: u64) -> MessageData {
    MessageData {
        id,
        timestamp: Some(Timestamp::from_nanos(77)),
        period_number,
        protons_per_pulse: 3,
        veto_flags: id as u16,
        running: true,
    }
}

#[test]
fn metadata_equality_ignores_id_and_veto_flags() {
    assert!(is_metadata_equal(&vec![]));
    assert!(is_metadata_equal(&vec![message(1, 5), message(2, 5), message(3, 5)]));
    assert!(!is_metadata_equal(&vec![message(1, 5), message(2, 5), message(3, 6)]));
    let mut other = message(2, 5);
    other.timestamp = None;
    assert!(!is_metadata_equal(&vec![message(1, 5), other]));
}

#[test]
fn frames_are_classified() {
    let seven: Vec<MessageData> = (0..7).map(|i| message(i, 1)).collect();
    let six: Vec<MessageData> = (0..6).map(|i| message(i, 1)).collect();
    let mut unequal = seven.clone();
    unequal[4].running = false;
    assert_eq!(classify(&six, &seven), FrameStatus::IncompleteEventLists);
    assert_eq!(classify(&seven, &six), FrameStatus::IncompleteTraces);
    assert_eq!(classify(&unequal, &seven), FrameStatus::UnequalEventLists);
    assert_eq!(classify(&seven, &unequal), FrameStatus::UnequalTraces);
    assert_eq!(classify(&seven, &seven), FrameStatus::Complete);
}

#[test]
fn the_collector_reports_frames_in_order() {
    let mut c = FrameCollector::new();
    for i in 0..7 {
        c.record(30, MessageKind::EventList, message(i, 1));
        c.record(30, MessageKind::Trace, message(i, 1));
    }
    c.record(12, MessageKind::EventList, message(0, 1));
    assert_eq!(c.len(), 2);
    assert!(c.is_done(2));
    assert!(!c.is_done(3));
    assert_eq!(c.report(), vec![(12, FrameStatus::IncompleteEventLists), (30, FrameStatus::Complete)]);
    assert_eq!(c.get(30).unwrap().traces.len(), 7);
    assert_eq!(c.get(12).unwrap().traces.len(), 0);
    assert!(c.get(13).is_none());
}

#[test]
fn sorting_ids_and_frame_numbers() {
    assert_eq!(sorted_ids(&vec![8, 1, 4, 0]), vec![0, 1, 4, 8]);
    assert_eq!(sorted_frame_numbers(&vec![3, 3, 1]), vec![1, 3, 3]);
    assert_eq!(sorted_order(&vec![9, 2, 5, 2]), vec![1, 3, 2, 0]);
}

#[test]
fn timestamps_split_into_seconds() {
    assert_eq!(split_seconds(Timestamp::from_nanos(1_500_000_000)), (1, 500_000_000));
    assert_eq!(split_seconds(Timestamp::from_nanos(-1)), (-1, 999_999_999));
    assert_eq!(split_seconds(Timestamp::from_nanos(-2_000_000_000)), (-2, 0));
}

#[test]
fn timestamps_are_formatted() {
    assert_eq!(format_timestamp(None), "N/A");
    assert_eq!(text_or_not_available(None), "N/A");
    assert_eq!(text_or_not_available(Some("x".to_string())), "x");
    let t = Timestamp { nanos: 946_684_816_000_000_123 };
    assert_eq!(format_timestamp(Some(t)), "01/01/00\n00:00:16\n123 ns");
    assert_eq!(join_datetime_text("d".to_string(), &"c".to_string(), 7), "d\nc\n7 ns");
    let last = Timestamp { nanos: CHRONO_MAX_SECS as i128 * 1_000_000_000 + 999_999_999 };
    assert_eq!(format_timestamp(Some(last)), "31/12/42\n23:59:59\n999999999 ns");
    let beyond = Timestamp { nanos: (CHRONO_MAX_SECS as i128 + 1) * 1_000_000_000 };
    assert_eq!(format_timestamp(Some(beyond)), "N/A");
    let first = Timestamp { nanos: CHRONO_MIN_SECS as i128 * 1_000_000_000 };
    assert_eq!(format_timestamp(Some(first)), "01/01/57\n00:00:00\n0 ns");
    let before = Timestamp { nanos: CHRONO_MIN_SECS as i128 * 1_000_000_000 - 1 };
    assert_eq!(format_timestamp(Some(before)), "N/A");
}

fn row(msg_count: usize, channels: Option<Vec<u32>>) -> DigitiserRow {
    DigitiserRow {
        msg_count,
        first_msg_timestamp: None,
        last_msg_timestamp: Some(Timestamp { nanos: 86_400_000_000_000 }),
        last_msg_frame: 42,
        msg_rate_text: "2.5".to_string(),
        num_channels_present: 8,
        channels_present: channels,
        has_num_channels_changed: true,
        num_samples_in_first_channel: 100,
        is_num_samples_identical: false,
        has_num_samples_changed: false,
        bad_frame_count: 3,
        min_mean_text: "0.10".to_string(),
        max_mean_text: "-1.00".to_string(),
    }
}

#[test]
fn the_message_table_is_sorted_by_digitiser() {
    let mut app = App::new(&["Digitiser ID", "#Msgs Received"]);
    assert_eq!(app.table_headers, vec!["Digitiser ID".to_string(), "#Msgs Received".to_string()]);
    app.generate_table_body(&vec![(7, row(10, None)), (2, row(250, None))]);
    assert_eq!(app.table_body.len(), 2);
    assert_eq!(
        app.table_body[0],
        vec!["2", "250", "N/A", "02/01/70\n00:00:00\n0 ns", "42", "2.5", "3"]
    );
    assert_eq!(app.table_body[1][0], "7");
    assert_eq!(app.table_body[1][1], "10");
}

#[test]
fn the_channel_table_lists_channels() {
    let mut app = App::new(&[]);
    app.generate_table_body2(&vec![(5, row(1, Some(vec![0, 12]))), (1, row(1, None))]);
    assert_eq!(app.table_body[0], vec!["8", "Yes", "100", "No", "No", "3", "0.10", "-1.00", ""]);
    assert_eq!(app.table_body[1], vec!["8", "Yes", "100", "No", "No", "3", "0.10", "-1.00", " 0 12"]);
}

#[test]
fn selection_wraps_round_the_table() {
    let mut app = App::new(&["a"]);
    app.next();
    assert_eq!(app.table_state.selected(), None);
    app.generate_table_body(&vec![(1, row(1, None)), (2, row(1, None)), (3, row(1, None))]);
    app.next();
    assert_eq!(app.table_state.selected(), Some(0));
    app.previous();
    assert_eq!(app.table_state.selected(), Some(2));
    app.next();
    assert_eq!(app.table_state.selected(), Some(0));
    app.next();
    app.next();
    assert_eq!(app.table_state.selected(), Some(2));
    app.previous();
    app.next();
    assert_eq!(app.table_state.selected(), Some(2));
}

fn events(channel: &[u32], time: &[u32], voltage: &[u16]) -> ChannelEventList {
    ChannelEventList::from_message(channel, time, voltage)
}

#[test]
fn events_are_grouped_by_channel() {
    let l = events(&[3, 1, 3, 3], &[10, 11, 12, 13], &[100, 101, 102, 103]);
    assert_eq!(l.lists.len(), 2);
    assert_eq!(l.get(3).unwrap().time, vec![10, 12, 13]);
    assert_eq!(l.get(3).unwrap().voltage, vec![100, 102, 103]);
    assert_eq!(l.get(1).unwrap().time, vec![11]);
    assert!(l.get(2).is_none());
}

#[test]
fn headers_keep_one_value_per_key() {
    let mut h = Header::new();
    h.insert("a".to_string(), "1".to_string());
    h.insert("b".to_string(), "2".to_string());
    h.insert("a".to_string(), "3".to_string());
    assert_eq!(h.entries.len(), 2);
    assert_eq!(h.get(&"a".to_string()), Some(&"3".to_string()));
    assert_eq!(h.get(&"c".to_string()), None);
}

#[test]
fn a_pair_needs_both_sides_and_unites_their_channels() {
    let mut group = MessageGroup::new();
    group.simulated = Some(events(&[1, 2], &[5, 6], &[7, 8]));
    assert!(MessagePair::from_message_group(&group).is_none());
    let mut header = Header::new();
    header.insert("k".to_string(), "v".to_string());
    group.detected = Some(supermusr_pipeline::pairing::DetectedMessage {
        header,
        message: events(&[2, 3], &[9, 10], &[11, 12]),
    });
    let pair = MessagePair::from_message_group(&group).unwrap();
    assert_eq!(pair.headers.entries, vec![("k".to_string(), "v".to_string())]);
    let mut channels: Vec<u32> = pair.channels.keys().copied().collect();
    channels.sort();
    assert_eq!(channels, vec![1, 2, 3]);
    for (c, p) in &pair.channels {
        match *c {
            1 => {
                assert!(p.detected.time.is_empty());
                assert_eq!(p.simulated.time, vec![5]);
            },
            2 => {
                assert_eq!(p.detected.time, vec![9]);
                assert_eq!(p.simulated.time, vec![6]);
            },
            _ => {
                assert_eq!(p.detected.voltage, vec![12]);
                assert!(p.simulated.voltage.is_empty());
            },
        }
    }
    assert_eq!(pair.channel(2).unwrap().simulated.voltage, vec![8]);
    assert!(pair.channel(4).is_none());
    let empty = EventList::new();
    assert!(empty.time.is_empty() && empty.voltage.is_empty());
}

fn key(frame_number: u32, nanos: i64) -> MessageKey {
    MessageKey::new(Timestamp::from_nanos(nanos), 4, frame_number)
}

#[test]
fn without_a_simulated_topic_each_message_pairs_with_itself() {
    let mut a = Analyser::new("detected".to_string(), None, 2);
    let topic = "detected".to_string();
    assert!(a.handle_event_list(&topic, key(1, 10), Header::new(), events(&[1], &[2], &[3])).is_none());
    assert_eq!(a.message_pair_vectors.len(), 1);
    assert!(a.message_groups.is_empty());
    let (k, pairs) = a.handle_event_list(&topic, key(1, 20), Header::new(), events(&[1], &[4], &[5])).unwrap();
    assert_eq!(k, AnalysisKey { digitiser_id: 4, frame_number: 1 });
    assert_eq!(pairs.len(), 2);
    assert_eq!(pairs[1].channel(1).unwrap().detected.time, vec![4]);
    assert_eq!(pairs[1].channel(1).unwrap().simulated.time, vec![4]);
    assert!(a.message_pair_vectors.is_empty());
}

#[test]
fn detected_and_simulated_messages_are_matched_by_key() {
    let mut a = Analyser::new("detected".to_string(), Some("simulated".to_string()), 1);
    let det = "detected".to_string();
    let sim = "simulated".to_string();
    let other = "other".to_string();
    assert!(a.keeps_topic(&det) && a.keeps_topic(&sim) && !a.keeps_topic(&other));
    assert!(Analyser::new("d".to_string(), None, 1).keeps_topic(&other));
    assert!(a.handle_event_list(&det, key(1, 10), Header::new(), events(&[1], &[2], &[3])).is_none());
    assert!(a.handle_event_list(&other, key(2, 10), Header::new(), events(&[1], &[2], &[3])).is_none());
    // A message from another topic leaves an empty group behind.
    assert_eq!(a.message_groups.len(), 2);
    assert!(a.handle_event_list(&sim, key(1, 11), Header::new(), events(&[1], &[2], &[3])).is_none());
    assert_eq!(a.message_groups.len(), 3);
    let (k, pairs) = a.handle_event_list(&sim, key(1, 10), Header::new(), events(&[7], &[8], &[9])).unwrap();
    assert_eq!(k.frame_number, 1);
    assert_eq!(pairs.len(), 1);
    assert_eq!(pairs[0].channels.len(), 2);
    assert_eq!(a.message_groups.len(), 2);
}
