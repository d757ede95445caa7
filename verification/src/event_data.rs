use vstd::prelude::*;

use crate::elements::NexusSettings;
use crate::errors::{NexusConversionError, NexusMissingError, NexusMissingEventlistError, NexusPushError};
use crate::messages::{Channel, FrameAssembledEventListMessage, Intensity, Time};
use crate::time::Timestamp;

verus! {

/// What a new frame timestamp does to the `event_time_zero` dataset.
#[derive(Clone, Copy, Debug, PartialEq, Eq, Structural)]
pub struct EventTimeZeroResult {
    /// The entry to append for the new frame.
    pub time_zero: u64,
    /// An amount to add to every entry already stored, when the offset moved back.
    pub offset_diff: Option<u64>,
}

impl EventTimeZeroResult {
    /// The result for the empty dataset: append zero, change nothing.
    pub fn empty() -> (r: Self)
        ensures
            r == (EventTimeZeroResult { time_zero: 0, offset_diff: None }),
    {
        EventTimeZeroResult { time_zero: 0, offset_diff: None }
    }

    /// The result for a frame `offset_diff` nanoseconds after the current offset.
    /// A frame before the offset becomes the new offset: it gets zero, and the
    /// stored entries grow by the distance the offset moved.
    pub fn new(offset_diff: i64) -> (r: Self)
        requires
            offset_diff != i64::MIN,
        ensures
            offset_diff < 0 ==> r == (EventTimeZeroResult { time_zero: 0, offset_diff: Some((-offset_diff) as u64) }),
            offset_diff >= 0 ==> r == (EventTimeZeroResult { time_zero: offset_diff as u64, offset_diff: None }),
    {
        if offset_diff < 0 {
            EventTimeZeroResult { time_zero: 0, offset_diff: Some((-offset_diff) as u64) }
        } else {
            EventTimeZeroResult { time_zero: offset_diff as u64, offset_diff: None }
        }
    }
}

/// The attributes of the `event_time_zero` dataset: its `offset`, the instant
/// that its entries count from (empty until the first frame arrives).
#[derive(Clone, Copy, Debug, PartialEq, Eq, Structural)]
pub struct EventTimeZero {
    pub offset: Option<Timestamp>,
}

/// The distance from the offset to the timestamp does not fit in an `i64`.
pub open spec fn nanosecond_overflow(offset: Option<Timestamp>, timestamp: Timestamp) -> bool {
    offset matches Some(o) && !(i64::MIN <= timestamp.nanos - o.nanos <= i64::MAX)
}

/// Each entry of `s` increased by `by`.
pub open spec fn shifted(s: Seq<u64>, by: int) -> Seq<u64> {
    Seq::new(s.len(), |k: int| (s[k] + by) as u64)
}

/// The `event_time_zero` entries and offset after a frame at `timestamp`.
pub open spec fn time_zero_update(entries: Seq<u64>, offset: Option<Timestamp>, timestamp: Timestamp) -> (
    Seq<u64>,
    Option<Timestamp>,
) {
    match offset {
        None => (entries.push(0), Some(timestamp)),
        Some(o) => if timestamp.nanos < o.nanos {
            (shifted(entries, o.nanos - timestamp.nanos).push(0), Some(timestamp))
        } else {
            (entries.push((timestamp.nanos - o.nanos) as u64), Some(o))
        },
    }
}

/// The update of `time_zero_update` stays within `u64` and the offset distance
/// is not `i64::MIN`.
pub open spec fn time_zero_update_fits(entries: Seq<u64>, offset: Option<Timestamp>, timestamp: Timestamp) -> bool {
    offset matches Some(o) ==> {
        &&& o.in_range()
        &&& timestamp.nanos - o.nanos != i64::MIN
        &&& (timestamp.nanos < o.nanos ==> forall|k: int|
            0 <= k < entries.len() ==> #[trigger] entries[k] + (o.nanos - timestamp.nanos) <= u64::MAX)
    }
}

impl EventTimeZero {
    /// The attributes before any frame: no offset.
    pub fn new() -> (e: Self)
        ensures
            e.offset is None,
    {
        EventTimeZero { offset: None }
    }

    /// Takes the timestamp of a new frame. The first frame sets the offset; a
    /// frame before the offset replaces it.
    pub fn handle_message(&mut self, timestamp: &Timestamp) -> (r: Result<EventTimeZeroResult, NexusPushError>)
        requires
            timestamp.in_range(),
            old(self).offset matches Some(o) ==> o.in_range() && timestamp.nanos - o.nanos != i64::MIN,
        ensures
            match old(self).offset {
                None => r == Ok::<EventTimeZeroResult, NexusPushError>(EventTimeZeroResult { time_zero: 0, offset_diff: None })
                    && final(self).offset == Some(*timestamp),
                Some(o) => {
                    let d = timestamp.nanos - o.nanos;
                    if !(i64::MIN <= d <= i64::MAX) {
                        r == Err::<EventTimeZeroResult, NexusPushError>(
                            NexusPushError::Conversion(NexusConversionError::NanosecondError),
                        ) && *final(self) == *old(self)
                    } else if d < 0 {
                        r == Ok::<EventTimeZeroResult, NexusPushError>(
                            EventTimeZeroResult { time_zero: 0, offset_diff: Some((-d) as u64) },
                        ) && final(self).offset == Some(*timestamp)
                    } else {
                        r == Ok::<EventTimeZeroResult, NexusPushError>(
                            EventTimeZeroResult { time_zero: d as u64, offset_diff: None },
                        ) && *final(self) == *old(self)
                    }
                },
            },
    {
        match self.offset {
            None => {
                self.offset = Some(*timestamp);
                Ok(EventTimeZeroResult::empty())
            },
            Some(offset) => {
                let offset_diff = match timestamp.nanos_since(&offset) {
                    Some(d) => d,
                    None => {
                        return Err(NexusPushError::Conversion(NexusConversionError::NanosecondError));
                    },
                };
                if offset_diff < 0 {
                    self.offset = Some(*timestamp);
                }
                Ok(EventTimeZeroResult::new(offset_diff))
            },
        }
    }
}

/// Appends every element of `values` to `v`.
pub fn append_all<T: Copy>(v: &mut Vec<T>, values: &Vec<T>)
    ensures
        final(v)@ == old(v)@ + values@,
{
    let n = values.len();
    let mut i: usize = 0;
    while i < n
        invariant
            n == values.len(),
            i <= n,
            v@ == old(v)@ + values@.subrange(0, i as int),
        decreases n - i,
    {
        v.push(values[i]);
        i = i + 1;
        assert(values@.subrange(0, i as int) == values@.subrange(0, i - 1).push(values@[i - 1]));
    }
    assert(values@.subrange(0, n as int) == values@);
}

/// Adds `by` to every entry of `v`.
fn add_to_all(v: &mut Vec<u64>, by: u64)
    requires
        forall|k: int| 0 <= k < old(v)@.len() ==> #[trigger] old(v)@[k] + by <= u64::MAX,
    ensures
        final(v)@ == shifted(old(v)@, by as int),
{
    let n = v.len();
    let mut i: usize = 0;
    while i < n
        invariant
            n == v@.len(),
            n == old(v)@.len(),
            i <= n,
            forall|k: int| 0 <= k < n ==> #[trigger] old(v)@[k] + by <= u64::MAX,
            forall|k: int| 0 <= k < i ==> v@[k] == (old(v)@[k] + by) as u64,
            forall|k: int| i <= k < n ==> v@[k] == old(v)@[k],
        decreases n - i,
    {
        let x = v[i];
        v.set(i, x + by);
        i = i + 1;
    }
    assert(v@ == shifted(old(v)@, by as int));
}

/// The `detector_1` event-data group: one entry per event in `event_id`,
/// `event_time_offset` and `event_pulse_height`, one entry per frame in
/// `event_index`, `event_period_number` and `event_time_zero`.
#[derive(Clone, Debug)]
pub struct Data {
    /// Channel of each event.
    pub event_id: Vec<Channel>,
    /// Index in `event_id` of the first event of each frame.
    pub event_index: Vec<usize>,
    /// Time of each event, relative to the start of its frame.
    pub event_time_offset: Vec<Time>,
    /// Start of each frame, in nanoseconds after the dataset's offset.
    pub event_time_zero: Vec<u64>,
    /// Attributes of `event_time_zero`.
    pub event_time_zero_attributes: EventTimeZero,
    /// Period of each frame.
    pub event_period_number: Vec<u64>,
    /// Pulse height of each event.
    pub event_pulse_height: Vec<Intensity>,
    /// Chunk size of the per-frame datasets.
    pub framelist_chunk_size: usize,
    /// Chunk size of the per-event datasets.
    pub eventlist_chunk_size: usize,
}

/// The channels of the message's events; an absent list reads as empty.
pub open spec fn channels_of(message: FrameAssembledEventListMessage) -> Seq<Channel> {
    match message.channel {
        Some(v) => v@,
        None => Seq::empty(),
    }
}

/// The times of the message's events; an absent list reads as empty.
pub open spec fn times_of(message: FrameAssembledEventListMessage) -> Seq<Time> {
    match message.time {
        Some(v) => v@,
        None => Seq::empty(),
    }
}

/// The pulse heights of the message's events; an absent list reads as empty.
pub open spec fn voltages_of(message: FrameAssembledEventListMessage) -> Seq<Intensity> {
    match message.voltage {
        Some(v) => v@,
        None => Seq::empty(),
    }
}

/// The message has a timestamp that is not too far from the offset: the case
/// in which `event_time_zero` grows.
pub open spec fn frame_accepted(message: FrameAssembledEventListMessage, offset: Option<Timestamp>) -> bool {
    &&& message.metadata.timestamp matches Some(ts)
    &&& !nanosecond_overflow(offset, ts)
}

/// The error for a message, if any.
pub open spec fn frame_error(message: FrameAssembledEventListMessage, offset: Option<Timestamp>) -> Option<NexusPushError> {
    if message.metadata.timestamp is None {
        Some(NexusPushError::MissingValue(NexusMissingError::Eventlist(NexusMissingEventlistError::Timestamp)))
    } else if nanosecond_overflow(offset, message.metadata.timestamp.unwrap()) {
        Some(NexusPushError::Conversion(NexusConversionError::NanosecondError))
    } else {
        None
    }
}

/// What writing the events of one frame does to the group, and its result:
/// the events and the frame's first-event index and period are appended, then
/// the frame's start is added to `event_time_zero` when the frame is accepted.
pub open spec fn data_step(old: Data, new: Data, message: FrameAssembledEventListMessage, r: Result<(), NexusPushError>) -> bool {
    &&& r == match frame_error(message, old.event_time_zero_attributes.offset) {
        Some(e) => Err::<(), NexusPushError>(e),
        None => Ok::<(), NexusPushError>(()),
    }
    &&& new.event_id@ == old.event_id@ + channels_of(message)
    &&& new.event_time_offset@ == old.event_time_offset@ + times_of(message)
    &&& new.event_pulse_height@ == old.event_pulse_height@ + voltages_of(message)
    &&& new.event_index@ == old.event_index@.push(old.event_id@.len() as usize)
    &&& new.event_period_number@ == old.event_period_number@.push(message.metadata.period_number)
    &&& (new.event_time_zero@, new.event_time_zero_attributes.offset) == if frame_accepted(
        message,
        old.event_time_zero_attributes.offset,
    ) {
        time_zero_update(old.event_time_zero@, old.event_time_zero_attributes.offset, message.metadata.timestamp.unwrap())
    } else {
        (old.event_time_zero@, old.event_time_zero_attributes.offset)
    }
    &&& new.framelist_chunk_size == old.framelist_chunk_size
    &&& new.eventlist_chunk_size == old.eventlist_chunk_size
}

/// The message may be written into the group without overflow: its timestamp
/// is in range and the `event_time_zero` update fits.
pub open spec fn data_accepts(data: Data, message: FrameAssembledEventListMessage) -> bool {
    message.metadata.timestamp matches Some(ts) ==> ts.in_range() && time_zero_update_fits(
        data.event_time_zero@,
        data.event_time_zero_attributes.offset,
        ts,
    )
}

/// Whether `time_zero_update_fits` holds, for a timestamp in range.
fn time_zero_update_fits_at(entries: &Vec<u64>, offset: Option<Timestamp>, timestamp: Timestamp) -> (r: bool)
    requires
        timestamp.in_range(),
    ensures
        r == time_zero_update_fits(entries@, offset, timestamp),
{
    match offset {
        None => true,
        Some(o) => {
            if !(crate::time::MIN_TIMESTAMP_NANOS <= o.nanos && o.nanos <= crate::time::MAX_TIMESTAMP_NANOS) {
                return false;
            }
            let d: i128 = timestamp.nanos - o.nanos;
            if d == i64::MIN as i128 {
                return false;
            }
            if d >= 0 {
                return true;
            }
            let back: i128 = o.nanos - timestamp.nanos;
            let mut i: usize = 0;
            while i < entries.len()
                invariant
                    i <= entries@.len(),
                    offset == Some(o),
                    o.in_range(),
                    back == o.nanos - timestamp.nanos,
                    timestamp.nanos - o.nanos != i64::MIN,
                    0 < back < 0x1_0000_0000_0000_0000_0000_0000_0000,
                    forall|k: int| 0 <= k < i ==> #[trigger] entries@[k] + back <= u64::MAX,
                decreases entries@.len() - i,
            {
                if entries[i] as i128 + back > u64::MAX as i128 {
                    assert(entries@[i as int] + (o.nanos - timestamp.nanos) > u64::MAX);
                    return false;
                }
                i = i + 1;
            }
            true
        },
    }
}

impl Data {
    /// Whether a frame of `message` can be written without an overflow.
    pub fn accepts(&self, message: &FrameAssembledEventListMessage) -> (r: bool)
        ensures
            r == data_accepts(*self, *message),
    {
        match message.metadata.timestamp {
            None => true,
            Some(ts) => {
                crate::time::MIN_TIMESTAMP_NANOS <= ts.nanos && ts.nanos <= crate::time::MAX_TIMESTAMP_NANOS
                    && time_zero_update_fits_at(&self.event_time_zero, self.event_time_zero_attributes.offset, ts)
            },
        }
    }

    /// The empty group, with chunk sizes from the settings.
    pub fn new(settings: &NexusSettings) -> (d: Self)
        ensures
            d.event_id@.len() == 0,
            d.event_index@.len() == 0,
            d.event_time_offset@.len() == 0,
            d.event_time_zero@.len() == 0,
            d.event_time_zero_attributes.offset is None,
            d.event_period_number@.len() == 0,
            d.event_pulse_height@.len() == 0,
            d.framelist_chunk_size == settings.framelist_chunk_size,
            d.eventlist_chunk_size == settings.eventlist_chunk_size,
    {
        Data {
            event_id: Vec::new(),
            event_index: Vec::new(),
            event_time_offset: Vec::new(),
            event_time_zero: Vec::new(),
            event_time_zero_attributes: EventTimeZero::new(),
            event_period_number: Vec::new(),
            event_pulse_height: Vec::new(),
            framelist_chunk_size: settings.framelist_chunk_size,
            eventlist_chunk_size: settings.eventlist_chunk_size,
        }
    }

    /// Writes the events of one frame (an absent list of channels, times or
    /// pulse heights reads as empty), then the frame's first-event index,
    /// period and start time. A frame without a timestamp is refused after its
    /// events and index are written.
    pub fn handle_message(&mut self, message: &FrameAssembledEventListMessage) -> (r: Result<(), NexusPushError>)
        requires
            data_accepts(*old(self), *message),
        ensures
            data_step(*old(self), *final(self), *message, r),
    {
        let current_index = self.event_id.len();
        if let Some(channel) = &message.channel {
            append_all(&mut self.event_id, channel);
        }
        if let Some(time) = &message.time {
            append_all(&mut self.event_time_offset, time);
        }
        if let Some(voltage) = &message.voltage {
            append_all(&mut self.event_pulse_height, voltage);
        }
        proof {
            assert(self.event_id@ =~= old(self).event_id@ + channels_of(*message));
            assert(self.event_time_offset@ =~= old(self).event_time_offset@ + times_of(*message));
            assert(self.event_pulse_height@ =~= old(self).event_pulse_height@ + voltages_of(*message));
        }

        self.event_index.push(current_index);
        self.event_period_number.push(message.metadata.period_number);

        let time_zero = match message.metadata.timestamp {
            Some(ts) => ts,
            None => {
                return Err(
                    NexusPushError::MissingValue(NexusMissingError::Eventlist(NexusMissingEventlistError::Timestamp)),
                );
            },
        };

        let result = match self.event_time_zero_attributes.handle_message(&time_zero) {
            Ok(result) => result,
            Err(e) => {
                return Err(e);
            },
        };

        if let Some(offset_diff) = result.offset_diff {
            add_to_all(&mut self.event_time_zero, offset_diff);
        }
        self.event_time_zero.push(result.time_zero);
        Ok(())
    }
}

/// The earliest of the timestamps, in nanoseconds (zero when there are none).
pub open spec fn earliest(stamps: Seq<Timestamp>) -> int
    decreases stamps.len(),
{
    if stamps.len() == 0 {
        0
    } else if stamps.len() == 1 {
        stamps[0].nanos as int
    } else {
        let e = earliest(stamps.drop_last());
        if stamps.last().nanos < e {
            stamps.last().nanos as int
        } else {
            e
        }
    }
}

proof fn lemma_earliest_push(stamps: Seq<Timestamp>, ts: Timestamp)
    ensures
        earliest(stamps.push(ts)) == (if stamps.len() == 0 {
            ts.nanos as int
        } else if ts.nanos < earliest(stamps) {
            ts.nanos as int
        } else {
            earliest(stamps)
        }),
{
    assert(stamps.push(ts).drop_last() == stamps);
}

proof fn lemma_earliest_is_i128(stamps: Seq<Timestamp>)
    ensures
        i128::MIN <= earliest(stamps) <= i128::MAX,
    decreases stamps.len(),
{
    if stamps.len() > 1 {
        lemma_earliest_is_i128(stamps.drop_last());
    }
}

/// The `event_time_zero` entries and offset record the frame timestamps
/// `stamps`: the offset is the earliest of them, and each entry is its frame's
/// distance from the offset.
pub open spec fn time_zero_matches(entries: Seq<u64>, offset: Option<Timestamp>, stamps: Seq<Timestamp>) -> bool {
    &&& entries.len() == stamps.len()
    &&& if stamps.len() == 0 {
        offset is None
    } else {
        &&& offset == Some(Timestamp { nanos: earliest(stamps) as i128 })
        &&& forall|k: int| 0 <= k < stamps.len() ==> #[trigger] entries[k] == stamps[k].nanos - earliest(stamps)
    }
}

/// Law: `event_time_zero` counts from the earliest frame. If the entries and
/// offset record the timestamps of the frames written so far, then after a
/// frame at `ts` is written they record those timestamps followed by `ts`,
/// whether `ts` comes after the offset or before it.
pub proof fn law_event_time_zero_counts_from_earliest_frame(
    entries: Seq<u64>,
    offset: Option<Timestamp>,
    stamps: Seq<Timestamp>,
    ts: Timestamp,
)
    requires
        time_zero_matches(entries, offset, stamps),
        time_zero_update_fits(entries, offset, ts),
        !nanosecond_overflow(offset, ts),
    ensures
        time_zero_matches(time_zero_update(entries, offset, ts).0, time_zero_update(entries, offset, ts).1, stamps.push(ts)),
{
    lemma_earliest_push(stamps, ts);
    lemma_earliest_is_i128(stamps);
    lemma_earliest_is_i128(stamps.push(ts));
    let (new_entries, new_offset) = time_zero_update(entries, offset, ts);
    let new_stamps = stamps.push(ts);
    if stamps.len() == 0 {
        assert(new_entries[0] == 0);
    } else {
        let o = offset.unwrap();
        if ts.nanos < o.nanos {
            assert forall|k: int| 0 <= k < new_stamps.len() implies #[trigger] new_entries[k] == new_stamps[k].nanos
                - earliest(new_stamps) by {
                if k < stamps.len() {
                    assert(entries[k] == stamps[k].nanos - earliest(stamps));
                    assert(entries[k] + (o.nanos - ts.nanos) <= u64::MAX);
                }
            }
        } else {
            assert forall|k: int| 0 <= k < new_stamps.len() implies #[trigger] new_entries[k] == new_stamps[k].nanos
                - earliest(new_stamps) by {
                if k < stamps.len() {
                    assert(entries[k] == stamps[k].nanos - earliest(stamps));
                }
            }
        }
    }
}

/// The timestamps of the frames (each frame assumed to carry one).
pub open spec fn frame_stamps(messages: Seq<FrameAssembledEventListMessage>) -> Seq<Timestamp> {
    messages.map_values(|m: FrameAssembledEventListMessage| m.metadata.timestamp.unwrap())
}

/// The group states `datas` arise from writing `messages` one after another,
/// each without error and each admitted by `Data::handle_message`.
pub open spec fn written_without_error(datas: Seq<Data>, messages: Seq<FrameAssembledEventListMessage>) -> bool {
    &&& datas.len() == messages.len() + 1
    &&& forall|i: int|
        0 <= i < messages.len() ==> data_accepts(#[trigger] datas[i], messages[i]) && data_step(
            datas[i],
            datas[i + 1],
            messages[i],
            Ok(()),
        )
}

/// Law: over any number of frames, `event_time_zero` counts from the earliest.
/// When frames are written one after another into a group with no
/// `event_time_zero` entry and no offset, each without error and in any order
/// of their timestamps, the offset ends as the earliest timestamp and entry
/// `k` is frame `k`'s distance from it.
pub proof fn law_event_time_zero_over_frames(datas: Seq<Data>, messages: Seq<FrameAssembledEventListMessage>)
    requires
        written_without_error(datas, messages),
        datas[0].event_time_zero@.len() == 0,
        datas[0].event_time_zero_attributes.offset is None,
    ensures
        time_zero_matches(
            datas.last().event_time_zero@,
            datas.last().event_time_zero_attributes.offset,
            frame_stamps(messages),
        ),
    decreases messages.len(),
{
    let n = messages.len();
    if n == 0 {
        assert(frame_stamps(messages) =~= Seq::<Timestamp>::empty());
    } else {
        let k = n - 1;
        let first = messages.take(k);
        let prefix = datas.take(k + 1);
        assert forall|i: int| 0 <= i < first.len() implies data_accepts(#[trigger] prefix[i], first[i]) && data_step(
            prefix[i],
            prefix[i + 1],
            first[i],
            Ok(()),
        ) by {
            assert(data_accepts(datas[i], messages[i]));
        }
        law_event_time_zero_over_frames(prefix, first);
        assert(prefix.last() == datas[k]);
        assert(data_accepts(datas[k], messages[k]) && data_step(datas[k], datas[k + 1], messages[k], Ok(())));
        let before = datas[k];
        let m = messages[k];
        let ts = m.metadata.timestamp.unwrap();
        assert(frame_error(m, before.event_time_zero_attributes.offset) is None);
        law_event_time_zero_counts_from_earliest_frame(
            before.event_time_zero@,
            before.event_time_zero_attributes.offset,
            frame_stamps(first),
            ts,
        );
        assert(frame_stamps(messages) =~= frame_stamps(first).push(ts));
        assert(datas.last() == datas[k + 1]);
    }
}

/// The sum of the event counts.
pub open spec fn total(counts: Seq<nat>) -> nat
    decreases counts.len(),
{
    if counts.len() == 0 {
        0
    } else {
        total(counts.drop_last()) + counts.last()
    }
}

/// `event_index` records the frames whose event counts are `counts`: entry
/// `k` is the number of events before frame `k`, and `events` is the number of
/// all events.
pub open spec fn event_index_matches(index: Seq<usize>, events: nat, counts: Seq<nat>) -> bool {
    &&& index.len() == counts.len()
    &&& events == total(counts)
    &&& forall|k: int| 0 <= k < counts.len() ==> #[trigger] index[k] == total(counts.take(k))
}

/// Law: `event_index` points at the first event of each frame. If it records
/// the event counts of the frames written so far, then after a frame of
/// `count` events is written (its index is the number of events before it) it
/// records those counts followed by `count`.
pub proof fn law_event_index_marks_first_event_of_each_frame(index: Seq<usize>, events: nat, counts: Seq<nat>, count: nat)
    requires
        event_index_matches(index, events, counts),
        events <= usize::MAX,
    ensures
        event_index_matches(index.push(events as usize), events + count, counts.push(count)),
{
    let new_counts = counts.push(count);
    assert(new_counts.drop_last() == counts);
    assert forall|k: int| 0 <= k < new_counts.len() implies #[trigger] index.push(events as usize)[k] == total(
        new_counts.take(k),
    ) by {
        if k < counts.len() {
            assert(new_counts.take(k) == counts.take(k));
        } else {
            assert(new_counts.take(k) == counts);
        }
    }
}

/// Law: the per-event datasets stay aligned. When `event_id`,
/// `event_time_offset` and `event_pulse_height` have one entry per event, and a
/// frame has as many times and pulse heights as channels, they still have one
/// entry per event after the frame is written, whatever the result.
pub proof fn law_event_lists_stay_aligned(
    old_data: Data,
    new_data: Data,
    message: FrameAssembledEventListMessage,
    r: Result<(), NexusPushError>,
)
    requires
        old_data.event_id@.len() == old_data.event_time_offset@.len(),
        old_data.event_id@.len() == old_data.event_pulse_height@.len(),
        channels_of(message).len() == times_of(message).len(),
        channels_of(message).len() == voltages_of(message).len(),
        data_step(old_data, new_data, message, r),
    ensures
        new_data.event_id@.len() == new_data.event_time_offset@.len(),
        new_data.event_id@.len() == new_data.event_pulse_height@.len(),
{
}


/// Law: writing a frame appends its events. After any frame, whatever the
/// result, `event_id`, `event_time_offset` and `event_pulse_height` keep their
/// old entries in place and continue with the frame's channels, times and
/// pulse heights in message order (an absent list adds nothing). So when the
/// three lists and the frame's lists are aligned, entry `k` of each belongs to
/// the same event.
pub proof fn law_frame_events_are_appended(
    old_data: Data,
    new_data: Data,
    message: FrameAssembledEventListMessage,
    r: Result<(), NexusPushError>,
)
    requires
        data_step(old_data, new_data, message, r),
    ensures
        forall|k: int| 0 <= k < old_data.event_id@.len() ==> #[trigger] new_data.event_id@[k] == old_data.event_id@[k],
        forall|k: int|
            0 <= k < old_data.event_time_offset@.len() ==> #[trigger] new_data.event_time_offset@[k]
                == old_data.event_time_offset@[k],
        forall|k: int|
            0 <= k < old_data.event_pulse_height@.len() ==> #[trigger] new_data.event_pulse_height@[k]
                == old_data.event_pulse_height@[k],
        match message.channel {
            Some(c) => new_data.event_id@.len() == old_data.event_id@.len() + c@.len() && forall|k: int|
                0 <= k < c@.len() ==> new_data.event_id@[old_data.event_id@.len() + k] == #[trigger] c@[k],
            None => new_data.event_id@ == old_data.event_id@,
        },
        match message.time {
            Some(t) => new_data.event_time_offset@.len() == old_data.event_time_offset@.len() + t@.len() && forall|k: int|
                0 <= k < t@.len() ==> new_data.event_time_offset@[old_data.event_time_offset@.len() + k] == #[trigger] t@[k],
            None => new_data.event_time_offset@ == old_data.event_time_offset@,
        },
        match message.voltage {
            Some(v) => new_data.event_pulse_height@.len() == old_data.event_pulse_height@.len() + v@.len() && forall|k: int|
                0 <= k < v@.len() ==> new_data.event_pulse_height@[old_data.event_pulse_height@.len() + k] == #[trigger] v@[k],
            None => new_data.event_pulse_height@ == old_data.event_pulse_height@,
        },
{
    let o = old_data.event_time_offset@;
    let i = old_data.event_id@;
    let h = old_data.event_pulse_height@;
    if let Some(c) = message.channel {
        assert forall|k: int| 0 <= k < c@.len() implies new_data.event_id@[i.len() + k] == #[trigger] c@[k] by {
            assert((i + c@)[i.len() + k] == c@[k]);
        }
    }
    if let Some(t) = message.time {
        assert forall|k: int| 0 <= k < t@.len() implies new_data.event_time_offset@[o.len() + k] == #[trigger] t@[k] by {
            assert((o + t@)[o.len() + k] == t@[k]);
        }
    }
    if let Some(v) = message.voltage {
        assert forall|k: int| 0 <= k < v@.len() implies new_data.event_pulse_height@[h.len() + k] == #[trigger] v@[k] by {
            assert((h + v@)[h.len() + k] == v@[k]);
        }
    }
}

} // verus!
