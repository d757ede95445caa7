use vstd::prelude::*;
use vstd::relations::sorted_by;

use std::collections::HashMap;

use crate::messages::{DigitizerId, FrameNumber};
use crate::sorting::{frame_leq, sorted_frame_numbers};
use crate::time::Timestamp;

verus! {

broadcast use vstd::std_specs::hash::group_hash_axioms;

/// The number of digitisers whose messages make a frame complete.
pub const EXPECTED_DIGITISERS: usize = 7;

/// The metadata of one digitiser message, as the frame debugger keeps it.
#[derive(Clone, Copy, Debug, PartialEq, Eq, Structural)]
pub struct MessageData {
    pub id: DigitizerId,
    pub timestamp: Option<Timestamp>,
    pub period_number: u64,
    pub protons_per_pulse: u8,
    pub veto_flags: u16,
    pub running: bool,
}

/// The two messages agree in timestamp, period number, protons per pulse and running flag.
pub open spec fn metadata_agree(a: MessageData, b: MessageData) -> bool {
    &&& a.timestamp == b.timestamp
    &&& a.period_number == b.period_number
    &&& a.protons_per_pulse == b.protons_per_pulse
    &&& a.running == b.running
}

/// Each message agrees with the one before it.
pub open spec fn consecutive_agree(data: Seq<MessageData>) -> bool {
    forall|i: int| 0 < i < data.len() ==> #[trigger] metadata_agree(data[i - 1], data[i])
}

/// Whether each message agrees with the one before it in timestamp, period
/// number, protons per pulse and running flag.
pub fn is_metadata_equal(data: &Vec<MessageData>) -> (r: bool)
    ensures
        r == consecutive_agree(data@),
{
    let n = data.len();
    let mut i: usize = 1;
    while i < n
        invariant
            n == data@.len(),
            1 <= i,
            forall|k: int| 0 < k < i && k < n ==> #[trigger] metadata_agree(data@[k - 1], data@[k]),
        decreases n - i,
    {
        let prev = &data[i - 1];
        let this = &data[i];
        let same_timestamp = match (prev.timestamp, this.timestamp) {
            (Some(a), Some(b)) => a.nanos == b.nanos,
            (None, None) => true,
            _ => false,
        };
        if !(same_timestamp && prev.period_number == this.period_number
            && prev.protons_per_pulse == this.protons_per_pulse && prev.running == this.running) {
            assert(!metadata_agree(data@[i - 1], data@[i as int]));
            return false;
        }
        i = i + 1;
    }
    true
}

/// Law: agreement of neighbours is agreement of all. When each message agrees
/// with the one before it, any two messages agree.
pub proof fn law_consecutive_agreement_is_total(data: Seq<MessageData>)
    requires
        consecutive_agree(data),
    ensures
        forall|i: int, j: int| 0 <= i < data.len() && 0 <= j < data.len() ==> metadata_agree(data[i], data[j]),
{
    assert forall|i: int, j: int| 0 <= i < data.len() && 0 <= j < data.len() implies metadata_agree(data[i], data[j]) by {
        lemma_agree_with_first(data, i);
        lemma_agree_with_first(data, j);
    }
}

proof fn lemma_agree_with_first(data: Seq<MessageData>, i: int)
    requires
        consecutive_agree(data),
        0 <= i < data.len(),
    ensures
        metadata_agree(data[0], data[i]),
    decreases i,
{
    if i > 0 {
        lemma_agree_with_first(data, i - 1);
        assert(metadata_agree(data[i - 1], data[i]));
    }
}

/// The state of a collected frame.
#[derive(Clone, Copy, Debug, PartialEq, Eq, Structural)]
pub enum FrameStatus {
    /// Not every digitiser sent its event list.
    IncompleteEventLists,
    /// Not every digitiser sent its trace.
    IncompleteTraces,
    /// The event lists disagree in their metadata.
    UnequalEventLists,
    /// The traces disagree in their metadata.
    UnequalTraces,
    /// Every message arrived and the metadata agree.
    Complete,
}

/// The state of a frame with the given event-list and trace messages.
pub open spec fn frame_status(event_lists: Seq<MessageData>, traces: Seq<MessageData>) -> FrameStatus {
    if event_lists.len() != EXPECTED_DIGITISERS {
        FrameStatus::IncompleteEventLists
    } else if traces.len() != EXPECTED_DIGITISERS {
        FrameStatus::IncompleteTraces
    } else if !consecutive_agree(event_lists) {
        FrameStatus::UnequalEventLists
    } else if !consecutive_agree(traces) {
        FrameStatus::UnequalTraces
    } else {
        FrameStatus::Complete
    }
}

/// Classifies a frame from its event-list and trace messages.
pub fn classify(event_lists: &Vec<MessageData>, traces: &Vec<MessageData>) -> (s: FrameStatus)
    ensures
        s == frame_status(event_lists@, traces@),
{
    if event_lists.len() != EXPECTED_DIGITISERS {
        FrameStatus::IncompleteEventLists
    } else if traces.len() != EXPECTED_DIGITISERS {
        FrameStatus::IncompleteTraces
    } else if !is_metadata_equal(event_lists) {
        FrameStatus::UnequalEventLists
    } else if !is_metadata_equal(traces) {
        FrameStatus::UnequalTraces
    } else {
        FrameStatus::Complete
    }
}

/// The kind of a digitiser message.
#[derive(Clone, Copy, Debug, PartialEq, Eq, Structural)]
pub enum MessageKind {
    EventList,
    Trace,
}

/// The messages collected for one frame.
#[derive(Debug)]
pub struct FrameMessages {
    pub event_lists: Vec<MessageData>,
    pub traces: Vec<MessageData>,
}

/// A frame's event-list and trace messages.
pub open spec fn frame_view(f: FrameMessages) -> (Seq<MessageData>, Seq<MessageData>) {
    (f.event_lists@, f.traces@)
}

/// A frame's messages after one more of the given kind arrived; a frame not
/// seen before starts with none.
pub open spec fn recorded(
    before: Option<(Seq<MessageData>, Seq<MessageData>)>,
    kind: MessageKind,
    data: MessageData,
) -> (Seq<MessageData>, Seq<MessageData>) {
    let (event_lists, traces) = match before {
        Some(e) => e,
        None => (Seq::empty(), Seq::empty()),
    };
    if kind == MessageKind::EventList {
        (event_lists.push(data), traces)
    } else {
        (event_lists, traces.push(data))
    }
}

/// `entry` names a collected frame and gives that frame's state.
pub open spec fn reported(frames: Map<FrameNumber, FrameMessages>, entry: (FrameNumber, FrameStatus)) -> bool {
    &&& frames.contains_key(entry.0)
    &&& entry.1 == frame_status(frames[entry.0].event_lists@, frames[entry.0].traces@)
}

/// The frame numbers of a report.
pub open spec fn report_frames(r: Seq<(FrameNumber, FrameStatus)>) -> Seq<FrameNumber> {
    r.map_values(|e: (FrameNumber, FrameStatus)| e.0)
}

/// Gathers the metadata of digitiser messages by frame number.
#[derive(Debug)]
pub struct FrameCollector {
    pub frames: HashMap<FrameNumber, FrameMessages>,
}

impl FrameCollector {
    /// A collector with no frame.
    pub fn new() -> (c: Self)
        ensures
            c.frames@ == Map::<FrameNumber, FrameMessages>::empty(),
    {
        FrameCollector { frames: HashMap::new() }
    }

    /// The number of frames collected.
    pub fn len(&self) -> (n: usize)
        ensures
            n == self.frames@.len(),
    {
        self.frames.len()
    }

    /// Whether `frames_to_collect` frames have been seen.
    pub fn is_done(&self, frames_to_collect: usize) -> (r: bool)
        ensures
            r == (self.frames@.len() >= frames_to_collect),
    {
        self.frames.len() >= frames_to_collect
    }

    /// The messages collected for frame `frame_number`, if any.
    pub fn get(&self, frame_number: FrameNumber) -> (r: Option<&FrameMessages>)
        ensures
            r.is_some() == self.frames@.contains_key(frame_number),
            r matches Some(f) ==> *f == self.frames@[frame_number],
    {
        self.frames.get(&frame_number)
    }

    /// Records a message of the given kind for frame `frame_number`.
    pub fn record(&mut self, frame_number: FrameNumber, kind: MessageKind, data: MessageData)
        ensures
            final(self).frames@.dom() == old(self).frames@.dom().insert(frame_number),
            forall|k: FrameNumber|
                k != frame_number && #[trigger] old(self).frames@.contains_key(k) ==> final(self).frames@[k]
                    == old(self).frames@[k],
            frame_view(final(self).frames@[frame_number]) == recorded(
                if old(self).frames@.contains_key(frame_number) {
                    Some(frame_view(old(self).frames@[frame_number]))
                } else {
                    None
                },
                kind,
                data,
            ),
    {
        let mut entry = match self.frames.remove(&frame_number) {
            Some(e) => e,
            None => FrameMessages { event_lists: Vec::new(), traces: Vec::new() },
        };
        match kind {
            MessageKind::EventList => entry.event_lists.push(data),
            MessageKind::Trace => entry.traces.push(data),
        }
        self.frames.insert(frame_number, entry);
    }

    /// The frame numbers collected, each once.
    fn frame_numbers(&self) -> (r: Vec<FrameNumber>)
        ensures
            r@.to_set() == self.frames@.dom(),
            r@.no_duplicates(),
    {
        let mut r: Vec<FrameNumber> = Vec::new();
        let ghost all = vstd::std_specs::iter::IteratorSpec::remaining(&vstd::std_specs::hash::spec_keys_iter(&self.frames));
        for k in it: self.frames.keys()
            invariant
                it.seq() == all,
                r@.len() == it.index(),
                forall|j: int| 0 <= j < it.index() ==> r@[j] == *all[j],
            ensures
                r@ == all.unref(),
        {
            r.push(*k);
        }
        r
    }

    /// The frame numbers collected, in ascending order, each with its state.
    pub fn report(&self) -> (r: Vec<(FrameNumber, FrameStatus)>)
        ensures
            sorted_by(report_frames(r@), frame_leq()),
            report_frames(r@).no_duplicates(),
            report_frames(r@).to_set() == self.frames@.dom(),
            forall|j: int| 0 <= j < r@.len() ==> #[trigger] reported(self.frames@, r@[j]),
    {
        let keys = self.frame_numbers();
        let sorted = sorted_frame_numbers(&keys);
        proof {
            keys@.lemma_multiset_has_no_duplicates();
            assert forall|x: FrameNumber| sorted@.to_multiset().contains(x) implies sorted@.to_multiset().count(x)
                == 1 by {}
            sorted@.lemma_multiset_has_no_duplicates_conv();
        }
        let mut r: Vec<(FrameNumber, FrameStatus)> = Vec::new();
        let m = sorted.len();
        let mut j: usize = 0;
        while j < m
            invariant
                m == sorted@.len(),
                j <= m,
                sorted@.to_multiset() == keys@.to_multiset(),
                keys@.to_set() == self.frames@.dom(),
                report_frames(r@) == sorted@.subrange(0, j as int),
                forall|k: int| 0 <= k < j ==> #[trigger] reported(self.frames@, r@[k]),
            decreases m - j,
        {
            let key = sorted[j];
            proof {
                vstd::seq_lib::to_multiset_contains(sorted@, key);
                vstd::seq_lib::to_multiset_contains(keys@, key);
                assert(keys@.contains(key));
                assert(keys@.to_set().contains(key));
            }
            let entry = self.frames.get(&key).unwrap();
            let status = classify(&entry.event_lists, &entry.traces);
            let ghost before = r@;
            r.push((key, status));
            proof {
                assert(report_frames(r@) =~= report_frames(before).push(key));
                assert(sorted@.subrange(0, j + 1) =~= sorted@.subrange(0, j as int).push(key));
                assert(reported(self.frames@, r@[j as int]));
            }
            j = j + 1;
        }
        proof {
            assert(sorted@.subrange(0, m as int) =~= sorted@);
            assert forall|x: FrameNumber| #[trigger] report_frames(r@).to_set().contains(x) == self.frames@.dom().contains(
                x,
            ) by {
                vstd::seq_lib::to_multiset_contains(sorted@, x);
                vstd::seq_lib::to_multiset_contains(keys@, x);
            }
            assert(report_frames(r@).to_set() =~= self.frames@.dom());
        }
        r
    }
}

/// Law: messages agree exactly when they share their timestamp, period
/// number, protons per pulse and running flag. `is_metadata_equal` accepts a
/// list exactly when any two of its messages are equal in those four fields,
/// whatever their identifiers and veto flags.
pub proof fn law_agreement_is_equality_of_four_fields(data: Seq<MessageData>)
    ensures
        consecutive_agree(data) <==> forall|i: int, j: int|
            0 <= i < data.len() && 0 <= j < data.len() ==> {
                &&& (#[trigger] data[i]).timestamp == (#[trigger] data[j]).timestamp
                &&& data[i].period_number == data[j].period_number
                &&& data[i].protons_per_pulse == data[j].protons_per_pulse
                &&& data[i].running == data[j].running
            },
{
    if consecutive_agree(data) {
        law_consecutive_agreement_is_total(data);
        assert forall|i: int, j: int| 0 <= i < data.len() && 0 <= j < data.len() implies {
            &&& (#[trigger] data[i]).timestamp == (#[trigger] data[j]).timestamp
            &&& data[i].period_number == data[j].period_number
            &&& data[i].protons_per_pulse == data[j].protons_per_pulse
            &&& data[i].running == data[j].running
        } by {
            assert(metadata_agree(data[i], data[j]));
        }
    }
    if forall|i: int, j: int|
        0 <= i < data.len() && 0 <= j < data.len() ==> {
            &&& (#[trigger] data[i]).timestamp == (#[trigger] data[j]).timestamp
            &&& data[i].period_number == data[j].period_number
            &&& data[i].protons_per_pulse == data[j].protons_per_pulse
            &&& data[i].running == data[j].running
        } {
        assert forall|i: int| 0 < i < data.len() implies #[trigger] metadata_agree(data[i - 1], data[i]) by {
            assert(data[i - 1].timestamp == data[i].timestamp);
        }
    }
}

/// Law: a full frame whose event lists differ in timestamp, period number,
/// protons per pulse or running flag is classified as having unequal event
/// lists, whichever two event lists differ.
pub proof fn law_differing_event_lists_are_unequal(
    event_lists: Seq<MessageData>,
    traces: Seq<MessageData>,
    i: int,
    j: int,
)
    requires
        event_lists.len() == EXPECTED_DIGITISERS,
        traces.len() == EXPECTED_DIGITISERS,
        0 <= i < event_lists.len(),
        0 <= j < event_lists.len(),
        event_lists[i].timestamp != event_lists[j].timestamp || event_lists[i].period_number
            != event_lists[j].period_number || event_lists[i].protons_per_pulse != event_lists[j].protons_per_pulse
            || event_lists[i].running != event_lists[j].running,
    ensures
        frame_status(event_lists, traces) == FrameStatus::UnequalEventLists,
{
    law_agreement_is_equality_of_four_fields(event_lists);
    assert(event_lists[i] == event_lists[i]);
}

/// Law: a full frame whose event lists all share the four fields, and whose
/// traces all share them too, is complete, whatever the identifiers and veto
/// flags.
pub proof fn law_equal_frames_are_complete(event_lists: Seq<MessageData>, traces: Seq<MessageData>)
    requires
        event_lists.len() == EXPECTED_DIGITISERS,
        traces.len() == EXPECTED_DIGITISERS,
        forall|i: int, j: int|
            0 <= i < event_lists.len() && 0 <= j < event_lists.len() ==> {
                &&& (#[trigger] event_lists[i]).timestamp == (#[trigger] event_lists[j]).timestamp
                &&& event_lists[i].period_number == event_lists[j].period_number
                &&& event_lists[i].protons_per_pulse == event_lists[j].protons_per_pulse
                &&& event_lists[i].running == event_lists[j].running
            },
        forall|i: int, j: int|
            0 <= i < traces.len() && 0 <= j < traces.len() ==> {
                &&& (#[trigger] traces[i]).timestamp == (#[trigger] traces[j]).timestamp
                &&& traces[i].period_number == traces[j].period_number
                &&& traces[i].protons_per_pulse == traces[j].protons_per_pulse
                &&& traces[i].running == traces[j].running
            },
    ensures
        frame_status(event_lists, traces) == FrameStatus::Complete,
{
    law_agreement_is_equality_of_four_fields(event_lists);
    law_agreement_is_equality_of_four_fields(traces);
}

} // verus!
