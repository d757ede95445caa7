use vstd::prelude::*;

use crate::keyed::{as_map, has_key, keys_distinct, lemma_push, lemma_remove, lemma_value_at_index, value_at};
use crate::messages::{Channel, DigitizerId, FrameNumber};
use crate::pairing::{
    channel_events, is_pair_of, ChannelEventList, ChannelListView, DetectedMessage, DetectedView, GroupView, Header,
    HeaderView, MessageGroup, MessagePair, MessagePairView,
};
use crate::time::Timestamp;

verus! {

/// The digitiser and frame whose repeated messages are analysed together.
#[derive(Clone, Copy, Debug, PartialEq, Eq, Structural)]
pub struct AnalysisKey {
    pub digitiser_id: DigitizerId,
    pub frame_number: FrameNumber,
}

/// Identifies one event-list message: its timestamp, digitiser and frame.
#[derive(Clone, Copy, Debug, PartialEq, Eq, Structural)]
pub struct MessageKey {
    pub ts: Timestamp,
    pub analysis_key: AnalysisKey,
}

impl MessageKey {
    /// The key of a message with the given timestamp, digitiser and frame.
    pub fn new(ts: Timestamp, digitiser_id: DigitizerId, frame_number: FrameNumber) -> (k: MessageKey)
        ensures
            k.ts == ts,
            k.analysis_key.digitiser_id == digitiser_id,
            k.analysis_key.frame_number == frame_number,
    {
        MessageKey { ts, analysis_key: AnalysisKey { digitiser_id, frame_number } }
    }
}

/// The group under `key`, or an empty group where there is none.
pub open spec fn current_group(groups: Seq<(MessageKey, GroupView)>, key: MessageKey) -> GroupView {
    if has_key(groups, key) {
        value_at(groups, key)
    } else {
        (None, None)
    }
}

/// The pairs collected under `key`, or none.
pub open spec fn current_pairs(
    vectors: Seq<(AnalysisKey, Seq<MessagePairView>)>,
    key: AnalysisKey,
) -> Seq<MessagePairView> {
    if has_key(vectors, key) {
        value_at(vectors, key)
    } else {
        Seq::empty()
    }
}

/// The group after a message from `topic` arrived. With a simulated topic
/// configured, a message from the trace-to-events topic is the detected one and
/// a message from the simulated topic the simulated one (a message from any
/// other topic changes nothing); without it, each message is both.
pub open spec fn next_group(
    trace_to_events_topic: Seq<char>,
    simulated_events_topic: Option<Seq<char>>,
    topic: Seq<char>,
    g: GroupView,
    message: DetectedView,
) -> GroupView {
    match simulated_events_topic {
        Some(sim) => if topic == trace_to_events_topic {
            (Some(message), g.1)
        } else if topic == sim {
            (g.0, Some(message.1))
        } else {
            g
        },
        None => (Some(message), Some(message.1)),
    }
}

/// What `handle_event_list` does with a message from `topic` under `key`:
/// the message joins its group as `next_group` says; a group with both sides
/// leaves the groups and its pair joins the pairs of its analysis key, which
/// are handed back, and forgotten, once `expected_repetitions` of them are in.
pub open spec fn event_list_handled(
    old: Analyser,
    new: Analyser,
    topic: Seq<char>,
    key: MessageKey,
    header: HeaderView,
    list: ChannelListView,
    r: Option<(AnalysisKey, Vec<MessagePair>)>,
) -> bool {
    let g = next_group(
        old.trace_to_events_topic@,
        old.simulated_topic(),
        topic,
        current_group(old.groups(), key),
        (header, list),
    );
    let v = current_pairs(old.vectors(), key.analysis_key);
    if g.0.is_some() && g.1.is_some() {
        &&& as_map(new.groups()) == as_map(old.groups()).remove(key)
        &&& if v.len() + 1 == old.expected_repetitions {
            &&& r matches Some(out) && out.0 == key.analysis_key && pairs_view(out.1@).drop_last() == v
                && out.1@.len() == v.len() + 1 && is_pair_of(out.1@.last()@, g.0.unwrap(), g.1.unwrap())
            &&& as_map(new.vectors()) == as_map(old.vectors()).remove(key.analysis_key)
        } else {
            let w = as_map(new.vectors())[key.analysis_key];
            &&& r is None
            &&& w.len() == v.len() + 1
            &&& w.drop_last() == v
            &&& is_pair_of(w.last(), g.0.unwrap(), g.1.unwrap())
            &&& as_map(new.vectors()) == as_map(old.vectors()).insert(key.analysis_key, w)
        }
    } else {
        &&& r is None
        &&& as_map(new.groups()) == as_map(old.groups()).insert(key, g)
        &&& new.vectors() == old.vectors()
    }
}

/// Every collected vector of pairs is shorter than `expected`.
pub open spec fn vectors_below(vectors: Map<AnalysisKey, Seq<MessagePairView>>, expected: usize) -> bool {
    forall|k: AnalysisKey| #[trigger] vectors.contains_key(k) ==> vectors[k].len() < expected
}

/// The state of the analyser's message matching.
#[derive(Debug)]
pub struct Analyser {
    pub trace_to_events_topic: String,
    pub simulated_events_topic: Option<String>,
    pub expected_repetitions: usize,
    pub message_groups: Vec<(MessageKey, MessageGroup)>,
    pub message_pair_vectors: Vec<(AnalysisKey, Vec<MessagePair>)>,
}

/// The pairs of a vector, as views.
pub open spec fn pairs_view(v: Seq<MessagePair>) -> Seq<MessagePairView> {
    v.map_values(|p: MessagePair| p@)
}

impl Analyser {
    /// The message groups, by key.
    pub open spec fn groups(&self) -> Seq<(MessageKey, GroupView)> {
        self.message_groups@.map_values(|e: (MessageKey, MessageGroup)| (e.0, e.1@))
    }

    /// The collected pairs, by analysis key.
    pub open spec fn vectors(&self) -> Seq<(AnalysisKey, Seq<MessagePairView>)> {
        self.message_pair_vectors@.map_values(|e: (AnalysisKey, Vec<MessagePair>)| (e.0, pairs_view(e.1@)))
    }

    /// The simulated topic, as text.
    pub open spec fn simulated_topic(&self) -> Option<Seq<char>> {
        match self.simulated_events_topic {
            Some(s) => Some(s@),
            None => None,
        }
    }

    /// No message key and no analysis key occurs twice.
    pub open spec fn wf(&self) -> bool {
        &&& keys_distinct(self.groups())
        &&& keys_distinct(self.vectors())
    }

    /// An analyser with no message yet.
    pub fn new(
        trace_to_events_topic: String,
        simulated_events_topic: Option<String>,
        expected_repetitions: usize,
    ) -> (a: Analyser)
        ensures
            a.wf(),
            a.trace_to_events_topic == trace_to_events_topic,
            a.simulated_events_topic == simulated_events_topic,
            a.expected_repetitions == expected_repetitions,
            a.groups().len() == 0,
            a.vectors().len() == 0,
    {
        let a = Analyser {
            trace_to_events_topic,
            simulated_events_topic,
            expected_repetitions,
            message_groups: Vec::new(),
            message_pair_vectors: Vec::new(),
        };
        assert(a.groups() =~= Seq::<(MessageKey, GroupView)>::empty());
        assert(a.vectors() =~= Seq::<(AnalysisKey, Seq<MessagePairView>)>::empty());
        a
    }

    /// Whether messages from `topic` take part in matching: every message
    /// does without a simulated topic, otherwise those from either configured
    /// topic. A message from any other topic changes no group.
    pub fn keeps_topic(&self, topic: &String) -> (r: bool)
        ensures
            r == match self.simulated_topic() {
                None => true,
                Some(sim) => topic@ == self.trace_to_events_topic@ || topic@ == sim,
            },
            !r ==> forall|g: GroupView, m: DetectedView|
                #[trigger] next_group(self.trace_to_events_topic@, self.simulated_topic(), topic@, g, m) == g,
    {
        match &self.simulated_events_topic {
            None => true,
            Some(sim) => *topic == self.trace_to_events_topic || *topic == *sim,
        }
    }

    fn group_position(&self, key: MessageKey) -> (r: Option<usize>)
        requires
            self.wf(),
        ensures
            r.is_some() == has_key(self.groups(), key),
            r matches Some(k) ==> k < self.groups().len() && self.groups()[k as int].0 == key,
    {
        let n = self.message_groups.len();
        let mut k: usize = 0;
        while k < n
            invariant
                n == self.message_groups@.len(),
                k <= n,
                forall|j: int| 0 <= j < k ==> (#[trigger] self.groups()[j]).0 != key,
            decreases n - k,
        {
            if self.message_groups[k].0 == key {
                assert(self.groups()[k as int].0 == key);
                return Some(k);
            }
            assert(self.groups()[k as int].0 != key);
            k = k + 1;
        }
        proof {
            if has_key(self.groups(), key) {
                let j = choose|j: int| 0 <= j < self.groups().len() && (#[trigger] self.groups()[j]).0 == key;
                assert(self.groups()[j].0 != key);
            }
        }
        None
    }

    fn vector_position(&self, key: AnalysisKey) -> (r: Option<usize>)
        requires
            self.wf(),
        ensures
            r.is_some() == has_key(self.vectors(), key),
            r matches Some(k) ==> k < self.vectors().len() && self.vectors()[k as int].0 == key,
    {
        let n = self.message_pair_vectors.len();
        let mut k: usize = 0;
        while k < n
            invariant
                n == self.message_pair_vectors@.len(),
                k <= n,
                forall|j: int| 0 <= j < k ==> (#[trigger] self.vectors()[j]).0 != key,
            decreases n - k,
        {
            if self.message_pair_vectors[k].0 == key {
                assert(self.vectors()[k as int].0 == key);
                return Some(k);
            }
            assert(self.vectors()[k as int].0 != key);
            k = k + 1;
        }
        proof {
            if has_key(self.vectors(), key) {
                let j = choose|j: int| 0 <= j < self.vectors().len() && (#[trigger] self.vectors()[j]).0 == key;
                assert(self.vectors()[j].0 != key);
            }
        }
        None
    }

    /// Takes the group under `key` out of the store (an empty group where there is none).
    fn take_group(&mut self, key: MessageKey) -> (g: MessageGroup)
        requires
            old(self).wf(),
        ensures
            final(self).wf(),
            g@ == current_group(old(self).groups(), key),
            as_map(final(self).groups()) == as_map(old(self).groups()).remove(key),
            final(self).vectors() == old(self).vectors(),
            final(self).trace_to_events_topic == old(self).trace_to_events_topic,
            final(self).simulated_events_topic == old(self).simulated_events_topic,
            final(self).expected_repetitions == old(self).expected_repetitions,
    {
        let ghost before = self.groups();
        match self.group_position(key) {
            Some(k) => {
                let (_, g) = self.message_groups.remove(k);
                proof {
                    assert(self.groups() =~= before.remove(k as int));
                    lemma_remove(before, k as int);
                    lemma_value_at_index(before, k as int);
                }
                g
            },
            None => {
                proof {
                    assert(as_map(before).remove(key) =~= as_map(before));
                }
                MessageGroup::new()
            },
        }
    }

    /// Takes the pairs under `key` out of the store (none where there are none).
    fn take_pairs(&mut self, key: AnalysisKey) -> (v: Vec<MessagePair>)
        requires
            old(self).wf(),
        ensures
            final(self).wf(),
            pairs_view(v@) == current_pairs(old(self).vectors(), key),
            as_map(final(self).vectors()) == as_map(old(self).vectors()).remove(key),
            final(self).groups() == old(self).groups(),
            final(self).trace_to_events_topic == old(self).trace_to_events_topic,
            final(self).simulated_events_topic == old(self).simulated_events_topic,
            final(self).expected_repetitions == old(self).expected_repetitions,
    {
        let ghost before = self.vectors();
        match self.vector_position(key) {
            Some(k) => {
                let (_, v) = self.message_pair_vectors.remove(k);
                proof {
                    assert(self.vectors() =~= before.remove(k as int));
                    lemma_remove(before, k as int);
                    lemma_value_at_index(before, k as int);
                }
                v
            },
            None => {
                let v: Vec<MessagePair> = Vec::new();
                proof {
                    assert(as_map(before).remove(key) =~= as_map(before));
                    assert(pairs_view(v@) =~= Seq::<MessagePairView>::empty());
                }
                v
            },
        }
    }

    /// Handles an event-list message from `topic` with key `key`, headers
    /// `header` and event lists `list`. Once the detected and the simulated
    /// lists of a key have both arrived, they are paired and the pair is added
    /// to those of the key's digitiser and frame; when that makes
    /// `expected_repetitions` pairs, they are handed back for analysis and
    /// forgotten.
    pub fn handle_event_list(&mut self, topic: &String, key: MessageKey, header: Header, list: ChannelEventList) -> (r:
        Option<(AnalysisKey, Vec<MessagePair>)>)
        requires
            old(self).wf(),
        ensures
            final(self).wf(),
            final(self).trace_to_events_topic == old(self).trace_to_events_topic,
            final(self).simulated_events_topic == old(self).simulated_events_topic,
            final(self).expected_repetitions == old(self).expected_repetitions,
            old(self).expected_repetitions > 0 && vectors_below(as_map(old(self).vectors()), old(self).expected_repetitions)
                ==> vectors_below(as_map(final(self).vectors()), final(self).expected_repetitions),
            event_list_handled(*old(self), *final(self), topic@, key, header@, list@, r),
    {
        let ghost groups0 = self.groups();
        let ghost vectors0 = self.vectors();
        let ghost message: DetectedView = (header@, list@);
        let ghost g0 = current_group(groups0, key);
        let mut group = self.take_group(key);
        let ghost g = next_group(self.trace_to_events_topic@, self.simulated_topic(), topic@, g0, message);
        match &self.simulated_events_topic {
            Some(sim) => {
                if *topic == self.trace_to_events_topic {
                    group.detected = Some(DetectedMessage { header, message: list });
                } else if *topic == *sim {
                    group.simulated = Some(list);
                }
            },
            None => {
                let copy = list.duplicate();
                group.detected = Some(DetectedMessage { header, message: copy });
                group.simulated = Some(list);
            },
        }
        assert(group@ == g);
        if group.detected.is_some() && group.simulated.is_some() {
            let pair = MessagePair::from_message_group(&group).unwrap();
            let akey = key.analysis_key;
            let mut pairs = self.take_pairs(akey);
            let ghost v = pairs_view(pairs@);
            pairs.push(pair);
            proof {
                assert(pairs_view(pairs@) =~= v.push(pair@));
            }
            if pairs.len() == self.expected_repetitions {
                proof {
                    assert(pairs_view(pairs@).drop_last() =~= v);
                }
                Some((akey, pairs))
            } else {
                let ghost vectors1 = self.vectors();
                self.message_pair_vectors.push((akey, pairs));
                proof {
                    let w = pairs_view(pairs@);
                    assert(self.vectors() =~= vectors1.push((akey, w)));
                    assert(as_map(vectors1).dom().contains(akey) == has_key(vectors1, akey));
                    assert(!has_key(vectors1, akey));
                    lemma_push(vectors1, akey, w);
                    assert(as_map(self.vectors()) =~= as_map(vectors0).insert(akey, w));
                    assert(w.drop_last() =~= v);
                }
                None
            }
        } else {
            let ghost groups1 = self.groups();
            let ghost gv = group@;
            self.message_groups.push((key, group));
            proof {
                assert(self.groups() =~= groups1.push((key, gv)));
                assert(as_map(groups1).dom().contains(key) == has_key(groups1, key));
                assert(!has_key(groups1, key));
                lemma_push(groups1, key, gv);
                assert(as_map(self.groups()) =~= as_map(groups0).insert(key, g));
            }
            None
        }
    }
}

/// Law: with a simulated topic configured, the two sides of a pair come from
/// their own topics. A message from the trace-to-events topic and then one from
/// the simulated topic (another topic), both under a key that had no group,
/// make one new pair: its headers are those of the trace-to-events message, it
/// has the channels of either message, and each channel's detected events are
/// those of the trace-to-events message and its simulated events those of the
/// simulated-topic message. The pair is handed back when it completes the
/// expected repetitions, and otherwise kept as the last pair of its analysis key.
pub proof fn law_pair_sides_follow_topics(
    a: Analyser,
    b: Analyser,
    c: Analyser,
    key: MessageKey,
    detected_header: HeaderView,
    detected: ChannelListView,
    r1: Option<(AnalysisKey, Vec<MessagePair>)>,
    simulated_header: HeaderView,
    simulated: ChannelListView,
    r2: Option<(AnalysisKey, Vec<MessagePair>)>,
)
    requires
        a.simulated_events_topic is Some,
        a.simulated_topic().unwrap() != a.trace_to_events_topic@,
        !as_map(a.groups()).contains_key(key),
        event_list_handled(a, b, a.trace_to_events_topic@, key, detected_header, detected, r1),
        b.trace_to_events_topic == a.trace_to_events_topic,
        b.simulated_events_topic == a.simulated_events_topic,
        b.expected_repetitions == a.expected_repetitions,
        event_list_handled(b, c, a.simulated_topic().unwrap(), key, simulated_header, simulated, r2),
    ensures
        r1 is None,
        ({
            let p = match r2 {
                Some(out) => out.1@.last()@,
                None => as_map(c.vectors())[key.analysis_key].last(),
            };
            &&& p.0 == detected_header
            &&& p.1.dom() == detected.dom().union(simulated.dom())
            &&& forall|ch: Channel|
                #[trigger] p.1.contains_key(ch) ==> p.1[ch] == (channel_events(detected, ch), channel_events(simulated, ch))
        }),
{
    let g1: GroupView = (Some((detected_header, detected)), None);
    assert(!has_key(a.groups(), key));
    assert(current_group(a.groups(), key) == (None::<DetectedView>, None::<ChannelListView>));
    assert(as_map(b.groups()) == as_map(a.groups()).insert(key, g1));
    assert(as_map(b.groups()).contains_key(key));
    assert(has_key(b.groups(), key));
    assert(as_map(b.groups())[key] == g1);
    assert(current_group(b.groups(), key) == g1);
}


/// Law: without a simulated topic, every message is paired with itself. The
/// new pair, handed back or kept as the last pair of its analysis key, has the
/// message's headers and channels, and each channel's detected and simulated
/// events are both that channel's events in the message.
pub proof fn law_message_pairs_with_itself_without_simulated_topic(
    a: Analyser,
    b: Analyser,
    topic: Seq<char>,
    key: MessageKey,
    header: HeaderView,
    list: ChannelListView,
    r: Option<(AnalysisKey, Vec<MessagePair>)>,
)
    requires
        a.simulated_events_topic is None,
        event_list_handled(a, b, topic, key, header, list, r),
    ensures
        ({
            let p = match r {
                Some(out) => out.1@.last()@,
                None => as_map(b.vectors())[key.analysis_key].last(),
            };
            &&& p.0 == header
            &&& p.1.dom() == list.dom()
            &&& forall|ch: Channel|
                #[trigger] p.1.contains_key(ch) ==> p.1[ch] == (channel_events(list, ch), channel_events(list, ch))
        }),
        !as_map(b.groups()).contains_key(key),
{
    assert(list.dom().union(list.dom()) =~= list.dom());
}

/// Law: with a simulated topic configured, a message from any other topic
/// hands nothing back and leaves the collected pairs as they were.
pub proof fn law_other_topics_make_no_pair(
    a: Analyser,
    b: Analyser,
    topic: Seq<char>,
    key: MessageKey,
    header: HeaderView,
    list: ChannelListView,
    r: Option<(AnalysisKey, Vec<MessagePair>)>,
)
    requires
        a.simulated_events_topic is Some,
        topic != a.trace_to_events_topic@,
        topic != a.simulated_topic().unwrap(),
        !as_map(a.groups()).contains_key(key),
        event_list_handled(a, b, topic, key, header, list, r),
    ensures
        r is None,
        b.vectors() == a.vectors(),
{
    assert(!has_key(a.groups(), key));
}

} // verus!
