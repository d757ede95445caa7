use vstd::prelude::*;

use std::collections::HashMap;

use crate::keyed::{has_key, keys_distinct, lemma_value_at_index, value_at};
use crate::messages::{Channel, Intensity, Time};

verus! {

broadcast use {vstd::string::to_string_from_display_ensures_for_str, vstd::std_specs::hash::group_hash_axioms};

/// The events of one channel: their times and pulse heights, as two lists.
pub type EventListView = (Seq<Time>, Seq<Intensity>);

/// The empty event list.
pub open spec fn empty_events() -> EventListView {
    (Seq::empty(), Seq::empty())
}

/// The events of one channel.
#[derive(Debug)]
pub struct EventList {
    pub voltage: Vec<Intensity>,
    pub time: Vec<Time>,
}

impl View for EventList {
    type V = EventListView;

    open spec fn view(&self) -> EventListView {
        (self.time@, self.voltage@)
    }
}

impl EventList {
    /// An event list with no event.
    pub fn new() -> (e: EventList)
        ensures
            e@ == empty_events(),
    {
        EventList { voltage: Vec::new(), time: Vec::new() }
    }

    /// A copy of this event list.
    pub fn duplicate(&self) -> (e: EventList)
        ensures
            e@ == self@,
    {
        let time = self.time.clone();
        let voltage = self.voltage.clone();
        assert(time@ == self.time@);
        assert(voltage@ == self.voltage@);
        EventList { voltage, time }
    }
}

/// The values at the positions `0 .. n` whose channel is `c`, in order.
pub open spec fn picked<T>(channels: Seq<Channel>, values: Seq<T>, c: Channel, n: int) -> Seq<T>
    decreases n,
{
    if n <= 0 {
        Seq::empty()
    } else if channels[n - 1] == c {
        picked(channels, values, c, n - 1).push(values[n - 1])
    } else {
        picked(channels, values, c, n - 1)
    }
}

/// Event lists keyed by channel.
pub type ChannelListView = Map<Channel, EventListView>;

/// The event list of channel `c`, empty where the channel has none.
pub open spec fn channel_events(s: ChannelListView, c: Channel) -> EventListView {
    if s.contains_key(c) {
        s[c]
    } else {
        empty_events()
    }
}

/// The event lists of a message, one per channel that occurs in it.
#[derive(Debug)]
pub struct ChannelEventList {
    pub lists: HashMap<Channel, EventList>,
}

impl View for ChannelEventList {
    type V = ChannelListView;

    open spec fn view(&self) -> ChannelListView {
        self.lists@.map_values(|e: EventList| e@)
    }
}

impl ChannelEventList {
    /// A list with no channel.
    pub fn new() -> (l: ChannelEventList)
        ensures
            l@ == Map::<Channel, EventListView>::empty(),
    {
        let l = ChannelEventList { lists: HashMap::new() };
        assert(l@ =~= Map::<Channel, EventListView>::empty());
        l
    }

    /// The event list of channel `c`, if the channel occurs.
    pub fn get(&self, c: Channel) -> (r: Option<&EventList>)
        ensures
            r.is_some() == self@.contains_key(c),
            r matches Some(e) ==> e@ == self@[c],
    {
        self.lists.get(&c)
    }

    /// A copy of this list.
    pub fn duplicate(&self) -> (l: ChannelEventList)
        ensures
            l@ == self@,
    {
        let keys = channel_keys(&self.lists);
        let mut lists: HashMap<Channel, EventList> = HashMap::new();
        let mut i: usize = 0;
        while i < keys.len()
            invariant
                i <= keys@.len(),
                keys@.to_set() == self.lists@.dom(),
                forall|k: Channel| #[trigger] lists@.contains_key(k) <==> keys@.subrange(0, i as int).contains(k),
                forall|k: Channel| #[trigger] lists@.contains_key(k) ==> lists@[k]@ == self@[k],
            decreases keys@.len() - i,
        {
            let c = keys[i];
            proof {
                assert(keys@.contains(c));
                lemma_push_contains(keys@.subrange(0, i as int), c);
                assert(keys@.subrange(0, i + 1) =~= keys@.subrange(0, i as int).push(c));
            }
            let e = self.lists.get(&c).unwrap().duplicate();
            lists.insert(c, e);
            i = i + 1;
        }
        let l = ChannelEventList { lists };
        proof {
            assert(keys@.subrange(0, keys@.len() as int) =~= keys@);
            assert forall|k: Channel| #[trigger] l@.contains_key(k) == self@.contains_key(k) by {
                assert(keys@.to_set().contains(k) == keys@.contains(k));
            }
            assert(l@ =~= self@);
        }
        l
    }

    /// Groups the events of a message by channel: event `i` has channel
    /// `channel[i]`, time `time[i]` and pulse height `voltage[i]`. Each channel
    /// that occurs gets its events, in message order.
    pub fn from_message(channel: &[Channel], time: &[Time], voltage: &[Intensity]) -> (l: ChannelEventList)
        requires
            time@.len() >= channel@.len(),
            voltage@.len() >= channel@.len(),
        ensures
            forall|c: Channel| #[trigger] l@.contains_key(c) <==> channel@.contains(c),
            forall|c: Channel|
                #[trigger] l@.contains_key(c) ==> l@[c] == (
                    picked(channel@, time@, c, channel@.len() as int),
                    picked(channel@, voltage@, c, channel@.len() as int),
                ),
    {
        let n = channel.len();
        let mut list = ChannelEventList::new();
        let mut i: usize = 0;
        while i < n
            invariant
                n == channel@.len(),
                i <= n,
                time@.len() >= n,
                voltage@.len() >= n,
                forall|c: Channel| #[trigger] list@.contains_key(c) <==> channel@.subrange(0, i as int).contains(c),
                forall|c: Channel|
                    #[trigger] list@.contains_key(c) ==> list@[c] == (
                        picked(channel@, time@, c, i as int),
                        picked(channel@, voltage@, c, i as int),
                    ),
            decreases n - i,
        {
            let c = channel[i];
            let t = time[i];
            let v = voltage[i];
            let ghost before = list@;
            let ghost prefix = channel@.subrange(0, i as int);
            let ghost next = channel@.subrange(0, i + 1);
            assert(next == prefix.push(c));
            let mut e = match list.lists.remove(&c) {
                Some(e) => e,
                None => EventList::new(),
            };
            proof {
                if !before.contains_key(c) {
                    lemma_picked_absent(channel@, time@, c, i as int);
                    lemma_picked_absent(channel@, voltage@, c, i as int);
                }
                assert(e@ == (picked(channel@, time@, c, i as int), picked(channel@, voltage@, c, i as int)));
            }
            e.time.push(t);
            e.voltage.push(v);
            list.lists.insert(c, e);
            proof {
                assert(list@ =~= before.insert(c, e@));
                assert forall|q: Channel| #[trigger] list@.contains_key(q) <==> next.contains(q) by {
                    if q != c {
                        if next.contains(q) {
                            let w = choose|w: int| 0 <= w < next.len() && next[w] == q;
                            assert(prefix[w] == q);
                        }
                        if prefix.contains(q) {
                            let w = choose|w: int| 0 <= w < prefix.len() && prefix[w] == q;
                            assert(next[w] == q);
                        }
                    } else {
                        assert(next[i as int] == q);
                    }
                }
            }
            i = i + 1;
        }
        assert(channel@.subrange(0, n as int) == channel@);
        list
    }
}

/// The channels that are keys of `m`, each once.
fn channel_keys<V>(m: &HashMap<Channel, V>) -> (r: Vec<Channel>)
    ensures
        r@.to_set() == m@.dom(),
        r@.no_duplicates(),
{
    let mut r: Vec<Channel> = Vec::new();
    let ghost all = vstd::std_specs::iter::IteratorSpec::remaining(&vstd::std_specs::hash::spec_keys_iter(m));
    for k in it: m.keys()
        invariant
            it.seq() == all,
            r@.len() == it.index(),
            forall|j: int| 0 <= j < it.index() ==> r@[j] == *all[j],
        ensures
            r@ == all.unref(),
    {
        r.push(*k);
    }
    r
}

/// A sequence with `a` pushed contains what it contained, and `a`.
proof fn lemma_push_contains(s: Seq<Channel>, a: Channel)
    ensures
        forall|k: Channel| #[trigger] s.push(a).contains(k) <==> (s.contains(k) || k == a),
{
    assert forall|k: Channel| #[trigger] s.push(a).contains(k) <==> (s.contains(k) || k == a) by {
        if s.contains(k) {
            let j = choose|j: int| 0 <= j < s.len() && s[j] == k;
            assert(s.push(a)[j] == k);
        }
        if k == a {
            assert(s.push(a)[s.len() as int] == a);
        }
        if s.push(a).contains(k) {
            let j = choose|j: int| 0 <= j < s.push(a).len() && s.push(a)[j] == k;
            if j < s.len() {
                assert(s[j] == k);
            }
        }
    }
}

/// A channel that does not occur among the first `n` positions picks nothing.
pub proof fn lemma_picked_absent<T>(channels: Seq<Channel>, values: Seq<T>, c: Channel, n: int)
    requires
        0 <= n <= channels.len(),
        !channels.subrange(0, n).contains(c),
    ensures
        picked(channels, values, c, n) == Seq::<T>::empty(),
    decreases n,
{
    if n > 0 {
        assert(channels.subrange(0, n)[n - 1] == channels[n - 1]);
        assert forall|w: int| 0 <= w < n - 1 implies #[trigger] channels.subrange(0, n - 1)[w] != c by {
            assert(channels.subrange(0, n)[w] == channels.subrange(0, n - 1)[w]);
        }
        lemma_picked_absent(channels, values, c, n - 1);
    }
}

/// Message headers: key and value of each.
pub type HeaderView = Seq<(Seq<char>, Seq<char>)>;

/// The headers of a message, each key once.
#[derive(Debug)]
pub struct Header {
    pub entries: Vec<(String, String)>,
}

impl View for Header {
    type V = HeaderView;

    open spec fn view(&self) -> HeaderView {
        self.entries@.map_values(|e: (String, String)| (e.0@, e.1@))
    }
}

impl Header {
    /// No key occurs twice.
    pub open spec fn wf(&self) -> bool {
        keys_distinct(self@)
    }

    /// Headers with no entry.
    pub fn new() -> (h: Header)
        ensures
            h.wf(),
            h@ == HeaderView::empty(),
    {
        let h = Header { entries: Vec::new() };
        assert(h@ =~= HeaderView::empty());
        h
    }

    fn position(&self, key: &String) -> (r: Option<usize>)
        requires
            self.wf(),
        ensures
            r.is_some() == has_key(self@, key@),
            r matches Some(k) ==> k < self@.len() && self@[k as int].0 == key@ && value_at(self@, key@) == self@[k as int].1,
    {
        let n = self.entries.len();
        let mut k: usize = 0;
        while k < n
            invariant
                n == self.entries@.len(),
                k <= n,
                self.wf(),
                forall|j: int| 0 <= j < k ==> (#[trigger] self@[j]).0 != key@,
            decreases n - k,
        {
            if self.entries[k].0 == *key {
                proof {
                    assert(self@[k as int].0 == key@);
                    lemma_value_at_index(self@, k as int);
                }
                return Some(k);
            }
            proof {
                assert(self@[k as int].0 != key@);
            }
            k = k + 1;
        }
        proof {
            if has_key(self@, key@) {
                let j = choose|j: int| 0 <= j < self@.len() && (#[trigger] self@[j]).0 == key@;
                assert(self@[j].0 != key@);
            }
        }
        None
    }

    /// The value of header `key`, if there is one.
    pub fn get(&self, key: &String) -> (r: Option<&String>)
        requires
            self.wf(),
        ensures
            r.is_some() == has_key(self@, key@),
            r matches Some(v) ==> v@ == value_at(self@, key@),
    {
        match self.position(key) {
            Some(k) => Some(&self.entries[k].1),
            None => None,
        }
    }

    /// Sets header `key` to `value`, replacing an earlier value of that key.
    pub fn insert(&mut self, key: String, value: String)
        requires
            old(self).wf(),
        ensures
            final(self).wf(),
            crate::keyed::as_map(final(self)@) == crate::keyed::as_map(old(self)@).insert(key@, value@),
    {
        let ghost before = self@;
        match self.position(&key) {
            Some(k) => {
                self.entries.set(k, (key, value));
                proof {
                    assert(self@ =~= before.update(k as int, (before[k as int].0, value@)));
                    crate::keyed::lemma_update(before, k as int, value@);
                }
            },
            None => {
                self.entries.push((key, value));
                proof {
                    assert(self@ =~= before.push((key@, value@)));
                    crate::keyed::lemma_push(before, key@, value@);
                }
            },
        }
    }

    /// A copy of these headers.
    pub fn duplicate(&self) -> (h: Header)
        ensures
            h@ == self@,
    {
        let mut entries: Vec<(String, String)> = Vec::new();
        let n = self.entries.len();
        let mut k: usize = 0;
        while k < n
            invariant
                n == self.entries@.len(),
                k <= n,
                entries@.len() == k,
                forall|j: int| 0 <= j < k ==> (#[trigger] entries@[j]).0@ == self.entries@[j].0@ && entries@[j].1@ == self.entries@[j].1@,
            decreases n - k,
        {
            let key = self.entries[k].0.clone();
            let value = self.entries[k].1.clone();
            entries.push((key, value));
            k = k + 1;
        }
        let h = Header { entries };
        assert(h@ =~= self@);
        h
    }
}

/// A message of events found in a trace, with its headers.
#[derive(Debug)]
pub struct DetectedMessage {
    pub header: Header,
    pub message: ChannelEventList,
}

/// Headers and event lists of a detected message.
pub type DetectedView = (HeaderView, ChannelListView);

impl View for DetectedMessage {
    type V = DetectedView;

    open spec fn view(&self) -> DetectedView {
        (self.header@, self.message@)
    }
}

/// The detected and the simulated event lists of one message key, as far as they arrived.
#[derive(Debug)]
pub struct MessageGroup {
    pub detected: Option<DetectedMessage>,
    pub simulated: Option<ChannelEventList>,
}

/// What a group holds: the detected message and the simulated lists, each if it arrived.
pub type GroupView = (Option<DetectedView>, Option<ChannelListView>);

impl View for MessageGroup {
    type V = GroupView;

    open spec fn view(&self) -> GroupView {
        (
            match self.detected {
                Some(d) => Some(d@),
                None => None,
            },
            match self.simulated {
                Some(s) => Some(s@),
                None => None,
            },
        )
    }
}

impl MessageGroup {
    /// A group to which nothing has arrived.
    pub fn new() -> (g: MessageGroup)
        ensures
            g@ == (None::<DetectedView>, None::<ChannelListView>),
    {
        MessageGroup { detected: None, simulated: None }
    }
}

/// The detected and the simulated events of one channel.
#[derive(Debug)]
pub struct ChannelPairEventList {
    pub detected: EventList,
    pub simulated: EventList,
}

/// Detected and simulated events of a channel.
pub type PairEventsView = (EventListView, EventListView);

impl View for ChannelPairEventList {
    type V = PairEventsView;

    open spec fn view(&self) -> PairEventsView {
        (self.detected@, self.simulated@)
    }
}

impl ChannelPairEventList {
    /// Pairs two event lists; a missing one counts as empty.
    pub fn from_eventlist_pair(detected: Option<&EventList>, simulated: Option<&EventList>) -> (p: ChannelPairEventList)
        ensures
            p@.0 == (match detected {
                Some(e) => e@,
                None => empty_events(),
            }),
            p@.1 == (match simulated {
                Some(e) => e@,
                None => empty_events(),
            }),
    {
        let detected = match detected {
            Some(e) => e.duplicate(),
            None => EventList::new(),
        };
        let simulated = match simulated {
            Some(e) => e.duplicate(),
            None => EventList::new(),
        };
        ChannelPairEventList { detected, simulated }
    }
}

/// The paired event lists of a message pair, keyed by channel.
pub type PairChannelsView = Map<Channel, PairEventsView>;

/// `p` pairs the channels of `detected` and `simulated`: it has the channels
/// of either, each with its detected and its simulated events (empty where one
/// side lacks the channel).
pub open spec fn pairs_channels(p: PairChannelsView, detected: ChannelListView, simulated: ChannelListView) -> bool {
    &&& p.dom() == detected.dom().union(simulated.dom())
    &&& forall|c: Channel|
        #[trigger] p.contains_key(c) ==> p[c] == (channel_events(detected, c), channel_events(simulated, c))
}

/// A detected message matched with its simulated counterpart.
#[derive(Debug)]
pub struct MessagePair {
    pub headers: Header,
    pub channels: HashMap<Channel, ChannelPairEventList>,
}

/// Headers and paired channels of a message pair.
pub type MessagePairView = (HeaderView, PairChannelsView);

impl View for MessagePair {
    type V = MessagePairView;

    open spec fn view(&self) -> MessagePairView {
        (self.headers@, self.channels@.map_values(|e: ChannelPairEventList| e@))
    }
}

/// `p` is the pair made of the detected message `detected` and the simulated lists `simulated`.
pub open spec fn is_pair_of(p: MessagePairView, detected: DetectedView, simulated: ChannelListView) -> bool {
    p.0 == detected.0 && pairs_channels(p.1, detected.1, simulated)
}

impl MessagePair {
    /// The paired events of channel `c`, if the pair has that channel.
    pub fn channel(&self, c: Channel) -> (r: Option<&ChannelPairEventList>)
        ensures
            r.is_some() == self@.1.contains_key(c),
            r matches Some(e) ==> e@ == self@.1[c],
    {
        self.channels.get(&c)
    }

    /// Pairs the detected and the simulated event lists of a group: `None`
    /// until both have arrived.
    pub fn from_message_group(message_group: &MessageGroup) -> (r: Option<MessagePair>)
        ensures
            r.is_some() == (message_group.detected.is_some() && message_group.simulated.is_some()),
            r matches Some(p) ==> is_pair_of(p@, message_group@.0.unwrap(), message_group@.1.unwrap()),
    {
        match (&message_group.detected, &message_group.simulated) {
            (Some(detected), Some(simulated)) => Some(Self::pair(detected, simulated)),
            _ => None,
        }
    }

    fn pair(detected: &DetectedMessage, simulated: &ChannelEventList) -> (p: MessagePair)
        ensures
            is_pair_of(p@, detected@, simulated@),
    {
        let ghost det = detected.message@;
        let ghost sim = simulated@;
        let mut channels: HashMap<Channel, ChannelPairEventList> = HashMap::new();
        let dkeys = channel_keys(&detected.message.lists);
        let mut i: usize = 0;
        while i < dkeys.len()
            invariant
                i <= dkeys@.len(),
                det == detected.message@,
                sim == simulated@,
                forall|k: Channel| #[trigger] channels@.contains_key(k) <==> dkeys@.subrange(0, i as int).contains(k),
                forall|k: Channel|
                    #[trigger] channels@.contains_key(k) ==> channels@[k]@ == (channel_events(det, k), channel_events(sim, k)),
            decreases dkeys@.len() - i,
        {
            let c = dkeys[i];
            proof {
                lemma_push_contains(dkeys@.subrange(0, i as int), c);
                assert(dkeys@.subrange(0, i + 1) =~= dkeys@.subrange(0, i as int).push(c));
            }
            let e = ChannelPairEventList::from_eventlist_pair(detected.message.get(c), simulated.get(c));
            channels.insert(c, e);
            i = i + 1;
        }
        proof {
            assert(dkeys@.subrange(0, dkeys@.len() as int) =~= dkeys@);
        }
        let skeys = channel_keys(&simulated.lists);
        let mut i: usize = 0;
        while i < skeys.len()
            invariant
                i <= skeys@.len(),
                det == detected.message@,
                sim == simulated@,
                forall|k: Channel|
                    #[trigger] channels@.contains_key(k) <==> (dkeys@.contains(k) || skeys@.subrange(0, i as int).contains(k)),
                forall|k: Channel|
                    #[trigger] channels@.contains_key(k) ==> channels@[k]@ == (channel_events(det, k), channel_events(sim, k)),
            decreases skeys@.len() - i,
        {
            let c = skeys[i];
            proof {
                lemma_push_contains(skeys@.subrange(0, i as int), c);
                assert(skeys@.subrange(0, i + 1) =~= skeys@.subrange(0, i as int).push(c));
            }
            let e = ChannelPairEventList::from_eventlist_pair(detected.message.get(c), simulated.get(c));
            channels.insert(c, e);
            i = i + 1;
        }
        proof {
            assert(skeys@.subrange(0, skeys@.len() as int) =~= skeys@);
        }
        let headers = detected.header.duplicate();
        let p = MessagePair { headers, channels };
        proof {
            assert forall|k: Channel| #[trigger] p@.1.contains_key(k) == (det.contains_key(k) || sim.contains_key(k)) by {
                assert(dkeys@.to_set().contains(k) == dkeys@.contains(k));
                assert(skeys@.to_set().contains(k) == skeys@.contains(k));
            }
            assert(p@.1.dom() =~= det.dom().union(sim.dom()));
        }
        p
    }
}

} // verus!
