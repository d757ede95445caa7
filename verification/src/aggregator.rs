use vstd::prelude::*;

use crate::messages::{same_frame, DigitizerId, FrameMetadata};
use crate::sorting::{id_leq, ids_sorted, lemma_sorted_is_sort, sorted_ids};
use crate::time::{Timestamp, MAX_TIMESTAMP_NANOS};

verus! {

#[verifier::external_type_specification]
#[verifier::external_body]
pub struct ExInstant(tokio::time::Instant);

/// Calls `tokio::time::Instant::now()`: a reading of the monotonic clock,
/// opaque here, of which nothing is claimed.
#[verifier::external_body]
fn monotonic_now() -> tokio::time::Instant {
    tokio::time::Instant::now()
}

/// Calls `Instant::elapsed` on `start` and returns the `Duration` in whole
/// nanoseconds (`Duration::as_nanos`). The number depends on the moment of
/// the call, so nothing is claimed of it.
#[verifier::external_body]
fn monotonic_nanos_since(start: &tokio::time::Instant) -> u128 {
    start.elapsed().as_nanos()
}

/// A reading of a cache's clock: nanoseconds since the cache was made, on
/// tokio's monotonic clock, which a change of the system time does not move.
pub open spec fn is_monotonic_reading(t: Timestamp) -> bool {
    0 <= t.nanos <= MAX_TIMESTAMP_NANOS
}

/// Reads the clock that started at `start`. A reading beyond
/// `MAX_TIMESTAMP_NANOS` (some hundred million years) is held at that value.
fn monotonic_reading(start: &tokio::time::Instant) -> (t: Timestamp)
    ensures
        is_monotonic_reading(t),
        t.in_range(),
{
    let n = monotonic_nanos_since(start);
    if n <= MAX_TIMESTAMP_NANOS as u128 {
        Timestamp { nanos: n as i128 }
    } else {
        Timestamp { nanos: MAX_TIMESTAMP_NANOS }
    }
}

/// The identifiers of the digitisers whose data a frame holds, in arrival order.
pub open spec fn ids_of<D>(data: Seq<(DigitizerId, D)>) -> Seq<DigitizerId> {
    data.map_values(|p: (DigitizerId, D)| p.0)
}

/// The frame has heard from exactly the expected digitisers: `expected` is in
/// ascending order and holds the same identifiers, as often, as the data.
pub open spec fn complete_for<D>(data: Seq<(DigitizerId, D)>, expected: Seq<DigitizerId>) -> bool {
    ids_of(data).sort_by(id_leq()) == expected
}

/// A frame whose digitiser messages are still being gathered.
pub struct PartialFrame<D> {
    /// When the frame stops waiting for missing digitisers.
    pub expiry: Timestamp,
    /// The frame's metadata; its veto flags gather those of every message.
    pub metadata: FrameMetadata,
    /// The data of each digitiser, in arrival order.
    pub digitiser_data: Vec<(DigitizerId, D)>,
}

/// A frame whose gathering has ended.
pub struct AggregatedFrame<D> {
    pub metadata: FrameMetadata,
    /// The digitisers heard from, in ascending order.
    pub digitiser_ids: Vec<DigitizerId>,
    /// The data of each digitiser, in arrival order.
    pub digitiser_data: Vec<(DigitizerId, D)>,
}

impl<D> PartialFrame<D> {
    /// An empty frame that expires `ttl_nanos` after `now`.
    pub fn new_at(now: Timestamp, ttl_nanos: u64, metadata: FrameMetadata) -> (f: Self)
        requires
            now.in_range(),
        ensures
            f.expiry.nanos == now.nanos + ttl_nanos,
            f.metadata == metadata,
            f.digitiser_data@.len() == 0,
    {
        PartialFrame { expiry: Timestamp { nanos: now.nanos + ttl_nanos as i128 }, metadata, digitiser_data: Vec::new() }
    }

    /// An empty frame that expires `ttl_nanos` from now, on the clock that
    /// started at `clock`.
    pub fn new(clock: &tokio::time::Instant, ttl_nanos: u64, metadata: FrameMetadata) -> (f: Self)
        ensures
            exists|now: Timestamp| is_monotonic_reading(now) && f.expiry.nanos == now.nanos + ttl_nanos,
            f.metadata == metadata,
            f.digitiser_data@.len() == 0,
    {
        let now = monotonic_reading(clock);
        let f = PartialFrame::new_at(now, ttl_nanos, metadata);
        assert(is_monotonic_reading(now) && f.expiry.nanos == now.nanos + ttl_nanos);
        f
    }

    /// The identifiers of the digitisers heard from, in ascending order.
    pub fn digitiser_ids(&self) -> (r: Vec<DigitizerId>)
        ensures
            r@ == ids_of(self.digitiser_data@).sort_by(id_leq()),
            ids_sorted(r@),
            r@.to_multiset() == ids_of(self.digitiser_data@).to_multiset(),
    {
        let mut ids: Vec<DigitizerId> = Vec::new();
        let n = self.digitiser_data.len();
        let mut i: usize = 0;
        while i < n
            invariant
                n == self.digitiser_data@.len(),
                i <= n,
                ids@ == ids_of(self.digitiser_data@).subrange(0, i as int),
            decreases n - i,
        {
            ids.push(self.digitiser_data[i].0);
            i = i + 1;
            assert(ids@ == ids_of(self.digitiser_data@).subrange(0, i as int));
        }
        assert(ids@ == ids_of(self.digitiser_data@));
        sorted_ids(&ids)
    }

    /// Records the data of one digitiser.
    pub fn push(&mut self, digitiser_id: DigitizerId, data: D)
        ensures
            final(self).digitiser_data@ == old(self).digitiser_data@.push((digitiser_id, data)),
            final(self).metadata == old(self).metadata,
            final(self).expiry == old(self).expiry,
    {
        self.digitiser_data.push((digitiser_id, data));
    }

    /// Adds the veto flags of a message to the frame's.
    pub fn push_veto_flags(&mut self, veto_flags: u16)
        ensures
            final(self).metadata.veto_flags == old(self).metadata.veto_flags | veto_flags,
            same_frame(final(self).metadata, old(self).metadata),
            final(self).digitiser_data@ == old(self).digitiser_data@,
            final(self).expiry == old(self).expiry,
    {
        self.metadata.veto_flags = self.metadata.veto_flags | veto_flags;
    }

    /// Whether the frame has heard from exactly the expected digitisers, which
    /// are given in ascending order.
    pub fn is_complete(&self, expected_digitisers: &Vec<DigitizerId>) -> (r: bool)
        ensures
            r == complete_for(self.digitiser_data@, expected_digitisers@),
    {
        let ids = self.digitiser_ids();
        let n = ids.len();
        if n != expected_digitisers.len() {
            assert(ids@.len() != expected_digitisers@.len());
            return false;
        }
        let mut i: usize = 0;
        while i < n
            invariant
                n == ids@.len(),
                n == expected_digitisers@.len(),
                ids@ == ids_of(self.digitiser_data@).sort_by(id_leq()),
                i <= n,
                forall|k: int| 0 <= k < i ==> ids@[k] == expected_digitisers@[k],
            decreases n - i,
        {
            if ids[i] != expected_digitisers[i] {
                assert(ids@[i as int] != expected_digitisers@[i as int]);
                return false;
            }
            i = i + 1;
        }
        assert(ids@ == expected_digitisers@);
        true
    }

    /// Whether the frame's expiry lies before `now`.
    pub fn is_expired_at(&self, now: Timestamp) -> (r: bool)
        ensures
            r == (now.nanos > self.expiry.nanos),
    {
        now.nanos > self.expiry.nanos
    }

    /// Whether the frame's expiry has passed, by the clock that started at
    /// `clock`, read at the moment of the call.
    pub fn is_expired(&self, clock: &tokio::time::Instant) -> (r: bool)
        ensures
            exists|now: Timestamp| is_monotonic_reading(now) && r == (now.nanos > self.expiry.nanos),
    {
        let now = monotonic_reading(clock);
        let r = self.is_expired_at(now);
        assert(is_monotonic_reading(now) && r == (now.nanos > self.expiry.nanos));
        r
    }

    /// The frame as handed on: its metadata, the sorted identifiers and the data.
    pub fn into_aggregated(self) -> (a: AggregatedFrame<D>)
        ensures
            a.metadata == self.metadata,
            a.digitiser_ids@ == ids_of(self.digitiser_data@).sort_by(id_leq()),
            a.digitiser_data@ == self.digitiser_data@,
    {
        let digitiser_ids = self.digitiser_ids();
        AggregatedFrame { metadata: self.metadata, digitiser_ids, digitiser_data: self.digitiser_data }
    }
}

/// The frame is ready to leave the cache at `now`: it is complete or expired.
pub open spec fn ready_at<D>(frame: PartialFrame<D>, expected: Seq<DigitizerId>, now: Timestamp) -> bool {
    complete_for(frame.digitiser_data@, expected) || now.nanos > frame.expiry.nanos
}

/// The index of the first frame ready at `now`, if there is one.
pub open spec fn first_ready<D>(frames: Seq<PartialFrame<D>>, expected: Seq<DigitizerId>, now: Timestamp) -> Option<int> {
    if exists|i: int| 0 <= i < frames.len() && ready_at(#[trigger] frames[i], expected, now) {
        Some(
            choose|i: int|
                0 <= i < frames.len() && ready_at(#[trigger] frames[i], expected, now) && forall|j: int|
                    0 <= j < i ==> !ready_at(#[trigger] frames[j], expected, now),
        )
    } else {
        None
    }
}

proof fn lemma_min_ready_exists<D>(frames: Seq<PartialFrame<D>>, expected: Seq<DigitizerId>, now: Timestamp, w: int)
    requires
        0 <= w < frames.len(),
        ready_at(frames[w], expected, now),
    ensures
        exists|i: int|
            0 <= i < frames.len() && ready_at(#[trigger] frames[i], expected, now) && forall|j: int|
                0 <= j < i ==> !ready_at(#[trigger] frames[j], expected, now),
    decreases w,
{
    if exists|j: int| 0 <= j < w && ready_at(#[trigger] frames[j], expected, now) {
        let j = choose|j: int| 0 <= j < w && ready_at(#[trigger] frames[j], expected, now);
        lemma_min_ready_exists(frames, expected, now, j);
    } else {
        assert(forall|j: int| 0 <= j < w ==> !ready_at(#[trigger] frames[j], expected, now));
    }
}

/// `first_ready` is the first index of a ready frame, and `None` only when no
/// frame is ready.
pub proof fn lemma_first_ready<D>(frames: Seq<PartialFrame<D>>, expected: Seq<DigitizerId>, now: Timestamp)
    ensures
        match first_ready(frames, expected, now) {
            Some(i) => 0 <= i < frames.len() && ready_at(frames[i], expected, now) && forall|j: int|
                0 <= j < i ==> !ready_at(#[trigger] frames[j], expected, now),
            None => forall|i: int| 0 <= i < frames.len() ==> !ready_at(#[trigger] frames[i], expected, now),
        },
{
    if exists|i: int| 0 <= i < frames.len() && ready_at(#[trigger] frames[i], expected, now) {
        let w = choose|i: int| 0 <= i < frames.len() && ready_at(#[trigger] frames[i], expected, now);
        lemma_min_ready_exists(frames, expected, now, w);
    }
}

/// The index of the partial frame that gathers the frame described by `metadata`.
pub open spec fn frame_index<D>(frames: Seq<PartialFrame<D>>, metadata: FrameMetadata) -> Option<int> {
    if exists|i: int| 0 <= i < frames.len() && same_frame(#[trigger] frames[i].metadata, metadata) {
        Some(choose|i: int| 0 <= i < frames.len() && same_frame(#[trigger] frames[i].metadata, metadata))
    } else {
        None
    }
}

/// Gathers the messages of each frame from the expected digitisers, and hands
/// a frame on once it is complete or has expired.
pub struct FrameCache<D> {
    /// How long, in nanoseconds, a frame waits for missing digitisers.
    pub ttl_nanos: u64,
    /// The digitisers that make a frame complete, in ascending order.
    pub expected_digitisers: Vec<DigitizerId>,
    /// The frames being gathered, oldest first.
    pub frames: Vec<PartialFrame<D>>,
    /// The start of the cache's clock: expiry times count nanoseconds since it.
    pub clock: tokio::time::Instant,
}

impl<D> FrameCache<D> {
    /// No two partial frames gather the same frame.
    pub open spec fn well_formed(&self) -> bool {
        forall|i: int, j: int|
            0 <= i < j < self.frames@.len() ==> !same_frame(
                #[trigger] self.frames@[i].metadata,
                #[trigger] self.frames@[j].metadata,
            )
    }

    /// An empty cache.
    pub fn new(ttl_nanos: u64, expected_digitisers: Vec<DigitizerId>) -> (c: Self)
        ensures
            c.ttl_nanos == ttl_nanos,
            c.expected_digitisers@ == expected_digitisers@,
            c.frames@.len() == 0,
            c.well_formed(),
    {
        FrameCache { ttl_nanos, expected_digitisers, frames: Vec::new(), clock: monotonic_now() }
    }

    /// The number of frames being gathered.
    pub fn get_num_partial_frames(&self) -> (n: usize)
        ensures
            n == self.frames@.len(),
    {
        self.frames.len()
    }

    /// The index of the partial frame for `metadata`, if any.
    fn find_frame(&self, metadata: &FrameMetadata) -> (r: Option<usize>)
        requires
            self.well_formed(),
        ensures
            r matches Some(i) ==> frame_index(self.frames@, *metadata) == Some(i as int),
            r is None ==> frame_index(self.frames@, *metadata) is None,
    {
        let n = self.frames.len();
        let mut i: usize = 0;
        while i < n
            invariant
                n == self.frames@.len(),
                i <= n,
                self.well_formed(),
                forall|k: int| 0 <= k < i ==> !same_frame(#[trigger] self.frames@[k].metadata, *metadata),
            decreases n - i,
        {
            if self.frames[i].metadata == *metadata {
                proof {
                    assert(same_frame(self.frames@[i as int].metadata, *metadata));
                    let c = choose|c: int|
                        0 <= c < self.frames@.len() && same_frame(#[trigger] self.frames@[c].metadata, *metadata);
                    if c != i {
                        if c < i {
                            assert(!same_frame(self.frames@[c].metadata, self.frames@[i as int].metadata));
                        } else {
                            assert(!same_frame(self.frames@[i as int].metadata, self.frames@[c].metadata));
                        }
                    }
                }
                return Some(i);
            }
            i = i + 1;
        }
        None
    }

    /// Records the data of one digitiser for the frame described by `metadata`,
    /// at time `now`: into the partial frame for that frame if there is one,
    /// else into a new one that expires `ttl_nanos` after `now`. The frame's
    /// veto flags gain those of the message.
    pub fn push_at(&mut self, now: Timestamp, digitiser_id: DigitizerId, metadata: &FrameMetadata, data: D)
        requires
            old(self).well_formed(),
            now.in_range(),
        ensures
            final(self).well_formed(),
            final(self).ttl_nanos == old(self).ttl_nanos,
            final(self).expected_digitisers@ == old(self).expected_digitisers@,
            match frame_index(old(self).frames@, *metadata) {
                Some(i) => {
                    let f = old(self).frames@[i];
                    &&& final(self).frames@.len() == old(self).frames@.len()
                    &&& forall|j: int| 0 <= j < old(self).frames@.len() && j != i ==> #[trigger] final(self).frames@[j] == old(self).frames@[j]
                    &&& final(self).frames@[i].digitiser_data@ == f.digitiser_data@.push((digitiser_id, data))
                    &&& final(self).frames@[i].expiry == f.expiry
                    &&& same_frame(final(self).frames@[i].metadata, f.metadata)
                    &&& final(self).frames@[i].metadata.veto_flags == f.metadata.veto_flags | metadata.veto_flags
                },
                None => {
                    let f = final(self).frames@.last();
                    &&& final(self).frames@.len() == old(self).frames@.len() + 1
                    &&& forall|j: int| 0 <= j < old(self).frames@.len() ==> #[trigger] final(self).frames@[j] == old(self).frames@[j]
                    &&& f.digitiser_data@ == seq![(digitiser_id, data)]
                    &&& f.expiry.nanos == now.nanos + old(self).ttl_nanos
                    &&& f.metadata == *metadata
                },
            },
    {
        match self.find_frame(metadata) {
            Some(i) => {
                let ghost frames_before = self.frames@;
                let mut frame = self.frames.remove(i);
                frame.push(digitiser_id, data);
                frame.push_veto_flags(metadata.veto_flags);
                self.frames.insert(i, frame);
                proof {
                    assert forall|a: int, b: int| 0 <= a < b < self.frames@.len() implies !same_frame(
                        #[trigger] self.frames@[a].metadata,
                        #[trigger] self.frames@[b].metadata,
                    ) by {
                        assert(!same_frame(frames_before[a].metadata, frames_before[b].metadata));
                    }
                    assert forall|j: int| 0 <= j < frames_before.len() && j != i implies #[trigger] self.frames@[j]
                        == frames_before[j] by {}
                }
            },
            None => {
                let mut frame = PartialFrame::new_at(now, self.ttl_nanos, *metadata);
                frame.push(digitiser_id, data);
                frame.push_veto_flags(metadata.veto_flags);
                proof {
                    assert(metadata.veto_flags | metadata.veto_flags == metadata.veto_flags) by (bit_vector);
                }
                let ghost frames_before = self.frames@;
                self.frames.push(frame);
                proof {
                    assert(self.frames@.last().digitiser_data@ == seq![(digitiser_id, data)]);
                    assert forall|a: int, b: int| 0 <= a < b < self.frames@.len() implies !same_frame(
                        #[trigger] self.frames@[a].metadata,
                        #[trigger] self.frames@[b].metadata,
                    ) by {
                        if b < frames_before.len() {
                            assert(!same_frame(frames_before[a].metadata, frames_before[b].metadata));
                        } else {
                            assert(!same_frame(frames_before[a].metadata, *metadata));
                        }
                    }
                }
            },
        }
    }

    /// Records the data of one digitiser for the frame described by `metadata`,
    /// as `push_at` does at the current time.
    pub fn push(&mut self, digitiser_id: DigitizerId, metadata: &FrameMetadata, data: D)
        requires
            old(self).well_formed(),
        ensures
            final(self).well_formed(),
            final(self).ttl_nanos == old(self).ttl_nanos,
            final(self).expected_digitisers@ == old(self).expected_digitisers@,
            match frame_index(old(self).frames@, *metadata) {
                Some(i) => {
                    let f = old(self).frames@[i];
                    &&& final(self).frames@.len() == old(self).frames@.len()
                    &&& forall|j: int| 0 <= j < old(self).frames@.len() && j != i ==> #[trigger] final(self).frames@[j] == old(self).frames@[j]
                    &&& final(self).frames@[i].digitiser_data@ == f.digitiser_data@.push((digitiser_id, data))
                    &&& final(self).frames@[i].expiry == f.expiry
                    &&& same_frame(final(self).frames@[i].metadata, f.metadata)
                    &&& final(self).frames@[i].metadata.veto_flags == f.metadata.veto_flags | metadata.veto_flags
                },
                None => {
                    let f = final(self).frames@.last();
                    &&& final(self).frames@.len() == old(self).frames@.len() + 1
                    &&& forall|j: int| 0 <= j < old(self).frames@.len() ==> #[trigger] final(self).frames@[j] == old(self).frames@[j]
                    &&& f.digitiser_data@ == seq![(digitiser_id, data)]
                    &&& f.metadata == *metadata
                    &&& exists|now: Timestamp| is_monotonic_reading(now) && f.expiry.nanos == now.nanos + old(self).ttl_nanos
                },
            },
    {
        let now = monotonic_reading(&self.clock);
        self.push_at(now, digitiser_id, metadata, data);
        assert(frame_index(old(self).frames@, *metadata) is None ==> is_monotonic_reading(now)
            && self.frames@.last().expiry.nanos == now.nanos + self.ttl_nanos);
    }

    /// Hands on the oldest frame that is complete or has expired at `now`,
    /// removing it from the cache; `None` when no frame is ready.
    pub fn poll_at(&mut self, now: Timestamp) -> (r: Option<AggregatedFrame<D>>)
        requires
            old(self).well_formed(),
        ensures
            final(self).well_formed(),
            final(self).ttl_nanos == old(self).ttl_nanos,
            final(self).expected_digitisers@ == old(self).expected_digitisers@,
            match first_ready(old(self).frames@, old(self).expected_digitisers@, now) {
                None => r is None && final(self).frames@ == old(self).frames@,
                Some(i) => {
                    let f = old(self).frames@[i];
                    &&& final(self).frames@ == old(self).frames@.remove(i)
                    &&& r matches Some(a) && a.metadata == f.metadata
                        && a.digitiser_ids@ == ids_of(f.digitiser_data@).sort_by(id_leq())
                        && a.digitiser_data@ == f.digitiser_data@
                },
            },
    {
        let n = self.frames.len();
        let mut i: usize = 0;
        while i < n
            invariant
                n == self.frames@.len(),
                i <= n,
                self.frames@ == old(self).frames@,
                self.expected_digitisers@ == old(self).expected_digitisers@,
                self.ttl_nanos == old(self).ttl_nanos,
                self.well_formed(),
                forall|k: int| 0 <= k < i ==> !ready_at(#[trigger] self.frames@[k], self.expected_digitisers@, now),
            decreases n - i,
        {
            if self.frames[i].is_complete(&self.expected_digitisers) || self.frames[i].is_expired_at(now) {
                let ghost frames_before = self.frames@;
                proof {
                    let c = choose|c: int|
                        0 <= c < frames_before.len() && ready_at(#[trigger] frames_before[c], self.expected_digitisers@, now)
                            && forall|j: int| 0 <= j < c ==> !ready_at(#[trigger] frames_before[j], self.expected_digitisers@, now);
                    assert(ready_at(frames_before[i as int], self.expected_digitisers@, now));
                    if c < i {
                    } else if c > i {
                        assert(!ready_at(frames_before[i as int], self.expected_digitisers@, now));
                    }
                    assert(c == i);
                }
                let frame = self.frames.remove(i);
                proof {
                    assert forall|a: int, b: int| 0 <= a < b < self.frames@.len() implies !same_frame(
                        #[trigger] self.frames@[a].metadata,
                        #[trigger] self.frames@[b].metadata,
                    ) by {
                        let a0 = if a < i { a } else { a + 1 };
                        let b0 = if b < i { b } else { b + 1 };
                        assert(self.frames@[a] == frames_before[a0]);
                        assert(self.frames@[b] == frames_before[b0]);
                        assert(!same_frame(frames_before[a0].metadata, frames_before[b0].metadata));
                    }
                }
                return Some(frame.into_aggregated());
            }
            i = i + 1;
        }
        None
    }

    /// Hands on the oldest frame that is complete or has expired, as `poll_at`
    /// does at the current time.
    pub fn poll(&mut self) -> (r: Option<AggregatedFrame<D>>)
        requires
            old(self).well_formed(),
        ensures
            final(self).well_formed(),
            final(self).ttl_nanos == old(self).ttl_nanos,
            final(self).expected_digitisers@ == old(self).expected_digitisers@,
            r is None ==> final(self).frames@ == old(self).frames@ && exists|now: Timestamp|
                is_monotonic_reading(now) && #[trigger] first_ready(old(self).frames@, old(self).expected_digitisers@, now)
                    is None,
            r matches Some(a) ==> exists|now: Timestamp|
                {
                    &&& is_monotonic_reading(now)
                    &&& #[trigger] first_ready(old(self).frames@, old(self).expected_digitisers@, now) matches Some(i)
                    &&& final(self).frames@ == old(self).frames@.remove(i)
                    &&& a.metadata == old(self).frames@[i].metadata
                    &&& a.digitiser_ids@ == ids_of(old(self).frames@[i].digitiser_data@).sort_by(id_leq())
                    &&& a.digitiser_data@ == old(self).frames@[i].digitiser_data@
                },
            forall|i: int|
                0 <= i < old(self).frames@.len() && complete_for(
                    #[trigger] old(self).frames@[i].digitiser_data@,
                    old(self).expected_digitisers@,
                ) ==> r is Some,
    {
        let now = monotonic_reading(&self.clock);
        let r = self.poll_at(now);
        proof {
            lemma_first_ready(old(self).frames@, old(self).expected_digitisers@, now);
            if let Some(i) = first_ready(old(self).frames@, old(self).expected_digitisers@, now) {
                assert(final(self).frames@ == old(self).frames@.remove(i));
                assert(0 <= i < old(self).frames@.len());
            }
            if first_ready(old(self).frames@, old(self).expected_digitisers@, now) is None {
                assert forall|i: int|
                    0 <= i < old(self).frames@.len() && complete_for(
                        #[trigger] old(self).frames@[i].digitiser_data@,
                        old(self).expected_digitisers@,
                    ) implies r is Some by {
                    assert(ready_at(old(self).frames@[i], old(self).expected_digitisers@, now));
                }
            }
        }
        r
    }
}

} // verus!
