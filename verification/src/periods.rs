use vstd::prelude::*;

use crate::elements::NexusSettings;
use crate::errors::NexusPushError;
use crate::messages::FrameAssembledEventListMessage;

verus! {

/// The index of the first occurrence of `v` in `s`.
pub open spec fn first_index(s: Seq<u64>, v: u64) -> Option<int> {
    if exists|i: int| 0 <= i < s.len() && s[i] == v {
        Some(choose|i: int| 0 <= i < s.len() && s[i] == v && forall|j: int| 0 <= j < i ==> s[j] != v)
    } else {
        None
    }
}

/// `s` with entry `i` increased by one.
pub open spec fn incremented(s: Seq<u32>, i: int) -> Seq<u32> {
    s.update(i, (s[i] + 1) as u32)
}

/// The `periods` group: frame counts per period.
#[derive(Clone, Debug)]
pub struct Periods {
    /// Number of periods used.
    pub number: u32,
    /// Function of each period.
    pub period_types: Vec<u32>,
    /// Frames collected in each period before switching.
    pub frames_requested: Vec<u32>,
    /// The period numbers seen, one entry per frame that found its period, and
    /// one per new period.
    pub output: Vec<u64>,
    /// Raw frames collected in each period.
    pub raw_frames: Vec<u32>,
    /// Good (unvetoed) frames collected in each period.
    pub good_frames: Vec<u32>,
    /// Chunk size of the per-period datasets.
    pub periodlist_chunk_size: usize,
}

proof fn lemma_first_index(s: Seq<u64>, v: u64)
    ensures
        match first_index(s, v) {
            Some(i) => 0 <= i < s.len() && s[i] == v && forall|j: int| 0 <= j < i ==> s[j] != v,
            None => forall|i: int| 0 <= i < s.len() ==> s[i] != v,
        },
    decreases s.len(),
{
    if exists|i: int| 0 <= i < s.len() && s[i] == v {
        let w = choose|i: int| 0 <= i < s.len() && s[i] == v;
        lemma_first_occurrence_exists(s, v, w);
    }
}

proof fn lemma_first_occurrence_exists(s: Seq<u64>, v: u64, w: int)
    requires
        0 <= w < s.len(),
        s[w] == v,
    ensures
        exists|i: int| 0 <= i < s.len() && s[i] == v && forall|j: int| 0 <= j < i ==> s[j] != v,
    decreases w,
{
    if exists|j: int| 0 <= j < w && s[j] == v {
        let j = choose|j: int| 0 <= j < w && s[j] == v;
        lemma_first_occurrence_exists(s, v, j);
    }
}

/// The index of the first occurrence of `v` in `s`.
pub fn find(s: &Vec<u64>, v: u64) -> (r: Option<usize>)
    ensures
        r matches Some(i) ==> first_index(s@, v) == Some(i as int),
        r is None ==> first_index(s@, v) is None,
{
    proof {
        lemma_first_index(s@, v);
    }
    let n = s.len();
    let mut i: usize = 0;
    while i < n
        invariant
            n == s@.len(),
            i <= n,
            forall|j: int| 0 <= j < i ==> s@[j] != v,
        decreases n - i,
    {
        if s[i] == v {
            proof {
                lemma_first_index(s@, v);
                let k = first_index(s@, v).unwrap();
                assert(k == i);
            }
            return Some(i);
        }
        i = i + 1;
    }
    None
}

/// Adds one to entry `index`, or reports that there is no such entry.
fn increment_at(v: &mut Vec<u32>, index: usize) -> (r: Result<(), NexusPushError>)
    requires
        index < old(v)@.len() ==> old(v)@[index as int] < u32::MAX,
    ensures
        index < old(v)@.len() ==> r == Ok::<(), NexusPushError>(()) && final(v)@ == incremented(old(v)@, index as int),
        index >= old(v)@.len() ==> r == Err::<(), NexusPushError>(NexusPushError::IndexOutOfBounds)
            && final(v)@ == old(v)@,
{
    if index < v.len() {
        let x = v[index];
        v.set(index, x + 1);
        Ok(())
    } else {
        Err(NexusPushError::IndexOutOfBounds)
    }
}

/// The group holds no period yet.
pub open spec fn periods_empty(p: Periods) -> bool {
    &&& p.number == 0
    &&& p.period_types@.len() == 0
    &&& p.frames_requested@.len() == 0
    &&& p.output@.len() == 0
    &&& p.raw_frames@.len() == 0
    &&& p.good_frames@.len() == 0
}

/// Every count that a frame may increase is below `u32::MAX`.
pub open spec fn periods_accept(p: Periods) -> bool {
    &&& forall|k: int| 0 <= k < p.raw_frames@.len() ==> #[trigger] p.raw_frames@[k] < u32::MAX
    &&& forall|k: int| 0 <= k < p.good_frames@.len() ==> #[trigger] p.good_frames@[k] < u32::MAX
    &&& forall|k: int| 0 <= k < p.frames_requested@.len() ==> #[trigger] p.frames_requested@[k] < u32::MAX
    &&& p.number < u32::MAX
}

/// What counting a frame does to the group, and its result.
pub open spec fn periods_step(old: Periods, new: Periods, message: FrameAssembledEventListMessage, r: Result<(), NexusPushError>) -> bool {
    &&& new.periodlist_chunk_size == old.periodlist_chunk_size
    &&& {
        let p = message.metadata.period_number;
        let good = message.metadata.veto_flags == 0;
        match first_index(old.output@, p) {
            Some(i) => {
                let raw_ok = i < old.raw_frames@.len();
                let good_ok = !good || i < old.good_frames@.len();
                let req_ok = i < old.frames_requested@.len();
                &&& new.output@ == old.output@.push(p)
                &&& new.number == old.number
                &&& new.period_types@ == old.period_types@
                &&& new.raw_frames@ == if raw_ok {
                    incremented(old.raw_frames@, i)
                } else {
                    old.raw_frames@
                }
                &&& new.good_frames@ == if raw_ok && good && good_ok {
                    incremented(old.good_frames@, i)
                } else {
                    old.good_frames@
                }
                &&& new.frames_requested@ == if raw_ok && good_ok && req_ok {
                    incremented(old.frames_requested@, i)
                } else {
                    old.frames_requested@
                }
                &&& r == if raw_ok && good_ok && req_ok {
                    Ok::<(), NexusPushError>(())
                } else {
                    Err::<(), NexusPushError>(NexusPushError::IndexOutOfBounds)
                }
            },
            None => {
                &&& r is Ok
                &&& new.output@ == old.output@.push(p)
                &&& new.raw_frames@ == old.raw_frames@.push(1)
                &&& new.good_frames@ == old.good_frames@.push(if good { 1u32 } else { 0u32 })
                &&& new.period_types@ == old.period_types@.push(0)
                &&& new.frames_requested@ == old.frames_requested@.push(0)
                &&& new.number == old.number + 1
            },
        }
    }
}

/// Every count of `v` is below `u32::MAX`.
fn all_below_max(v: &Vec<u32>) -> (r: bool)
    ensures
        r == forall|k: int| 0 <= k < v@.len() ==> #[trigger] v@[k] < u32::MAX,
{
    let mut i: usize = 0;
    while i < v.len()
        invariant
            i <= v@.len(),
            forall|k: int| 0 <= k < i ==> #[trigger] v@[k] < u32::MAX,
        decreases v@.len() - i,
    {
        if v[i] == u32::MAX {
            return false;
        }
        i = i + 1;
    }
    true
}

impl Periods {
    /// Whether one more frame can be counted without a counter overflowing.
    pub fn accepts_frame(&self) -> (r: bool)
        ensures
            r == periods_accept(*self),
    {
        self.number < u32::MAX && all_below_max(&self.raw_frames) && all_below_max(&self.good_frames)
            && all_below_max(&self.frames_requested)
    }

    /// The group before any frame.
    pub fn new(settings: &NexusSettings) -> (p: Self)
        ensures
            p.number == 0,
            p.period_types@.len() == 0,
            p.frames_requested@.len() == 0,
            p.output@.len() == 0,
            p.raw_frames@.len() == 0,
            p.good_frames@.len() == 0,
            p.periodlist_chunk_size == settings.periodlist_chunk_size,
    {
        Periods {
            number: 0,
            period_types: Vec::new(),
            frames_requested: Vec::new(),
            output: Vec::new(),
            raw_frames: Vec::new(),
            good_frames: Vec::new(),
            periodlist_chunk_size: settings.periodlist_chunk_size,
        }
    }

    /// Counts a frame in its period. For a period already listed in `output`
    /// (at its first occurrence `i`), the period number is appended to
    /// `output` and entry `i` of `raw_frames`, of `good_frames` when the frame
    /// is unvetoed, and of `frames_requested` grows by one; a missing entry
    /// ends the update with an error. A new period gets one entry in each
    /// list and `number` grows by one.
    pub fn handle_message(&mut self, message: &FrameAssembledEventListMessage) -> (r: Result<(), NexusPushError>)
        requires
            periods_accept(*old(self)),
        ensures
            periods_step(*old(self), *final(self), *message, r),
    {
        let period_number = message.metadata.period_number;
        match find(&self.output, period_number) {
            Some(index) => {
                self.output.push(period_number);
                match increment_at(&mut self.raw_frames, index) {
                    Ok(()) => {},
                    Err(e) => {
                        return Err(e);
                    },
                }
                if message.metadata.veto_flags == 0 {
                    match increment_at(&mut self.good_frames, index) {
                        Ok(()) => {},
                        Err(e) => {
                            return Err(e);
                        },
                    }
                }
                increment_at(&mut self.frames_requested, index)
            },
            None => {
                self.output.push(period_number);
                self.raw_frames.push(1);
                self.good_frames.push(if message.metadata.veto_flags == 0 { 1 } else { 0 });
                self.period_types.push(0);
                self.frames_requested.push(0);
                self.number = self.number + 1;
                Ok(())
            },
        }
    }
}


/// Law: a frame of a period not seen before opens it with one raw frame, and
/// with one good frame exactly when its veto flags are zero (none otherwise),
/// whatever its other metadata; the counts of earlier periods stay.
pub proof fn law_new_period_counts_unvetoed_frame_as_good(
    old: Periods,
    new: Periods,
    message: FrameAssembledEventListMessage,
    r: Result<(), NexusPushError>,
)
    requires
        periods_step(old, new, message, r),
        forall|j: int| 0 <= j < old.output@.len() ==> #[trigger] old.output@[j] != message.metadata.period_number,
    ensures
        r is Ok,
        new.raw_frames@.len() == old.raw_frames@.len() + 1,
        new.raw_frames@.last() == 1,
        new.good_frames@.len() == old.good_frames@.len() + 1,
        new.good_frames@.last() == (if message.metadata.veto_flags == 0 { 1u32 } else { 0u32 }),
        forall|k: int| 0 <= k < old.good_frames@.len() ==> #[trigger] new.good_frames@[k] == old.good_frames@[k],
        forall|k: int| 0 <= k < old.raw_frames@.len() ==> #[trigger] new.raw_frames@[k] == old.raw_frames@[k],
{
    assert(first_index(old.output@, message.metadata.period_number) is None);
}

/// Law: a frame of the period first recorded at position `i` raises that
/// period's raw frames by one, and its good frames by one exactly when the
/// frame's veto flags are zero, whatever its other metadata; every other
/// period's counts stay (when the counts have an entry for the period, and,
/// as `handle_message` asks, no count is full).
pub proof fn law_known_period_counts_unvetoed_frame_as_good(
    old: Periods,
    new: Periods,
    message: FrameAssembledEventListMessage,
    r: Result<(), NexusPushError>,
    i: int,
)
    requires
        periods_step(old, new, message, r),
        0 <= i < old.output@.len(),
        old.output@[i] == message.metadata.period_number,
        forall|j: int| 0 <= j < i ==> #[trigger] old.output@[j] != message.metadata.period_number,
        i < old.raw_frames@.len(),
        i < old.good_frames@.len(),
        periods_accept(old),
    ensures
        new.raw_frames@.len() == old.raw_frames@.len(),
        new.raw_frames@[i] == old.raw_frames@[i] + 1,
        new.good_frames@.len() == old.good_frames@.len(),
        new.good_frames@[i] == old.good_frames@[i] + (if message.metadata.veto_flags == 0 { 1int } else { 0int }),
        forall|k: int| 0 <= k < old.good_frames@.len() && k != i ==> #[trigger] new.good_frames@[k] == old.good_frames@[k],
        forall|k: int| 0 <= k < old.raw_frames@.len() && k != i ==> #[trigger] new.raw_frames@[k] == old.raw_frames@[k],
{
    let p = message.metadata.period_number;
    assert(0 <= i < old.output@.len() && old.output@[i] == p && forall|j: int| 0 <= j < i ==> old.output@[j] != p);
    let f = first_index(old.output@, p);
    assert(f is Some);
    let c = f.unwrap();
    assert(0 <= c < old.output@.len() && old.output@[c] == p && forall|j: int| 0 <= j < c ==> old.output@[j] != p);
    if c < i {
        assert(old.output@[c] != p);
    }
    if i < c {
        assert(old.output@[i] != p);
    }
    assert(c == i);
    assert(old.raw_frames@[i] < u32::MAX);
    assert(old.good_frames@[i] < u32::MAX);
}

} // verus!
