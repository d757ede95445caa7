use vstd::prelude::*;
use vstd::relations::{sorted_by, total_ordering};

verus! {

/// The order of digitiser identifiers.
pub open spec fn id_leq() -> spec_fn(u8, u8) -> bool {
    |a: u8, b: u8| a <= b
}

/// The identifiers are in ascending order.
pub open spec fn ids_sorted(s: Seq<u8>) -> bool {
    sorted_by(s, id_leq())
}

/// `id_leq` is a total order.
pub proof fn lemma_id_leq_total()
    ensures
        total_ordering(id_leq()),
{
}

/// A sorted sequence with the same elements as `s` is `s` sorted.
pub proof fn lemma_sorted_is_sort(sorted: Seq<u8>, s: Seq<u8>)
    requires
        ids_sorted(sorted),
        sorted.to_multiset() == s.to_multiset(),
    ensures
        sorted == s.sort_by(id_leq()),
{
    lemma_id_leq_total();
    s.lemma_sort_by_ensures(id_leq());
    vstd::seq_lib::lemma_sorted_unique(sorted, s.sort_by(id_leq()), id_leq());
}

/// The identifiers of `ids` in ascending order.
pub fn sorted_ids(ids: &Vec<u8>) -> (r: Vec<u8>)
    ensures
        ids_sorted(r@),
        r@.to_multiset() == ids@.to_multiset(),
        r@ == ids@.sort_by(id_leq()),
{
    let mut r: Vec<u8> = Vec::new();
    let n = ids.len();
    let mut i: usize = 0;
    assert(ids@.subrange(0, 0) == r@);
    while i < n
        invariant
            n == ids.len(),
            i <= n,
            ids_sorted(r@),
            r@.to_multiset() == ids@.subrange(0, i as int).to_multiset(),
        decreases n - i,
    {
        let x = ids[i];
        let mut pos: usize = 0;
        while pos < r.len() && r[pos] <= x
            invariant
                pos <= r.len(),
                forall|k: int| 0 <= k < pos ==> r@[k] <= x,
            decreases r.len() - pos,
        {
            pos = pos + 1;
        }
        let ghost before = r@;
        r.insert(pos, x);
        proof {
            assert(r@ == before.insert(pos as int, x));
            assert forall|a: int, b: int| 0 <= a < b < r@.len() implies #[trigger] id_leq()(r@[a], r@[b]) by {
                if b < pos {
                    assert(id_leq()(before[a], before[b]));
                } else if b == pos {
                    assert(r@[a] == before[a]);
                } else if a < pos {
                    assert(r@[b] == before[b - 1]);
                    if pos < before.len() {
                        assert(id_leq()(before[pos as int], before[b - 1]) || pos as int == b - 1);
                    }
                } else if a == pos {
                    assert(r@[b] == before[b - 1]);
                    assert(before[pos as int] > x);
                    if b - 1 > pos {
                        assert(id_leq()(before[pos as int], before[b - 1]));
                    }
                } else {
                    assert(id_leq()(before[a - 1], before[b - 1]));
                }
            }
            assert(ids@.subrange(0, i + 1) == ids@.subrange(0, i as int).push(x));
            vstd::seq_lib::to_multiset_insert(before, pos as int, x);
            vstd::seq_lib::to_multiset_build(ids@.subrange(0, i as int), x);
        }
        i = i + 1;
    }
    proof {
        assert(ids@.subrange(0, n as int) == ids@);
        lemma_sorted_is_sort(r@, ids@);
    }
    r
}

/// The order of frame numbers.
pub open spec fn frame_leq() -> spec_fn(u32, u32) -> bool {
    |a: u32, b: u32| a <= b
}

/// The frame numbers of `keys` in ascending order.
pub fn sorted_frame_numbers(keys: &Vec<u32>) -> (r: Vec<u32>)
    ensures
        sorted_by(r@, frame_leq()),
        r@.to_multiset() == keys@.to_multiset(),
{
    let mut r: Vec<u32> = Vec::new();
    let n = keys.len();
    let mut i: usize = 0;
    assert(keys@.subrange(0, 0) == r@);
    while i < n
        invariant
            n == keys.len(),
            i <= n,
            sorted_by(r@, frame_leq()),
            r@.to_multiset() == keys@.subrange(0, i as int).to_multiset(),
        decreases n - i,
    {
        let x = keys[i];
        let mut pos: usize = 0;
        while pos < r.len() && r[pos] <= x
            invariant
                pos <= r.len(),
                forall|k: int| 0 <= k < pos ==> r@[k] <= x,
            decreases r.len() - pos,
        {
            pos = pos + 1;
        }
        let ghost before = r@;
        r.insert(pos, x);
        proof {
            assert forall|a: int, b: int| 0 <= a < b < r@.len() implies #[trigger] frame_leq()(r@[a], r@[b]) by {
                if b < pos {
                    assert(frame_leq()(before[a], before[b]));
                } else if b == pos {
                    assert(r@[a] == before[a]);
                } else if a < pos {
                    assert(r@[b] == before[b - 1]);
                    if pos < before.len() {
                        assert(frame_leq()(before[pos as int], before[b - 1]) || pos as int == b - 1);
                    }
                } else if a == pos {
                    assert(r@[b] == before[b - 1]);
                    if b - 1 > pos {
                        assert(frame_leq()(before[pos as int], before[b - 1]));
                    }
                } else {
                    assert(frame_leq()(before[a - 1], before[b - 1]));
                }
            }
            assert(keys@.subrange(0, i + 1) == keys@.subrange(0, i as int).push(x));
            vstd::seq_lib::to_multiset_insert(before, pos as int, x);
            vstd::seq_lib::to_multiset_build(keys@.subrange(0, i as int), x);
        }
        i = i + 1;
    }
    proof {
        assert(keys@.subrange(0, n as int) == keys@);
    }
    r
}

} // verus!
