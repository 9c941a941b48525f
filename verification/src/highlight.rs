//! Highlight ranges: from the positions at which a pattern matches to the
//! ranges that the interface paints.

use vstd::prelude::*;

verus! {

/// The starts of `ranges` grow strictly from each range to the next.
pub open spec fn ascending(ranges: Seq<(u32, u32)>) -> bool {
    forall|i: int, j: int| 0 <= i < j < ranges.len() ==> (#[trigger] ranges[i]).0 < (
    #[trigger] ranges[j]).0
}

/// Some range of `ranges` starts at `position`.
pub open spec fn starts_at(ranges: Seq<(u32, u32)>, position: u32) -> bool {
    exists|i: int| 0 <= i < ranges.len() && (#[trigger] ranges[i]).0 == position
}

/// `ranges` are the highlight ranges for the match positions `positions`:
/// one range of one character for each position that occurs, each position
/// once, in ascending order. Neighbouring ranges are not joined.
pub open spec fn marks(positions: Seq<u32>, ranges: Seq<(u32, u32)>) -> bool {
    &&& forall|i: int| 0 <= i < ranges.len() ==> (#[trigger] ranges[i]).1 == ranges[i].0 + 1
    &&& ascending(ranges)
    &&& forall|i: int| 0 <= i < ranges.len() ==> positions.contains((#[trigger] ranges[i]).0)
    &&& forall|k: int| 0 <= k < positions.len() ==> starts_at(ranges, #[trigger] positions[k])
}

/// `sorted` holds the values of `raw`, each once, in strictly ascending order.
pub open spec fn sorted_unique(raw: Seq<u32>, sorted: Seq<u32>) -> bool {
    &&& forall|i: int, j: int| 0 <= i < j < sorted.len() ==> sorted[i] < sorted[j]
    &&& forall|i: int| 0 <= i < sorted.len() ==> raw.contains(#[trigger] sorted[i])
    &&& forall|k: int| 0 <= k < raw.len() ==> sorted.contains(#[trigger] raw[k])
}

proof fn lemma_same_prefix(positions: Seq<u32>, a: Seq<(u32, u32)>, b: Seq<(u32, u32)>, n: nat)
    requires
        marks(positions, a),
        marks(positions, b),
        n <= a.len(),
        n <= b.len(),
    ensures
        forall|k: int| 0 <= k < n ==> a[k] == b[k],
    decreases n,
{
    if n > 0 {
        lemma_same_prefix(positions, a, b, (n - 1) as nat);
        let i = n - 1;
        let ka = choose|k: int| 0 <= k < positions.len() && positions[k] == a[i].0;
        assert(starts_at(b, positions[ka]));
        let j = choose|j: int| 0 <= j < b.len() && (#[trigger] b[j]).0 == positions[ka];
        if j < i {
            assert(a[j] == b[j]);
            assert(a[j].0 < a[i].0);
        }
        let kb = choose|k: int| 0 <= k < positions.len() && positions[k] == b[i].0;
        assert(starts_at(a, positions[kb]));
        let h = choose|h: int| 0 <= h < a.len() && (#[trigger] a[h]).0 == positions[kb];
        if h < i {
            assert(a[h] == b[h]);
            assert(b[h].0 < b[i].0);
        }
        if i < j {
            assert(b[i].0 < b[j].0);
        }
        if i < h {
            assert(a[i].0 < a[h].0);
        }
        assert(a[i].0 == b[i].0);
    }
}

proof fn lemma_not_longer(positions: Seq<u32>, a: Seq<(u32, u32)>, b: Seq<(u32, u32)>)
    requires
        marks(positions, a),
        marks(positions, b),
    ensures
        a.len() <= b.len(),
{
    if a.len() > b.len() {
        let n = b.len();
        lemma_same_prefix(positions, a, b, n);
        let ka = choose|k: int| 0 <= k < positions.len() && positions[k] == a[n as int].0;
        assert(starts_at(b, positions[ka]));
        let j = choose|j: int| 0 <= j < b.len() && (#[trigger] b[j]).0 == positions[ka];
        assert(a[j] == b[j]);
        assert(a[j].0 < a[n as int].0);
    }
}

/// The highlight ranges of given match positions are determined: two
/// sequences of ranges that both mark the same positions are equal.
pub proof fn lemma_marks_unique(positions: Seq<u32>, a: Seq<(u32, u32)>, b: Seq<(u32, u32)>)
    requires
        marks(positions, a),
        marks(positions, b),
    ensures
        a == b,
{
    lemma_not_longer(positions, a, b);
    lemma_not_longer(positions, b, a);
    lemma_same_prefix(positions, a, b, a.len());
    assert(a =~= b);
}

/// The values of `raw`, each once, in ascending order.
pub fn sort_dedup(raw: &Vec<u32>) -> (sorted: Vec<u32>)
    ensures
        sorted_unique(raw@, sorted@),
{
    let mut sorted: Vec<u32> = Vec::new();
    let mut i: usize = 0;
    while i < raw.len()
        invariant
            i <= raw.len(),
            sorted_unique(raw@.take(i as int), sorted@),
        decreases raw.len() - i,
    {
        let p: u32 = raw[i];
        let mut at: usize = 0;
        while at < sorted.len() && sorted[at] < p
            invariant
                at <= sorted.len(),
                forall|k: int| 0 <= k < at ==> sorted@[k] < p,
            decreases sorted.len() - at,
        {
            at = at + 1;
        }
        let ghost before = sorted@;
        let ghost seen = raw@.take(i as int);
        let ghost next = raw@.take(i + 1);
        assert(next == seen.push(p));
        assert forall|k: int| 0 <= k < seen.len() implies next.contains(#[trigger] seen[k]) by {
            assert(next[k] == seen[k]);
        }
        assert(next.contains(p)) by {
            assert(next[i as int] == p);
        }
        if at < sorted.len() && sorted[at] == p {
            assert forall|k: int| 0 <= k < next.len() implies sorted@.contains(#[trigger] next[k]) by {
                if k < i {
                    assert(next[k] == seen[k]);
                } else {
                    assert(sorted@[at as int] == p);
                }
            }
            assert forall|k: int| 0 <= k < sorted@.len() implies next.contains(
                #[trigger] sorted@[k],
            ) by {
                let w = choose|w: int| 0 <= w < seen.len() && seen[w] == sorted@[k];
                assert(next[w] == seen[w]);
            }
        } else {
            sorted.insert(at, p);
            assert(sorted@ == before.insert(at as int, p));
            assert forall|a: int, b: int| 0 <= a < b < sorted@.len() implies sorted@[a]
                < sorted@[b] by {
                if a < at && b > at {
                    assert(before[a] < p);
                    assert(sorted@[b] == before[b - 1]);
                    assert(p < before[at as int]);
                    assert(before[at as int] <= before[b - 1]) by {
                        if at < b - 1 {
                            assert(before[at as int] < before[b - 1]);
                        }
                    }
                }
                if a == at {
                    assert(sorted@[b] == before[b - 1]);
                    if at < b - 1 {
                        assert(before[at as int] < before[b - 1]);
                    }
                }
                if b < at {
                    assert(sorted@[a] == before[a] && sorted@[b] == before[b]);
                }
                if a > at {
                    assert(sorted@[a] == before[a - 1] && sorted@[b] == before[b - 1]);
                }
            }
            assert forall|k: int| 0 <= k < sorted@.len() implies next.contains(
                #[trigger] sorted@[k],
            ) by {
                if k < at {
                    assert(sorted@[k] == before[k]);
                    let w = choose|w: int| 0 <= w < seen.len() && seen[w] == before[k];
                    assert(next[w] == seen[w]);
                } else if k > at {
                    assert(sorted@[k] == before[k - 1]);
                    let w = choose|w: int| 0 <= w < seen.len() && seen[w] == before[k - 1];
                    assert(next[w] == seen[w]);
                }
            }
            assert forall|k: int| 0 <= k < next.len() implies sorted@.contains(#[trigger] next[k]) by {
                if k < i {
                    assert(next[k] == seen[k]);
                    let w = choose|w: int| 0 <= w < before.len() && before[w] == seen[k];
                    if w < at {
                        assert(sorted@[w] == before[w]);
                    } else {
                        assert(sorted@[w + 1] == before[w]);
                    }
                } else {
                    assert(sorted@[at as int] == p);
                }
            }
        }
        i = i + 1;
    }
    assert(raw@.take(raw.len() as int) == raw@);
    sorted
}

/// The highlight ranges for the match positions that the index reports.
pub fn highlight_ranges(positions: &Vec<u32>) -> (ranges: Vec<(u32, u32)>)
    requires
        forall|k: int| 0 <= k < positions@.len() ==> positions@[k] < u32::MAX,
    ensures
        marks(positions@, ranges@),
{
    let sorted = sort_dedup(positions);
    let mut ranges: Vec<(u32, u32)> = Vec::new();
    let mut i: usize = 0;
    while i < sorted.len()
        invariant
            i <= sorted.len(),
            sorted_unique(positions@, sorted@),
            forall|k: int| 0 <= k < positions@.len() ==> positions@[k] < u32::MAX,
            ranges@.len() == i,
            forall|k: int|
                0 <= k < i ==> (#[trigger] ranges@[k]).0 == sorted@[k] && ranges@[k].1
                    == sorted@[k] + 1,
        decreases sorted.len() - i,
    {
        let p: u32 = sorted[i];
        assert(positions@.contains(sorted@[i as int]));
        ranges.push((p, p + 1));
        i = i + 1;
    }
    assert forall|k: int| 0 <= k < positions@.len() implies starts_at(
        ranges@,
        #[trigger] positions@[k],
    ) by {
        assert(sorted@.contains(positions@[k]));
        let w = choose|w: int| 0 <= w < sorted@.len() && sorted@[w] == positions@[k];
        assert(0 <= w < ranges@.len() && ranges@[w].0 == positions@[k]);
    }
    assert forall|r: int| 0 <= r < ranges@.len() implies positions@.contains(
        (#[trigger] ranges@[r]).0,
    ) by {
        assert(positions@.contains(sorted@[r]));
    }
    assert forall|a: int, b: int| 0 <= a < b < ranges@.len() implies (#[trigger] ranges@[a]).0 < (
    #[trigger] ranges@[b]).0 by {
        assert(sorted@[a] < sorted@[b]);
    }
    assert forall|r: int| 0 <= r < ranges@.len() implies (#[trigger] ranges@[r]).1 == ranges@[r].0
        + 1 by {
        assert(ranges@[r].0 == sorted@[r]);
    }
    ranges
}

} // verus!
