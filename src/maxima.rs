//! Local maxima of a spectrum, by rank.
//!
//! Buckets are compared through integer keys that order as the signal
//! strengths do; positions are bucket indices.
use vstd::prelude::*;

verus! {

/// Bucket `i` is a local maximum: the first difference turns from rising to
/// falling there.
pub open spec fn is_peak(keys: Seq<i64>, i: int) -> bool {
    &&& 0 < i < keys.len() - 1
    &&& keys[i - 1] < keys[i]
    &&& keys[i + 1] < keys[i]
}

/// The local maxima below position `upto`, in ascending order.
pub open spec fn peaks_below(keys: Seq<i64>, upto: int) -> Seq<int>
    decreases upto,
{
    if upto <= 0 {
        Seq::empty()
    } else if is_peak(keys, upto - 1) {
        peaks_below(keys, upto - 1).push(upto - 1)
    } else {
        peaks_below(keys, upto - 1)
    }
}

/// All local maxima, in ascending order of position (discovery order).
pub open spec fn peaks(keys: Seq<i64>) -> Seq<int> {
    peaks_below(keys, keys.len() as int)
}

/// Bucket `a` ranks before bucket `b`: it is stronger, or as strong and lower.
pub open spec fn ranks_before(keys: Seq<i64>, a: int, b: int) -> bool {
    keys[a] > keys[b] || (keys[a] == keys[b] && a < b)
}

/// `r` holds exactly the first `count` maxima of discovery order, strongest
/// first, ties kept in discovery order.
pub open spec fn ranked_prefix(keys: Seq<i64>, r: Seq<usize>, count: int) -> bool {
    &&& r.len() == count
    &&& forall|a: int|
        0 <= a < r.len() ==> peaks(keys).subrange(0, count).contains(#[trigger] r[a] as int)
    &&& forall|j: int| 0 <= j < count ==> r.contains(#[trigger] peaks(keys)[j] as usize)
    &&& forall|a: int, b: int|
        0 <= a < b < r.len() ==> ranks_before(keys, #[trigger] r[a] as int, #[trigger] r[b] as int)
}

proof fn lemma_peaks_below_bounds(keys: Seq<i64>, upto: int)
    ensures
        peaks_below(keys, upto).len() <= if upto < 0 { 0 } else { upto },
        forall|a: int| 0 <= a < peaks_below(keys, upto).len() ==> {
            &&& is_peak(keys, #[trigger] peaks_below(keys, upto)[a])
            &&& peaks_below(keys, upto)[a] < upto
        },
        forall|a: int, b: int| 0 <= a < b < peaks_below(keys, upto).len() ==>
            #[trigger] peaks_below(keys, upto)[a] < #[trigger] peaks_below(keys, upto)[b],
    decreases upto,
{
    if upto > 0 {
        lemma_peaks_below_bounds(keys, upto - 1);
    }
}

/// Positions `upto..later` hold no maximum, so no more are found below `later`.
proof fn lemma_peaks_below_stable(keys: Seq<i64>, upto: int, later: int)
    requires
        0 <= upto <= later,
        forall|m: int| upto <= m < later ==> !#[trigger] is_peak(keys, m),
    ensures
        peaks_below(keys, later) == peaks_below(keys, upto),
    decreases later - upto,
{
    if later > upto {
        lemma_peaks_below_stable(keys, upto, later - 1);
    }
}

/// The maxima below `upto` come first among those below `later`.
proof fn lemma_peaks_below_prefix(keys: Seq<i64>, upto: int, later: int)
    requires
        0 <= upto <= later,
    ensures
        peaks_below(keys, upto).len() <= peaks_below(keys, later).len(),
        peaks_below(keys, later).subrange(0, peaks_below(keys, upto).len() as int)
            == peaks_below(keys, upto),
    decreases later - upto,
{
    if later > upto {
        lemma_peaks_below_prefix(keys, upto, later - 1);
        let p = peaks_below(keys, later - 1);
        let q = peaks_below(keys, later);
        let n = peaks_below(keys, upto).len() as int;
        if is_peak(keys, later - 1) {
            assert(q.subrange(0, n) =~= p.subrange(0, n));
        }
    } else {
        assert(peaks_below(keys, upto).subrange(0, peaks_below(keys, upto).len() as int)
            =~= peaks_below(keys, upto));
    }
}

/// Insert peak `p`, which lies above every position in `out`, after all
/// entries at least as strong.
fn insert_ranked(keys: &[i64], out: &mut Vec<usize>, p: usize)
    requires
        p < keys@.len(),
        forall|a: int| 0 <= a < old(out)@.len() ==> (#[trigger] old(out)@[a]) < p,
        forall|a: int, b: int| 0 <= a < b < old(out)@.len() ==>
            ranks_before(keys@, #[trigger] old(out)@[a] as int, #[trigger] old(out)@[b] as int),
    ensures
        final(out)@.len() == old(out)@.len() + 1,
        forall|x: usize| #[trigger] final(out)@.contains(x) <==> (old(out)@.contains(x) || x == p),
        forall|a: int, b: int| 0 <= a < b < final(out)@.len() ==>
            ranks_before(keys@, #[trigger] final(out)@[a] as int, #[trigger] final(out)@[b] as int),
{
    let ghost before = out@;
    let mut pos: usize = 0;
    while pos < out.len() && keys[out[pos]] >= keys[p]
        invariant
            out@ == before,
            p < keys@.len(),
            pos <= out@.len(),
            forall|a: int| 0 <= a < out@.len() ==> (#[trigger] out@[a]) < p,
            forall|a: int| 0 <= a < pos ==> keys@[#[trigger] out@[a] as int] >= keys@[p as int],
            forall|a: int, b: int| 0 <= a < b < out@.len() ==>
                ranks_before(keys@, #[trigger] out@[a] as int, #[trigger] out@[b] as int),
        decreases out@.len() - pos,
    {
        pos = pos + 1;
    }
    proof {
        assert forall|a: int| pos <= a < before.len() implies keys@[#[trigger] before[a] as int]
            < keys@[p as int] by {
            if a > pos {
                assert(ranks_before(keys@, before[pos as int] as int, before[a] as int));
            }
        }
    }
    out.insert(pos, p);
    let ghost after = out@;
    assert(after =~= before.insert(pos as int, p));
    assert forall|x: usize| #[trigger] after.contains(x) <==> (before.contains(x) || x == p) by {
        if after.contains(x) {
            let a = choose|a: int| 0 <= a < after.len() && after[a] == x;
            if a < pos {
                assert(before[a] == x);
            } else if a > pos {
                assert(before[a - 1] == x);
            }
        }
        if before.contains(x) {
            let a = choose|a: int| 0 <= a < before.len() && before[a] == x;
            if a < pos {
                assert(after[a] == x);
            } else {
                assert(after[a + 1] == x);
            }
        }
        if x == p {
            assert(after[pos as int] == x);
        }
    }
    assert forall|a: int, b: int| 0 <= a < b < after.len() implies ranks_before(
        keys@,
        #[trigger] after[a] as int,
        #[trigger] after[b] as int,
    ) by {
        if b < pos {
            assert(ranks_before(keys@, before[a] as int, before[b] as int));
        } else if b == pos {
            assert(keys@[before[a] as int] >= keys@[p as int]);
        } else if a < pos {
            assert(ranks_before(keys@, before[a] as int, before[b - 1] as int));
        } else if a == pos {
            assert(keys@[before[b - 1] as int] < keys@[p as int]);
        } else {
            assert(ranks_before(keys@, before[a - 1] as int, before[b - 1] as int));
        }
    }
}

/// Find the local maxima of the buckets whose order keys are `keys`, taking
/// at most `capacity` of them.
///
/// The maxima are taken in ascending order of position and only then ranked,
/// strongest first: when more than `capacity` exist, the ones kept are the
/// lowest in position, not the strongest. Returns the kept positions.
pub fn find_maxima(keys: &[i64], capacity: usize) -> (r: Vec<usize>)
    ensures
        ranked_prefix(
            keys@,
            r@,
            if capacity < peaks(keys@).len() { capacity as int } else { peaks(keys@).len() as int },
        ),
{
    let n = keys.len();
    let mut out: Vec<usize> = Vec::new();
    if n < 3 {
        proof {
            assert forall|m: int| 0 <= m < n implies !#[trigger] is_peak(keys@, m) by {}
            lemma_peaks_below_stable(keys@, 0, n as int);
        }
        return out;
    }
    let mut i: usize = 1;
    proof {
        assert(!is_peak(keys@, 0));
        assert(peaks_below(keys@, 1) =~= peaks_below(keys@, 0));
    }
    while i + 1 < n && out.len() < capacity
        invariant
            n == keys@.len(),
            1 <= i < n,
            out@.len() == peaks_below(keys@, i as int).len(),
            out@.len() <= capacity,
            forall|a: int| 0 <= a < out@.len() ==> (#[trigger] out@[a]) < i,
            forall|x: usize| #[trigger] out@.contains(x) <==> peaks_below(keys@, i as int).contains(
                x as int,
            ),
            forall|a: int, b: int| 0 <= a < b < out@.len() ==>
                ranks_before(keys@, #[trigger] out@[a] as int, #[trigger] out@[b] as int),
        decreases n - i,
    {
        let ghost found = peaks_below(keys@, i as int);
        proof {
            lemma_peaks_below_bounds(keys@, i as int);
        }
        if keys[i - 1] < keys[i] && keys[i + 1] < keys[i] {
            assert(is_peak(keys@, i as int));
            assert forall|a: int| 0 <= a < out@.len() implies (#[trigger] out@[a]) < i by {}
            insert_ranked(keys, &mut out, i);
            proof {
                let next = peaks_below(keys@, i + 1);
                assert(next == found.push(i as int));
                assert forall|x: usize|
                    #[trigger] out@.contains(x) <==> next.contains(x as int) by {
                    if next.contains(x as int) {
                        let j = choose|j: int| 0 <= j < next.len() && next[j] == x as int;
                        if j < found.len() {
                            assert(found[j] == x as int);
                            assert(found.contains(x as int));
                        }
                    }
                    if found.contains(x as int) {
                        let j = choose|j: int| 0 <= j < found.len() && found[j] == x as int;
                        assert(next[j] == x as int);
                    }
                    if x == i {
                        assert(next[found.len() as int] == i as int);
                    }
                }
                assert forall|a: int| 0 <= a < out@.len() implies (#[trigger] out@[a]) < i + 1 by {
                    assert(out@.contains(out@[a]));
                    let j = choose|j: int| 0 <= j < next.len() && next[j] == out@[a] as int;
                    lemma_peaks_below_bounds(keys@, i + 1);
                }
            }
        } else {
            assert(!is_peak(keys@, i as int));
            assert(peaks_below(keys@, i + 1) == found);
        }
        i = i + 1;
    }
    let ghost count = out@.len() as int;
    let ghost all = peaks(keys@);
    let ghost found = peaks_below(keys@, i as int);
    proof {
        lemma_peaks_below_bounds(keys@, i as int);
        if i + 1 < n {
            lemma_peaks_below_prefix(keys@, i as int, n as int);
        } else {
            assert forall|m: int| i <= m < n implies !#[trigger] is_peak(keys@, m) by {}
            lemma_peaks_below_stable(keys@, i as int, n as int);
            assert(found.subrange(0, count) =~= found);
        }
        assert(all.subrange(0, count) == found);
        assert forall|a: int| 0 <= a < out@.len() implies all.subrange(0, count).contains(
            #[trigger] out@[a] as int,
        ) by {
            assert(out@.contains(out@[a]));
        }
        assert forall|j: int| 0 <= j < count implies out@.contains(#[trigger] all[j] as usize) by {
            assert(found[j] == all.subrange(0, count)[j]);
            assert(found.contains(found[j]));
            assert(found[j] >= 0);
        }
    }
    out
}

/// All local maxima, strongest first, ties in ascending order of position.
pub fn find_maxima_alloc(keys: &[i64]) -> (r: Vec<usize>)
    ensures
        ranked_prefix(keys@, r@, peaks(keys@).len() as int),
{
    proof {
        lemma_peaks_below_bounds(keys@, keys@.len() as int);
    }
    find_maxima(keys, keys.len())
}

/// The position of the strongest bucket; the last one where several are
/// equally strong.
pub fn max_index(keys: &[i64]) -> (r: usize)
    requires
        keys@.len() > 0,
    ensures
        r < keys@.len(),
        forall|i: int| 0 <= i < keys@.len() ==> keys@[i] <= keys@[r as int],
        forall|i: int| r < i < keys@.len() ==> keys@[i] < keys@[r as int],
{
    let mut best: usize = 0;
    let mut i: usize = 1;
    while i < keys.len()
        invariant
            1 <= i <= keys@.len(),
            best < i,
            forall|j: int| 0 <= j < i ==> keys@[j] <= keys@[best as int],
            forall|j: int| best < j < i ==> keys@[j] < keys@[best as int],
        decreases keys@.len() - i,
    {
        if keys[i] >= keys[best] {
            best = i;
        }
        i = i + 1;
    }
    best
}

} // verus!
