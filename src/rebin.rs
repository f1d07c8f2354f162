//! Re-binning: merging the buckets of one spectrum into fewer (or more)
//! buckets of another, by adding each source bucket into one target bucket.
use vstd::prelude::*;

verus! {

/// The target bucket that source bucket `i` of `n` is added into when the
/// target has `m` buckets.
pub open spec fn rebin_target(i: int, n: int, m: int) -> int {
    i * m / n
}

/// The target bucket of source bucket `i`, for `n` source and `m` target
/// buckets: `i * m / n`, always a valid target index.
pub fn rebin_index(i: usize, n: usize, m: usize) -> (r: usize)
    requires
        i < n,
        i * m <= usize::MAX,
    ensures
        r as int == rebin_target(i as int, n as int, m as int),
        m > 0 ==> r < m,
{
    proof {
        lemma_rebin_target_in_range(i as int, n as int, m as int);
    }
    i * m / n
}

proof fn lemma_rebin_target_in_range(i: int, n: int, m: int)
    requires
        0 <= i < n,
        m >= 0,
    ensures
        0 <= rebin_target(i, n, m),
        m > 0 ==> rebin_target(i, n, m) < m,
{
    assert(i * m >= 0) by (nonlinear_arith)
        requires
            i >= 0,
            m >= 0,
    ;
    if m > 0 {
        assert(i * m < n * m) by (nonlinear_arith)
            requires
                i < n,
                m > 0,
        ;
        vstd::arithmetic::div_mod::lemma_div_by_multiple_is_strongly_ordered(i * m, n * m, m, n);
        vstd::arithmetic::div_mod::lemma_div_by_multiple(m, n);
    }
    vstd::arithmetic::div_mod::lemma_div_pos_is_pos(i * m, n);
}

/// The sum of a sequence of values.
pub open spec fn total(s: Seq<int>) -> int
    decreases s.len(),
{
    if s.len() == 0 {
        0
    } else {
        total(s.drop_last()) + s.last()
    }
}

/// The `m` target buckets after the first `k` source buckets of `vals` were
/// added into them, starting from zero.
pub open spec fn rebinned_upto(vals: Seq<int>, m: nat, k: int) -> Seq<int>
    decreases k,
{
    if k <= 0 {
        Seq::new(m, |j: int| 0int)
    } else {
        let acc = rebinned_upto(vals, m, k - 1);
        let t = rebin_target(k - 1, vals.len() as int, m as int);
        acc.update(t, acc[t] + vals[k - 1])
    }
}

/// The `m` target buckets after all of `vals` were added into them.
pub open spec fn rebinned(vals: Seq<int>, m: nat) -> Seq<int> {
    rebinned_upto(vals, m, vals.len() as int)
}

proof fn lemma_total_zeros(m: nat)
    ensures
        total(Seq::new(m, |j: int| 0int)) == 0,
    decreases m,
{
    if m > 0 {
        lemma_total_zeros((m - 1) as nat);
        assert(Seq::new(m, |j: int| 0int).drop_last() =~= Seq::new((m - 1) as nat, |j: int| 0int));
    }
}

proof fn lemma_total_add_at(s: Seq<int>, t: int, v: int)
    requires
        0 <= t < s.len(),
    ensures
        total(s.update(t, s[t] + v)) == total(s) + v,
    decreases s.len(),
{
    let u = s.update(t, s[t] + v);
    if t == s.len() - 1 {
        assert(u.drop_last() =~= s.drop_last());
    } else {
        lemma_total_add_at(s.drop_last(), t, v);
        assert(u.drop_last() =~= s.drop_last().update(t, s[t] + v));
    }
}

proof fn lemma_rebinned_upto_total(vals: Seq<int>, m: nat, k: int)
    requires
        m > 0,
        0 <= k <= vals.len(),
    ensures
        rebinned_upto(vals, m, k).len() == m,
        total(rebinned_upto(vals, m, k)) == total(vals.subrange(0, k)),
    decreases k,
{
    if k == 0 {
        lemma_total_zeros(m);
        assert(vals.subrange(0, 0) =~= Seq::<int>::empty());
    } else {
        lemma_rebinned_upto_total(vals, m, k - 1);
        let acc = rebinned_upto(vals, m, k - 1);
        let t = rebin_target(k - 1, vals.len() as int, m as int);
        lemma_rebin_target_in_range(k - 1, vals.len() as int, m as int);
        lemma_total_add_at(acc, t, vals[k - 1]);
        assert(vals.subrange(0, k).drop_last() =~= vals.subrange(0, k - 1));
    }
}

/// Re-binning preserves the sum: whatever the number of target buckets, the
/// target buckets together hold exactly the total of the source buckets.
pub proof fn lemma_rebin_preserves_total(vals: Seq<int>, m: nat)
    requires
        m > 0,
    ensures
        rebinned(vals, m).len() == m,
        total(rebinned(vals, m)) == total(vals),
{
    lemma_rebinned_upto_total(vals, m, vals.len() as int);
    assert(vals.subrange(0, vals.len() as int) =~= vals);
}

} // verus!
