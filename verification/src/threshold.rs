//! Adaptive short/long pulse boundary estimation.
//!
//! No fixed timing constant is trustworthy across hardware and compiler
//! variance, so the boundary between a short pulse (bit 0) and a long
//! pulse (bit 1) is recomputed for every frame: the sampled durations are
//! spread over a ten-bucket histogram, the peaks of the histogram are
//! located, and the threshold is the mean of the approximate durations of
//! the two most populated peaks. When the durations do not separate into
//! two clusters, the midpoint of the observed range is used instead.

use vstd::prelude::*;

verus! {

/// Smallest duration in a non-empty sample.
pub open spec fn min_tick(s: Seq<u64>) -> int
    recommends
        s.len() >= 1,
    decreases s.len(),
{
    if s.len() <= 1 {
        s[0] as int
    } else {
        let m = min_tick(s.drop_last());
        if (s.last() as int) < m {
            s.last() as int
        } else {
            m
        }
    }
}

/// Largest duration in a non-empty sample.
pub open spec fn max_tick(s: Seq<u64>) -> int
    recommends
        s.len() >= 1,
    decreases s.len(),
{
    if s.len() <= 1 {
        s[0] as int
    } else {
        let m = max_tick(s.drop_last());
        if (s.last() as int) > m {
            s.last() as int
        } else {
            m
        }
    }
}

/// Histogram bucket for duration `v`, given the sample minimum `lo` and
/// the range `hi - lo + 1`: `(v - lo) * 10 / range`, clamped to the last
/// bucket.
pub open spec fn bucket_of(v: int, lo: int, range: int) -> int {
    let b = (v - lo) * 10 / range;
    if b > 9 {
        9
    } else {
        b
    }
}

/// How many durations of `s` fall into bucket `j`.
pub open spec fn bucket_count(s: Seq<u64>, lo: int, range: int, j: int) -> nat
    decreases s.len(),
{
    if s.len() == 0 {
        0
    } else {
        bucket_count(s.drop_last(), lo, range, j) + if bucket_of(
            s.last() as int,
            lo,
            range,
        ) == j {
            1nat
        } else {
            0nat
        }
    }
}

/// The ten bucket counts of the histogram of `s`.
pub open spec fn histogram(s: Seq<u64>, lo: int, range: int) -> Seq<nat> {
    Seq::new(10, |j: int| bucket_count(s, lo, range, j))
}

/// A bucket is a peak when its count strictly exceeds the previous
/// bucket's count (zero before the first bucket) and either it is the
/// last bucket or its count strictly exceeds the next bucket's count.
/// Adjacent equal counts therefore never both register as peaks.
pub open spec fn is_peak(c: Seq<nat>, i: int) -> bool
    recommends
        c.len() == 10,
        0 <= i < c.len(),
{
    &&& c[i] > (if i == 0 {
        0nat
    } else {
        c[i - 1]
    })
    &&& (i == c.len() - 1 || c[i] > c[i + 1])
}

/// The peak bucket indices below `n`, in scan order.
pub open spec fn peaks_upto(c: Seq<nat>, n: int) -> Seq<int>
    decreases n,
{
    if n <= 0 {
        Seq::empty()
    } else {
        peaks_upto(c, n - 1) + if is_peak(c, n - 1) {
            seq![n - 1]
        } else {
            Seq::empty()
        }
    }
}

/// Left fold selecting the two peaks with the highest counts from `ps`,
/// ties resolved in favour of the first peak encountered. The result is
/// `(highest index, highest count, second index, second count)`.
pub open spec fn two_highest(c: Seq<nat>, ps: Seq<int>) -> (int, int, int, int)
    decreases ps.len(),
{
    if ps.len() == 0 {
        (0, 0, 0, 0)
    } else {
        let r = two_highest(c, ps.drop_last());
        let i = ps.last();
        let cnt = c[i] as int;
        if cnt > r.1 {
            (i, cnt, r.0, r.1)
        } else if cnt > r.3 {
            (r.0, r.1, i, cnt)
        } else {
            r
        }
    }
}

/// Approximate duration of bucket `i`: the last bucket maps to the
/// sample maximum, any other bucket to the mean of its own and the next
/// bucket's starting duration.
pub open spec fn bucket_approx(i: int, lo: int, range: int, hi: int) -> int {
    if i == 9 {
        hi
    } else {
        (range * i / 10 + lo + (range * (i + 1) / 10 + lo)) / 2
    }
}

/// The short/long boundary for a non-empty sample of pulse durations:
/// the mean of the approximate durations of the two most populated
/// histogram peaks, or the range midpoint when fewer than two peaks
/// exist.
pub open spec fn spec_threshold(s: Seq<u64>) -> int
    recommends
        s.len() >= 1,
{
    let lo = min_tick(s);
    let hi = max_tick(s);
    let range = hi - lo + 1;
    let c = histogram(s, lo, range);
    let ps = peaks_upto(c, 10);
    if ps.len() < 2 {
        lo + range / 2
    } else {
        let sel = two_highest(c, ps);
        (bucket_approx(sel.0, lo, range, hi) + bucket_approx(sel.2, lo, range, hi)) / 2
    }
}

/// The minimum never exceeds the maximum, and both are drawn from `s`.
proof fn lemma_min_le_max(s: Seq<u64>)
    requires
        s.len() >= 1,
    ensures
        min_tick(s) <= max_tick(s),
        0 <= min_tick(s),
        max_tick(s) <= u64::MAX,
    decreases s.len(),
{
    if s.len() > 1 {
        lemma_min_le_max(s.drop_last());
    }
}

/// A bucket never holds more durations than the sample has.
proof fn lemma_bucket_count_le_len(s: Seq<u64>, lo: int, range: int, j: int)
    ensures
        bucket_count(s, lo, range, j) <= s.len(),
    decreases s.len(),
{
    if s.len() > 0 {
        lemma_bucket_count_le_len(s.drop_last(), lo, range, j);
    }
}

/// Every duration of the sample lands in a bucket between 0 and 9.
proof fn lemma_bucket_in_range(v: int, lo: int, range: int)
    requires
        0 <= lo <= v,
        range >= 1,
    ensures
        0 <= bucket_of(v, lo, range) <= 9,
{
    assert((v - lo) * 10 >= 0) by (nonlinear_arith)
        requires
            v >= lo,
    ;
    assert((v - lo) * 10 / range >= 0) by (nonlinear_arith)
        requires
            (v - lo) * 10 >= 0,
            range >= 1,
    ;
}

/// Peaks recorded by the scan are real: within the histogram and with a
/// count of at least one.
proof fn lemma_peaks_props(c: Seq<nat>, n: int)
    requires
        c.len() == 10,
        n <= 10,
    ensures
        forall|k: int|
            0 <= k < peaks_upto(c, n).len() ==> {
                let i = #[trigger] peaks_upto(c, n)[k];
                0 <= i < n && is_peak(c, i) && c[i] >= 1
            },
    decreases n,
{
    if n > 0 {
        lemma_peaks_props(c, n - 1);
        let pre = peaks_upto(c, n - 1);
        let cur = peaks_upto(c, n);
        if is_peak(c, n - 1) {
            assert(cur == pre + seq![n - 1]);
            assert(forall|k: int| 0 <= k < pre.len() ==> cur[k] == pre[k]);
            assert(cur[cur.len() - 1] == n - 1);
        } else {
            assert(cur == pre + Seq::<int>::empty());
            assert(cur =~= pre);
        }
    }
}

/// With at least two recorded peaks, the scan selects two distinct real
/// peaks, each with a count of at least one.
proof fn lemma_two_highest_props(c: Seq<nat>, ps: Seq<int>)
    requires
        c.len() == 10,
        ps.len() >= 2,
        forall|k: int|
            0 <= k < ps.len() ==> 0 <= #[trigger] ps[k] < 10 && c[ps[k]] >= 1,
    ensures
        ({
            let sel = two_highest(c, ps);
            &&& 0 <= sel.0 < 10
            &&& 0 <= sel.2 < 10
            &&& sel.1 >= 1
            &&& sel.3 >= 1
            &&& sel.1 == c[sel.0]
            &&& sel.3 == c[sel.2]
        }),
    decreases ps.len(),
{
    let pre = ps.drop_last();
    assert(forall|k: int| 0 <= k < pre.len() ==> pre[k] == ps[k]);
    if ps.len() == 2 {
        assert(pre.len() == 1);
        let r1 = two_highest(c, pre);
        let r0 = two_highest(c, pre.drop_last());
        assert(pre.drop_last().len() == 0);
        assert(r0 == (0int, 0int, 0int, 0int));
        assert(c[pre.last()] >= 1);
    } else {
        lemma_two_highest_props(c, pre);
    }
}

/// Executable mirror of [`spec_threshold`]: one boundary for the whole
/// frame, computed from the histogram of the sampled pulse durations.
pub fn determine_tick_threshold(bit_ticks: &Vec<u64>) -> (r: u64)
    requires
        bit_ticks@.len() >= 1,
    ensures
        r == spec_threshold(bit_ticks@),
        min_tick(bit_ticks@) <= r <= max_tick(bit_ticks@),
{
    let s = bit_ticks;
    let ghost sq = bit_ticks@;
    let n = s.len();

    let mut lo: u64 = s[0];
    let mut hi: u64 = s[0];
    assert(sq.subrange(0, 1) =~= seq![sq[0]]);
    let mut i: usize = 1;
    while i < n
        invariant
            1 <= i <= n,
            n == sq.len(),
            s@ == sq,
            lo == min_tick(sq.subrange(0, i as int)),
            hi == max_tick(sq.subrange(0, i as int)),
        decreases n - i,
    {
        assert(sq.subrange(0, i + 1).drop_last() =~= sq.subrange(0, i as int));
        if s[i] < lo {
            lo = s[i];
        }
        if s[i] > hi {
            hi = s[i];
        }
        i = i + 1;
    }
    assert(sq.subrange(0, n as int) =~= sq);
    proof {
        lemma_min_le_max(sq);
    }

    let range_w: u128 = hi as u128 - lo as u128 + 1;
    let ghost range = hi - lo + 1int;

    // Build the histogram.
    let mut buckets: Vec<usize> = Vec::new();
    while buckets.len() < 10
        invariant
            buckets@.len() <= 10,
            forall|j: int| 0 <= j < buckets@.len() ==> buckets@[j] == 0,
        decreases 10 - buckets.len(),
    {
        buckets.push(0);
    }
    assert(forall|j: int|
        0 <= j < 10 ==> buckets@[j] == bucket_count(sq.subrange(0, 0), lo as int, range, j));
    let mut i: usize = 0;
    while i < n
        invariant
            0 <= i <= n,
            n == sq.len(),
            s@ == sq,
            buckets@.len() == 10,
            range == range_w,
            range_w == hi - lo + 1,
            lo == min_tick(sq),
            hi == max_tick(sq),
            lo <= hi,
            forall|j: int|
                0 <= j < 10 ==> buckets@[j] == bucket_count(sq.subrange(0, i as int), lo as int, range, j),
        decreases n - i,
    {
        let t = s[i];
        proof {
            lemma_min_max_bound(sq, i as int);
        }
        let d: u128 = (t as u128 - lo as u128) * 10 / range_w;
        let b: usize = if d > 9 {
            9
        } else {
            d as usize
        };
        assert(b == bucket_of(t as int, lo as int, range));
        proof {
            lemma_bucket_in_range(t as int, lo as int, range);
            lemma_bucket_count_le_len(sq.subrange(0, i as int), lo as int, range, b as int);
        }
        let cur = buckets[b];
        buckets[b] = cur + 1;
        proof {
            let pre = sq.subrange(0, i as int);
            let post = sq.subrange(0, i + 1);
            assert(post.drop_last() =~= pre);
            assert(post.last() == t);
        }
        i = i + 1;
    }
    assert(sq.subrange(0, n as int) =~= sq);
    let ghost counts = histogram(sq, lo as int, range);
    assert(forall|j: int| 0 <= j < 10 ==> buckets@[j] == counts[j]);

    // Locate the peaks.
    let mut peaks: Vec<usize> = Vec::new();
    let mut j: usize = 0;
    while j < 10
        invariant
            0 <= j <= 10,
            buckets@.len() == 10,
            counts.len() == 10,
            forall|k: int| 0 <= k < 10 ==> buckets@[k] == counts[k],
            peaks@.len() == peaks_upto(counts, j as int).len(),
            forall|k: int|
                0 <= k < peaks@.len() ==> peaks@[k] as int == peaks_upto(counts, j as int)[k],
        decreases 10 - j,
    {
        let prev: usize = if j == 0 {
            0
        } else {
            buckets[j - 1]
        };
        let count = buckets[j];
        if count > prev && (j == 9 || count > buckets[j + 1]) {
            assert(is_peak(counts, j as int));
            peaks.push(j);
        } else {
            assert(!is_peak(counts, j as int));
        }
        j = j + 1;
    }
    let ghost ps = peaks_upto(counts, 10);
    assert(forall|k: int| 0 <= k < peaks@.len() ==> peaks@[k] as int == ps[k]);

    // Fewer than two clusters: fall back to the range midpoint.
    if peaks.len() < 2 {
        let mid_w: u128 = lo as u128 + range_w / 2;
        assert(lo + range / 2 <= hi) by (nonlinear_arith)
            requires
                range == hi - lo + 1,
                lo <= hi,
        ;
        return mid_w as u64;
    }

    // Select the two most populated peaks.
    proof {
        lemma_peaks_props(counts, 10);
        lemma_two_highest_props(counts, ps);
    }
    let mut hi_i: usize = 0;
    let mut hi_c: usize = 0;
    let mut se_i: usize = 0;
    let mut se_c: usize = 0;
    let np = peaks.len();
    let mut k: usize = 0;
    while k < np
        invariant
            0 <= k <= np,
            np == ps.len(),
            peaks@.len() == np,
            buckets@.len() == 10,
            counts.len() == 10,
            forall|kk: int| 0 <= kk < 10 ==> buckets@[kk] == counts[kk],
            forall|kk: int| 0 <= kk < np ==> peaks@[kk] as int == ps[kk],
            forall|kk: int| 0 <= kk < np ==> 0 <= #[trigger] ps[kk] < 10,
            ({
                let r = two_highest(counts, ps.subrange(0, k as int));
                hi_i == r.0 && hi_c == r.1 && se_i == r.2 && se_c == r.3
            }),
        decreases np - k,
    {
        let pi = peaks[k];
        assert(pi as int == ps[k as int]);
        assert(pi < 10);
        let pc = buckets[pi];
        proof {
            let pre = ps.subrange(0, k as int);
            let post = ps.subrange(0, k + 1);
            assert(post.drop_last() =~= pre);
            assert(post.last() == pi as int);
        }
        if pc > hi_c {
            se_i = hi_i;
            se_c = hi_c;
            hi_i = pi;
            hi_c = pc;
        } else if pc > se_c {
            se_i = pi;
            se_c = pc;
        }
        k = k + 1;
    }
    assert(ps.subrange(0, np as int) =~= ps);
    let ghost sel = two_highest(counts, ps);
    assert(hi_i == sel.0 && se_i == sel.2);

    let a_w = bucket_approx_ticks(hi_i, lo, hi, range_w);
    let b_w = bucket_approx_ticks(se_i, lo, hi, range_w);
    let r_w: u128 = (a_w as u128 + b_w as u128) / 2;
    assert(r_w == (bucket_approx(sel.0, lo as int, range, hi as int) + bucket_approx(
        sel.2,
        lo as int,
        range,
        hi as int,
    )) / 2);
    assert(lo <= r_w <= hi);
    r_w as u64
}

/// A lower bound on every sample bounds the minimum.
proof fn lemma_min_lower_bound(s: Seq<u64>, bound: int)
    requires
        s.len() >= 1,
        forall|i: int| 0 <= i < s.len() ==> s[i] >= bound,
    ensures
        min_tick(s) >= bound,
    decreases s.len(),
{
    if s.len() > 1 {
        lemma_min_lower_bound(s.drop_last(), bound);
    }
}

/// An upper bound on every sample bounds the maximum.
proof fn lemma_max_upper_bound(s: Seq<u64>, bound: int)
    requires
        s.len() >= 1,
        forall|i: int| 0 <= i < s.len() ==> s[i] <= bound,
    ensures
        max_tick(s) <= bound,
    decreases s.len(),
{
    if s.len() > 1 {
        lemma_max_upper_bound(s.drop_last(), bound);
    }
}

/// The maximum is one of the samples.
proof fn lemma_max_is_element(s: Seq<u64>)
    requires
        s.len() >= 1,
    ensures
        exists|i: int| 0 <= i < s.len() && s[i] == max_tick(s),
    decreases s.len(),
{
    if s.len() <= 1 {
        assert(s[0] == max_tick(s));
    } else {
        lemma_max_is_element(s.drop_last());
        if max_tick(s) == s.last() {
            assert(s[s.len() - 1] == max_tick(s));
        } else {
            let i = choose|i: int|
                0 <= i < s.drop_last().len() && s.drop_last()[i] == max_tick(s.drop_last());
            assert(s[i] == max_tick(s));
        }
    }
}

/// No sample in bucket `j` means the bucket counts zero.
proof fn lemma_bucket_count_zero(s: Seq<u64>, lo: int, range: int, j: int)
    requires
        forall|i: int| 0 <= i < s.len() ==> bucket_of(s[i] as int, lo, range) != j,
    ensures
        bucket_count(s, lo, range, j) == 0,
    decreases s.len(),
{
    if s.len() > 0 {
        lemma_bucket_count_zero(s.drop_last(), lo, range, j);
    }
}

/// A sample in bucket `j` means the bucket counts at least one.
proof fn lemma_bucket_count_pos(s: Seq<u64>, lo: int, range: int, j: int, w: int)
    requires
        0 <= w < s.len(),
        bucket_of(s[w] as int, lo, range) == j,
    ensures
        bucket_count(s, lo, range, j) >= 1,
    decreases s.len(),
{
    if w < s.len() - 1 {
        lemma_bucket_count_pos(s.drop_last(), lo, range, j, w);
    }
}

/// Where a sample falls when the samples split into a short cluster
/// (at most `a + 1`) and a long cluster (at least `b - 1`) separated by
/// at least twenty-one ticks: shorts in the first bucket, longs in the
/// last two.
proof fn lemma_bucket_class(v: int, lo: int, range: int, hi: int, a: int, b: int)
    requires
        1 <= a,
        a + 22 <= b,
        a - 1 <= lo <= a + 1,
        b - 1 <= hi <= b + 1,
        range == hi - lo + 1,
        lo <= v <= hi,
    ensures
        v <= a + 1 ==> bucket_of(v, lo, range) == 0,
        v >= b - 1 ==> 8 <= bucket_of(v, lo, range) <= 9,
    {
    assert(range >= 21);
    if v <= a + 1 {
        assert((v - lo) * 10 < range) by (nonlinear_arith)
            requires
                0 <= v - lo <= 2,
                range >= 21,
        ;
        assert((v - lo) * 10 / range == 0) by (nonlinear_arith)
            requires
                0 <= (v - lo) * 10 < range,
        ;
    }
    if v >= b - 1 {
        assert(v - lo >= range - 3);
        assert((v - lo) * 10 >= 8 * range) by (nonlinear_arith)
            requires
                v - lo >= range - 3,
                range >= 15,
        ;
        assert((v - lo) * 10 / range >= 8) by (nonlinear_arith)
            requires
                (v - lo) * 10 >= 8 * range,
                range >= 1,
        ;
        assert((v - lo) * 10 < 10 * range) by (nonlinear_arith)
            requires
                v - lo < range,
                range >= 1,
        ;
        assert((v - lo) * 10 / range <= 9) by (nonlinear_arith)
            requires
                (v - lo) * 10 < 10 * range,
                range >= 1,
        ;
    }
}

/// The approximate duration of any bucket lies within the sample range.
proof fn lemma_bucket_approx_bounds(i: int, lo: int, range: int, hi: int)
    requires
        0 <= i <= 9,
        lo <= hi,
        range == hi - lo + 1,
    ensures
        lo <= bucket_approx(i, lo, range, hi) <= hi,
{
    if i < 9 {
        assert(0 <= range * i / 10 && 0 <= range * (i + 1) / 10) by (nonlinear_arith)
            requires
                range >= 1,
                0 <= i <= 8,
        ;
        assert(range * (i + 1) / 10 <= range - 1 && range * i / 10 <= range - 1)
            by (nonlinear_arith)
            requires
                range >= 1,
                0 <= i <= 8,
        ;
    }
}

/// When every pulse duration sits within one tick of either a short
/// base `a` or a long base `b`, both bases occur, and the bases lie at
/// least twenty-two ticks apart, the adaptive threshold lands strictly
/// between the two clusters: at or above every short pulse and strictly
/// below every long pulse. Every path of the estimator is covered,
/// including the midpoint fallback.
pub proof fn lemma_threshold_separates(s: Seq<u64>, a: u64, b: u64)
    requires
        s.len() >= 1,
        1 <= a,
        a + 22 <= b,
        b < u64::MAX,
        forall|i: int|
            0 <= i < s.len() ==> (a - 1 <= s[i] <= a + 1 || b - 1 <= #[trigger] s[i] <= b + 1),
        exists|i: int| 0 <= i < s.len() && s[i] <= a + 1,
        exists|i: int| 0 <= i < s.len() && s[i] >= b - 1,
    ensures
        a + 1 <= spec_threshold(s) < b - 1,
{
    let lo = min_tick(s);
    let hi = max_tick(s);
    lemma_min_le_max(s);
    lemma_min_lower_bound(s, a - 1);
    lemma_max_upper_bound(s, b + 1);
    let ws = choose|i: int| 0 <= i < s.len() && s[i] <= a + 1;
    let wl = choose|i: int| 0 <= i < s.len() && s[i] >= b - 1;
    lemma_min_max_bound(s, ws);
    lemma_min_max_bound(s, wl);
    assert(a - 1 <= lo <= a + 1);
    assert(b - 1 <= hi <= b + 1);
    let range = hi - lo + 1;
    assert(21 <= range);

    let c = histogram(s, lo, range);

    // Shorts fill bucket zero; longs fill buckets eight and nine; the
    // middle buckets are empty.
    assert forall|i: int| 0 <= i < s.len() implies {
        let bk = #[trigger] bucket_of(s[i] as int, lo, range);
        bk == 0 || bk == 8 || bk == 9
    } by {
        lemma_min_max_bound(s, i);
        lemma_bucket_class(s[i] as int, lo, range, hi, a as int, b as int);
    }
    assert forall|j: int| 1 <= j <= 7 implies c[j] == 0 by {
        lemma_bucket_count_zero(s, lo, range, j);
    }
    lemma_min_max_bound(s, ws);
    lemma_bucket_class(s[ws] as int, lo, range, hi, a as int, b as int);
    lemma_bucket_count_pos(s, lo, range, 0, ws);
    assert(c[0] >= 1);
    lemma_max_is_element(s);
    let wm = choose|i: int| 0 <= i < s.len() && s[i] == max_tick(s);
    lemma_bucket_class(hi, lo, range, hi, a as int, b as int);
    assert((hi - lo) * 10 / range >= 9) by (nonlinear_arith)
        requires
            hi - lo == range - 1,
            range >= 10,
    ;
    assert(bucket_of(hi, lo, range) == 9);
    lemma_bucket_count_pos(s, lo, range, 9, wm);
    assert(c[9] >= 1);

    // The peaks: bucket zero always, and whichever of the two long
    // buckets outweighs the other.
    assert(is_peak(c, 0));
    assert(forall|j: int| 1 <= j <= 7 ==> !is_peak(c, j));
    let ps = peaks_upto(c, 10);
    lemma_peaks_shape(c);

    if ps.len() < 2 {
        // Midpoint fallback.
        let thr = lo + range / 2;
        assert(10 <= range / 2) by (nonlinear_arith)
            requires
                range >= 21,
        ;
        assert(range / 2 * 2 <= range) by (nonlinear_arith)
            requires
                range >= 0,
        ;
        assert(thr < b - 1) by (nonlinear_arith)
            requires
                thr == lo + range / 2,
                2 * (range / 2) <= range,
                range <= b - a + 3,
                lo <= a + 1,
                a + 22 <= b,
        ;
        assert(spec_threshold(s) == thr);
    } else {
        let sel = two_highest(c, ps);
        lemma_peaks_props(c, 10);
        lemma_two_highest_props(c, ps);
        assert(ps.len() == 2 && ps[0] == 0 && (ps[1] == 8 || ps[1] == 9));
        let p = ps[1];
        lemma_two_on_pair(c, ps);
        let i0 = sel.0;
        let i1 = sel.2;
        assert((i0 == 0 && i1 == p) || (i0 == p && i1 == 0));
        lemma_bucket_approx_bounds(0, lo, range, hi);
        lemma_bucket_approx_bounds(p, lo, range, hi);
        let a0 = bucket_approx(0, lo, range, hi);
        let ap = bucket_approx(p, lo, range, hi);
        // The short peak's approximate duration stays near the bottom
        // of the range, the long peak's near the top.
        assert(a0 <= lo + range / 10) by (nonlinear_arith)
            requires
                a0 == (range * 0 / 10 + lo + (range * 1 / 10 + lo)) / 2,
                range >= 1,
        ;
        assert(ap >= lo + 16) by {
            if p == 8 {
                assert(range * 8 / 10 >= 16 && range * 9 / 10 >= range * 8 / 10)
                    by (nonlinear_arith)
                    requires
                        range >= 21,
                ;
                assert(ap >= (range * 8 / 10 + lo + (range * 8 / 10 + lo)) / 2)
                    by (nonlinear_arith)
                    requires
                        ap == (range * 8 / 10 + lo + (range * 9 / 10 + lo)) / 2,
                        range * 9 / 10 >= range * 8 / 10,
                ;
            } else {
                assert(ap == hi);
            }
        }
        let thr = (a0 + ap) / 2;
        assert(a + 1 <= thr) by (nonlinear_arith)
            requires
                thr == (a0 + ap) / 2,
                a0 >= lo,
                ap >= lo + 16,
                lo >= a - 1,
        ;
        assert(thr < b - 1) by (nonlinear_arith)
            requires
                thr == (a0 + ap) / 2,
                a0 <= lo + range / 10,
                10 * (range / 10) <= range,
                ap <= hi,
                hi == lo + range - 1,
                range <= b - a + 3,
                lo <= a + 1,
                a + 22 <= b,
        ;
        assert(spec_threshold(s) == thr);
    }
}

/// With bucket zero a peak, the middle buckets no peaks, and the rest
/// the last two buckets, the scan finds bucket zero first and then at
/// most one of the two.
proof fn lemma_peaks_shape(c: Seq<nat>)
    requires
        c.len() == 10,
        is_peak(c, 0),
        forall|j: int| 1 <= j <= 7 ==> !is_peak(c, j),
    ensures
        ({
            let ps = peaks_upto(c, 10);
            &&& ps.len() >= 1
            &&& ps[0] == 0
            &&& ps.len() <= 2
            &&& ps.len() == 2 ==> (ps[1] == 8 || ps[1] == 9)
        }),
{
    reveal_with_fuel(peaks_upto, 11);
    assert(peaks_upto(c, 1) =~= seq![0int]);
    assert(peaks_upto(c, 8) =~= seq![0int]);
    if is_peak(c, 8) {
        assert(!is_peak(c, 9));
        assert(peaks_upto(c, 10) =~= seq![0int, 8int]);
    } else if is_peak(c, 9) {
        assert(peaks_upto(c, 10) =~= seq![0int, 9int]);
    } else {
        assert(peaks_upto(c, 10) =~= seq![0int]);
    }
}

/// On a two-peak list the scan selects exactly those two peaks, in one
/// order or the other.
proof fn lemma_two_on_pair(c: Seq<nat>, ps: Seq<int>)
    requires
        c.len() == 10,
        ps.len() == 2,
        0 <= ps[0] < 10,
        0 <= ps[1] < 10,
        c[ps[0]] >= 1,
        c[ps[1]] >= 1,
    ensures
        ({
            let sel = two_highest(c, ps);
            (sel.0 == ps[0] && sel.2 == ps[1]) || (sel.0 == ps[1] && sel.2 == ps[0])
        }),
{
    let p1 = ps.drop_last();
    assert(p1.len() == 1);
    assert(p1.drop_last().len() == 0);
    assert(two_highest(c, p1.drop_last()) == (0int, 0int, 0int, 0int));
    assert(p1.last() == ps[0]);
    assert(two_highest(c, p1) == (ps[0], c[ps[0]] as int, 0int, 0int));
    assert(ps.last() == ps[1]);
}

/// The `i`-th sample lies between the minimum and the maximum.
proof fn lemma_min_max_bound(s: Seq<u64>, i: int)
    requires
        0 <= i < s.len(),
    ensures
        min_tick(s) <= s[i] <= max_tick(s),
    decreases s.len(),
{
    if s.len() > 1 {
        if i < s.len() - 1 {
            lemma_min_max_bound(s.drop_last(), i);
        }
    }
}

/// Executable mirror of [`bucket_approx`], bounded by the sample range.
fn bucket_approx_ticks(i: usize, lo: u64, hi: u64, range_w: u128) -> (r: u64)
    requires
        0 <= i <= 9,
        lo <= hi,
        range_w == hi - lo + 1,
    ensures
        r == bucket_approx(i as int, lo as int, hi - lo + 1, hi as int),
        lo <= r <= hi,
{
    if i == 9 {
        hi
    } else {
        let ghost range = hi - lo + 1int;
        assert(range_w * (i as u128) <= range_w * 9 && range_w * (i as u128 + 1) <= range_w * 9)
            by (nonlinear_arith)
            requires
                0 <= i <= 8,
                range_w >= 1,
        ;
        let base: u128 = range_w * (i as u128) / 10 + lo as u128;
        let next: u128 = range_w * (i as u128 + 1) / 10 + lo as u128;
        let r_w: u128 = (base + next) / 2;
        assert(range * i / 10 >= 0 && range * (i + 1) / 10 >= 0) by (nonlinear_arith)
            requires
                range >= 1,
                0 <= i <= 9,
        ;
        assert(range * (i + 1) / 10 <= range - 1) by (nonlinear_arith)
            requires
                range >= 1,
                0 <= i <= 8,
        ;
        assert(range * i / 10 <= range - 1) by (nonlinear_arith)
            requires
                range >= 1,
                0 <= i <= 8,
        ;
        assert(lo <= r_w <= hi);
        r_w as u64
    }
}

} // verus!
