//! Box-plot statistics: quartiles, median and interquartile range of a
//! non-empty batch of samples.
//!
//! Quantiles use linear interpolation over the sorted sample copy (the
//! standard box-plot convention): the `k`-th quartile sits at position
//! `k * (n - 1) / 4`. Because that position's fractional part is always a
//! multiple of one quarter, every quantile is exact in units of one quarter
//! of a sample unit, and this module reports each statistic as an integer
//! scaled by four (`median_x4 == 12` means a median of `3`). Statistics are
//! recomputed from scratch on every call; session sample counts are small.
use vstd::prelude::*;
use vstd::relations::{sorted_by, total_ordering};
use vstd::seq_lib::group_to_multiset_ensures;
use vstd::seq_lib::lemma_sorted_unique;

verus! {

/// Largest magnitude a sample may have, so that the quartile arithmetic
/// stays well inside `i64`.
pub const SAMPLE_LIMIT: i64 = 0x1000_0000_0000;

/// Largest number of samples one batch may hold, so that the quartile
/// position arithmetic stays inside `usize` on every platform.
pub const MAX_SAMPLES: usize = 0x1000_0000;

pub open spec fn sample_ok(v: i64) -> bool {
    -SAMPLE_LIMIT <= v <= SAMPLE_LIMIT
}

pub open spec fn samples_ok(s: Seq<i64>) -> bool {
    forall|i: int| 0 <= i < s.len() ==> sample_ok(#[trigger] s[i])
}

/// The ordering the samples are sorted by.
pub open spec fn sample_leq() -> spec_fn(i64, i64) -> bool {
    |x: i64, y: i64| x <= y
}

/// The sorted copy of a sample batch that the quantile positions refer to.
pub open spec fn sorted_samples(s: Seq<i64>) -> Seq<i64> {
    s.sort_by(sample_leq())
}

/// The `k`-th quartile (k in 1..=3) of a sorted non-empty sequence, scaled
/// by four: linear interpolation between the two neighbouring order
/// statistics of position `k * (len - 1) / 4`.
pub open spec fn quartile_x4(sorted: Seq<i64>, k: int) -> int
    recommends
        1 <= k <= 3,
        sorted.len() >= 1,
{
    let pos4 = k * (sorted.len() - 1);
    let lo = pos4 / 4;
    let f = pos4 % 4;
    if f == 0 {
        4 * sorted[lo]
    } else {
        4 * sorted[lo] + f * (sorted[lo + 1] - sorted[lo])
    }
}

/// Quartiles, median and interquartile range of one sample batch, each
/// scaled by four. Immutable once constructed; a growing sample set gets a
/// fresh value instead.
#[derive(Clone, Copy, Debug, PartialEq, Eq)]
pub struct BoxPlot {
    pub q1_x4: i64,
    pub median_x4: i64,
    pub q3_x4: i64,
    pub iqr_x4: i64,
}

/// What `BoxPlot::new` owes for a batch: the three quartiles of the sorted
/// copy, and their spread.
pub open spec fn spec_box_plot(samples: Seq<i64>) -> BoxPlot
    recommends
        samples.len() >= 1,
        samples_ok(samples),
{
    let sorted = sorted_samples(samples);
    BoxPlot {
        q1_x4: quartile_x4(sorted, 1) as i64,
        median_x4: quartile_x4(sorted, 2) as i64,
        q3_x4: quartile_x4(sorted, 3) as i64,
        iqr_x4: (quartile_x4(sorted, 3) - quartile_x4(sorted, 1)) as i64,
    }
}

impl BoxPlot {
    /// Compute the statistics of a non-empty batch.
    pub fn new(samples: &Vec<i64>) -> (r: BoxPlot)
        requires
            1 <= samples@.len() <= MAX_SAMPLES,
            samples_ok(samples@),
        ensures
            r == spec_box_plot(samples@),
    {
        let sorted = sorted_copy(samples);
        proof {
            lemma_sorted_copy_is_sorted_samples(samples@, sorted@);
            lemma_quartile_x4_bounds(sorted@, 1);
            lemma_quartile_x4_bounds(sorted@, 2);
            lemma_quartile_x4_bounds(sorted@, 3);
        }
        let q1_x4 = quartile_x4_exec(&sorted, 1);
        let median_x4 = quartile_x4_exec(&sorted, 2);
        let q3_x4 = quartile_x4_exec(&sorted, 3);
        BoxPlot { q1_x4, median_x4, q3_x4, iqr_x4: q3_x4 - q1_x4 }
    }

    pub fn median_x4(&self) -> (r: i64)
        ensures
            r == self.median_x4,
    {
        self.median_x4
    }

    pub fn iqr_x4(&self) -> (r: i64)
        ensures
            r == self.iqr_x4,
    {
        self.iqr_x4
    }
}

/// A sorted sequence with the same elements as the input is the input's
/// canonical sort.
proof fn lemma_sorted_copy_is_sorted_samples(s: Seq<i64>, sorted: Seq<i64>)
    requires
        sorted.to_multiset() == s.to_multiset(),
        sorted_by(sorted, sample_leq()),
    ensures
        sorted == sorted_samples(s),
        samples_ok(s) ==> samples_ok(sorted),
{
    assert(total_ordering(sample_leq()));
    s.lemma_sort_by_ensures(sample_leq());
    lemma_sorted_unique(sorted, s.sort_by(sample_leq()), sample_leq());
    if samples_ok(s) {
        lemma_same_multiset_samples_ok(s, sorted);
    }
}

/// Well-bounded samples stay well bounded under reordering.
proof fn lemma_same_multiset_samples_ok(s: Seq<i64>, t: Seq<i64>)
    requires
        s.to_multiset() == t.to_multiset(),
        samples_ok(s),
    ensures
        samples_ok(t),
{
    broadcast use group_to_multiset_ensures;

    assert forall|i: int| 0 <= i < t.len() implies sample_ok(#[trigger] t[i]) by {
        assert(t.contains(t[i]));
        assert(t.to_multiset().count(t[i]) > 0);
        assert(s.contains(t[i]));
    }
}

/// Each quartile lies between four times the least and four times the
/// greatest sample, so it fits comfortably in `i64`.
proof fn lemma_quartile_x4_bounds(sorted: Seq<i64>, k: int)
    requires
        1 <= k <= 3,
        sorted.len() >= 1,
        samples_ok(sorted),
    ensures
        -4 * SAMPLE_LIMIT <= quartile_x4(sorted, k) <= 4 * SAMPLE_LIMIT,
{
    let n = sorted.len() as int;
    let pos4 = k * (n - 1);
    let lo = pos4 / 4;
    let f = pos4 % 4;
    assert(0 <= pos4 <= 3 * (n - 1)) by (nonlinear_arith)
        requires
            1 <= k <= 3,
            n >= 1,
            pos4 == k * (n - 1),
    ;
    vstd::arithmetic::div_mod::lemma_fundamental_div_mod(pos4, 4);
    assert(0 <= lo < n);
    assert(sample_ok(sorted[lo]));
    if f != 0 {
        assert(lo + 1 < n) by {
            assert(pos4 == 4 * lo + f);
        }
        assert(sample_ok(sorted[lo + 1]));
        assert(quartile_x4(sorted, k) == (4 - f) * sorted[lo] + f * sorted[lo + 1])
            by (nonlinear_arith)
            requires
                quartile_x4(sorted, k) == 4 * sorted[lo] + f * (sorted[lo + 1] - sorted[lo]),
        ;
        assert((4 - f) * sorted[lo] + f * sorted[lo + 1] <= 4 * SAMPLE_LIMIT) by (nonlinear_arith)
            requires
                0 < f < 4,
                sorted[lo] <= SAMPLE_LIMIT,
                sorted[lo + 1] <= SAMPLE_LIMIT,
        ;
        assert(-4 * SAMPLE_LIMIT <= (4 - f) * sorted[lo] + f * sorted[lo + 1])
            by (nonlinear_arith)
            requires
                0 < f < 4,
                -SAMPLE_LIMIT <= sorted[lo],
                -SAMPLE_LIMIT <= sorted[lo + 1],
        ;
    }
}

/// Compute one quartile of an already sorted batch.
fn quartile_x4_exec(sorted: &Vec<i64>, k: usize) -> (r: i64)
    requires
        1 <= k <= 3,
        1 <= sorted@.len() <= MAX_SAMPLES,
        samples_ok(sorted@),
    ensures
        r == quartile_x4(sorted@, k as int),
{
    let n = sorted.len();
    proof {
        lemma_quartile_x4_bounds(sorted@, k as int);
        assert(k * (n - 1) <= 3 * (n - 1) <= 3 * (MAX_SAMPLES - 1)) by (nonlinear_arith)
            requires
                1 <= k <= 3,
                1 <= n <= MAX_SAMPLES,
        ;
    }
    let pos4 = k * (n - 1);
    let lo = pos4 / 4;
    let f = pos4 % 4;
    proof {
        vstd::arithmetic::div_mod::lemma_fundamental_div_mod(pos4 as int, 4);
        assert(lo < n);
        assert(sample_ok(sorted@[lo as int]));
    }
    let base = sorted[lo];
    if f == 0 {
        4 * base
    } else {
        proof {
            assert(lo + 1 < n) by {
                assert(pos4 == 4 * lo + f);
                assert(pos4 <= 3 * (n - 1));
            }
            assert(sample_ok(sorted@[lo as int + 1]));
        }
        let next = sorted[lo + 1];
        4 * base + (f as i64) * (next - base)
    }
}

/// A sorted copy of the input, built by insertion into a growing result.
fn sorted_copy(v: &Vec<i64>) -> (r: Vec<i64>)
    ensures
        r@.to_multiset() == v@.to_multiset(),
        sorted_by(r@, sample_leq()),
        r@.len() == v@.len(),
{
    broadcast use group_to_multiset_ensures;
    broadcast use vstd::seq_lib::to_multiset_insert;

    let mut out: Vec<i64> = Vec::new();
    assert(out@.to_multiset() =~= v@.subrange(0, 0).to_multiset()) by {
        assert(out@ =~= v@.subrange(0, 0));
    }
    let n = v.len();
    for i in 0..n
        invariant
            out@.len() == i,
            out@.to_multiset() == v@.subrange(0, i as int).to_multiset(),
            sorted_by(out@, sample_leq()),
    {
        let x = v[i];
        let ghost pre = out@;
        let mut j: usize = 0;
        while j < out.len() && out[j] <= x
            invariant
                j <= out@.len(),
                out@ == pre,
                forall|m: int| 0 <= m < j ==> #[trigger] out@[m] <= x,
            decreases out@.len() - j,
        {
            j += 1;
        }
        proof {
            pre.insert_ensures(j as int, x);
        }
        out.insert(j, x);
        proof {
            assert(out@.to_multiset() =~= v@.subrange(0, i + 1 as int).to_multiset()) by {
                assert(v@.subrange(0, i + 1 as int) =~= v@.subrange(0, i as int).push(x));
                assert(v@.subrange(0, i as int).push(x).to_multiset() =~= v@.subrange(
                    0,
                    i as int,
                ).to_multiset().insert(x));
            }
            let leq = sample_leq();
            assert forall|a: int, b: int| 0 <= a < b < out@.len() implies #[trigger] leq(
                out@[a],
                out@[b],
            ) by {
                let ji = j as int;
                if b < ji {
                    assert(out@[a] == pre[a] && out@[b] == pre[b]);
                    assert(leq(pre[a], pre[b]));
                } else if b == ji {
                    assert(out@[a] == pre[a] && out@[b] == x);
                    assert(pre[a] <= x);
                } else if a < ji {
                    assert(out@[a] == pre[a] && out@[b] == pre[b - 1]);
                    if a < b - 1 {
                        assert(leq(pre[a], pre[b - 1]));
                    }
                } else if a == ji {
                    assert(out@[a] == x && out@[b] == pre[b - 1]);
                    assert(x < pre[ji]);
                    if ji < b - 1 {
                        assert(leq(pre[ji], pre[b - 1]));
                    }
                } else {
                    assert(out@[a] == pre[a - 1] && out@[b] == pre[b - 1]);
                    assert(leq(pre[a - 1], pre[b - 1]));
                }
            }
            assert(sorted_by(out@, sample_leq()));
        }
    }
    proof {
        assert(v@.subrange(0, n as int) =~= v@);
    }
    out
}

} // verus!
