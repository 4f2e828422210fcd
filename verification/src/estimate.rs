//! Extrapolating when a rate-limit window fills up.
//!
//! A sample is `(timestamp_unix, utilization, reset_unix)`, the utilization
//! held as the IEEE-754 bit pattern of the fraction. Only samples that share
//! the `reset_unix` of the most recent one describe the current window: a
//! different `reset_unix` means the window has reset since that sample, and
//! its trend no longer applies.
//!
//! The rate and the time to full are floating-point quantities and are
//! computed by the caller from the [`Trend`] this module selects; the module
//! decides which samples count and whether the projection is worth showing.
use vstd::prelude::*;

verus! {

broadcast use vstd::seq_lib::group_filter_ensures;

pub type Sample = (i64, u64, i64);

/// The first and the last sample of the current window. `==` compares the
/// utilizations by their bit patterns, as the samples that were selected.
#[derive(Debug, Clone, Copy, PartialEq, Eq)]
pub struct Trend {
    pub first_at: i64,
    pub first_utilization: u64,
    pub last_at: i64,
    pub last_utilization: u64,
    pub reset_unix: i64,
}

pub open spec fn in_window(reset_unix: i64) -> spec_fn(Sample) -> bool {
    |s: Sample| s.2 == reset_unix
}

/// The samples of the window that the most recent sample belongs to, in
/// their original order.
pub open spec fn current_window(samples: Seq<Sample>) -> Seq<Sample> {
    samples.filter(in_window(samples.last().2))
}

/// The trend of the current window: `None` without samples, with fewer than
/// two samples in the current window, or when the current window's last
/// sample is not later than its first.
pub open spec fn trend_of(samples: Seq<Sample>) -> Option<Trend> {
    if samples.len() == 0 {
        None
    } else {
        let w = current_window(samples);
        if w.len() < 2 || w.last().0 <= w[0].0 {
            None
        } else {
            Some(
                Trend {
                    first_at: w[0].0,
                    first_utilization: w[0].1,
                    last_at: w.last().0,
                    last_utilization: w.last().1,
                    reset_unix: w.last().2,
                },
            )
        }
    }
}

proof fn lemma_filter_none<A>(s: Seq<A>, pred: spec_fn(A) -> bool)
    requires
        forall|j: int| 0 <= j < s.len() ==> !pred(#[trigger] s[j]),
    ensures
        s.filter(pred).len() == 0,
{
    if s.filter(pred).len() > 0 {
        let x = s.filter(pred)[0];
        assert(s.filter(pred).contains(x));
        s.lemma_filter_contains_rev(pred, x);
    }
}

proof fn lemma_filter_single<A>(x: A, pred: spec_fn(A) -> bool)
    requires
        pred(x),
    ensures
        seq![x].filter(pred) == seq![x],
{
    reveal_with_fuel(Seq::filter, 2);
    assert(seq![x].drop_last() =~= Seq::<A>::empty());
}

proof fn lemma_filter_last<A>(s: Seq<A>, pred: spec_fn(A) -> bool)
    requires
        s.len() > 0,
        pred(s.last()),
    ensures
        s.filter(pred) == s.drop_last().filter(pred).push(s.last()),
{
    reveal(Seq::filter);
}

/// When the first sample of the current window stands at `i`, the window
/// starts with it, ends with the most recent sample, and has two or more
/// samples exactly when `i` is not the most recent one.
proof fn lemma_current_window(samples: Seq<Sample>, i: int)
    requires
        0 <= i < samples.len(),
        samples[i].2 == samples.last().2,
        forall|j: int| 0 <= j < i ==> (#[trigger] samples[j]).2 != samples.last().2,
    ensures
        current_window(samples).len() >= 1,
        current_window(samples)[0] == samples[i],
        current_window(samples).last() == samples.last(),
        current_window(samples).len() >= 2 <==> i < samples.len() - 1,
{
    let pred = in_window(samples.last().2);
    let head = samples.take(i);
    let tail = samples.skip(i + 1);
    assert(samples =~= head + seq![samples[i]] + tail);
    Seq::filter_distributes_over_add(head + seq![samples[i]], tail, pred);
    Seq::filter_distributes_over_add(head, seq![samples[i]], pred);
    lemma_filter_none(head, pred);
    lemma_filter_single(samples[i], pred);
    assert(head.filter(pred) =~= Seq::<Sample>::empty());
    let w = current_window(samples);
    assert(w == seq![samples[i]] + tail.filter(pred));
    lemma_filter_last(samples, pred);
    if i < samples.len() - 1 {
        assert(tail[tail.len() - 1] == samples.last());
        tail.lemma_filter_contains(pred, tail.len() - 1);
    } else {
        assert(tail.len() == 0);
        assert(tail.filter(pred).len() == 0) by {
            lemma_filter_none(tail, pred);
        }
    }
}

/// Selects the first and last sample of the current window, as
/// [`trend_of`] describes.
pub fn window_trend(samples: &[Sample]) -> (r: Option<Trend>)
    ensures
        r == trend_of(samples@),
{
    let n = samples.len();
    if n == 0 {
        return None;
    }
    let latest_reset = samples[n - 1].2;
    let mut i: usize = 0;
    while samples[i].2 != latest_reset
        invariant
            n == samples@.len(),
            0 <= i < n,
            latest_reset == samples@.last().2,
            forall|j: int| 0 <= j < i ==> (#[trigger] samples@[j]).2 != latest_reset,
        decreases n - i,
    {
        i = i + 1;
    }
    proof {
        lemma_current_window(samples@, i as int);
    }
    if i == n - 1 {
        return None;
    }
    let (t0, u0, _) = samples[i];
    let (t1, u1, reset) = samples[n - 1];
    if t1 <= t0 {
        return None;
    }
    Some(Trend { first_at: t0, first_utilization: u0, last_at: t1, last_utilization: u1, reset_unix: reset })
}

/// When the window fills, `seconds_to_full` after the trend's last sample;
/// `None` when that is not before the window resets, since a "full at"
/// time past the reset is not worth showing.
pub open spec fn full_at(trend: Trend, seconds_to_full: i64) -> Option<i64> {
    let projected = trend.last_at + seconds_to_full;
    if projected >= trend.reset_unix {
        None
    } else {
        Some(projected as i64)
    }
}

pub fn projected_full_at(trend: &Trend, seconds_to_full: i64) -> (r: Option<i64>)
    requires
        i64::MIN <= trend.last_at + seconds_to_full <= i64::MAX,
    ensures
        r == full_at(*trend, seconds_to_full),
        r matches Some(t) ==> t < trend.reset_unix,
{
    let projected = trend.last_at + seconds_to_full;
    if projected >= trend.reset_unix {
        return None;
    }
    Some(projected)
}

/// A sample from another window than the most recent sample's, wherever it
/// is inserted before the most recent sample, changes nothing.
pub proof fn lemma_other_window_samples_are_ignored(samples: Seq<Sample>, k: int, other: Sample)
    requires
        0 <= k < samples.len(),
        other.2 != samples.last().2,
    ensures
        trend_of(samples.insert(k, other)) == trend_of(samples),
{
    let pred = in_window(samples.last().2);
    let longer = samples.insert(k, other);
    assert(longer.last() == samples.last());
    assert(longer =~= samples.take(k) + seq![other] + samples.skip(k));
    assert(samples =~= samples.take(k) + samples.skip(k));
    Seq::filter_distributes_over_add(samples.take(k) + seq![other], samples.skip(k), pred);
    Seq::filter_distributes_over_add(samples.take(k), seq![other], pred);
    Seq::filter_distributes_over_add(samples.take(k), samples.skip(k), pred);
    lemma_filter_none(seq![other], pred);
    assert(seq![other].filter(pred) =~= Seq::<Sample>::empty());
    assert(current_window(longer) =~= current_window(samples));
}

/// The trend runs from the earliest sample that shares the most recent
/// sample's reset time to the most recent sample itself, however many
/// samples of that window lie between; there is a trend exactly when that
/// earliest sample is not the most recent one and lies strictly earlier in
/// time.
pub proof fn lemma_trend_spans_whole_current_window(samples: Seq<Sample>, first: int)
    requires
        0 <= first < samples.len(),
        samples[first].2 == samples.last().2,
        forall|j: int| 0 <= j < first ==> (#[trigger] samples[j]).2 != samples.last().2,
    ensures
        trend_of(samples) is Some <==> (first < samples.len() - 1 && samples[first].0 < samples.last().0),
        trend_of(samples) matches Some(t) ==> {
            &&& t.first_at == samples[first].0
            &&& t.first_utilization == samples[first].1
            &&& t.last_at == samples.last().0
            &&& t.last_utilization == samples.last().1
            &&& t.reset_unix == samples.last().2
        },
{
    lemma_current_window(samples, first);
}

/// With fewer than two samples there is never an estimate.
pub proof fn lemma_single_sample_has_no_trend(samples: Seq<Sample>)
    requires
        samples.len() < 2,
    ensures
        trend_of(samples) is None,
{
    if samples.len() == 1 {
        samples.lemma_filter_len(in_window(samples.last().2));
    }
}

} // verus!
