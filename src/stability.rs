//! Stability sampling: which samples count as successful, and the summary of
//! the round trips of the successful ones.
use vstd::prelude::*;
use crate::types::StabilityResult;

verus! {

/// The sum of the round trips.
pub open spec fn sum_of(s: Seq<u64>) -> nat
    decreases s.len(),
{
    if s.len() == 0 {
        0
    } else {
        sum_of(s.drop_last()) + s.last() as nat
    }
}

/// The shortest round trip; 0 for no sample.
pub open spec fn min_of(s: Seq<u64>) -> u64
    decreases s.len(),
{
    if s.len() == 0 {
        0
    } else if s.len() == 1 {
        s[0]
    } else if s.last() < min_of(s.drop_last()) {
        s.last()
    } else {
        min_of(s.drop_last())
    }
}

/// The longest round trip; 0 for no sample.
pub open spec fn max_of(s: Seq<u64>) -> u64
    decreases s.len(),
{
    if s.len() == 0 {
        0
    } else if s.len() == 1 {
        s[0]
    } else if s.last() > max_of(s.drop_last()) {
        s.last()
    } else {
        max_of(s.drop_last())
    }
}

/// The distance of a round trip from a centre.
pub open spec fn distance(t: u64, centre: int) -> nat {
    if t >= centre {
        (t - centre) as nat
    } else {
        (centre - t) as nat
    }
}

/// The sum of the distances of the round trips from a centre.
pub open spec fn deviation_sum(s: Seq<u64>, centre: int) -> nat
    decreases s.len(),
{
    if s.len() == 0 {
        0
    } else {
        deviation_sum(s.drop_last(), centre) + distance(s.last(), centre)
    }
}

/// The mean round trip, rounded down; 0 for no sample.
pub open spec fn mean_of(s: Seq<u64>) -> nat {
    if s.len() == 0 {
        0
    } else {
        sum_of(s) / s.len()
    }
}

/// The jitter: the mean distance of the round trips from their mean, rounded
/// down; 0 for no sample.
pub open spec fn jitter_of(s: Seq<u64>) -> nat {
    if s.len() == 0 {
        0
    } else {
        deviation_sum(s, mean_of(s) as int) / s.len()
    }
}

/// A sample succeeds when the response status it wrote begins with 2 or 3.
pub open spec fn succeeded(code: Seq<char>) -> bool {
    code.len() > 0 && (code[0] == '2' || code[0] == '3')
}

/// Whether a sample succeeded, from the response status it wrote.
pub fn sample_succeeded(code: &str) -> (r: bool)
    ensures
        r == succeeded(code@),
{
    if code.unicode_len() == 0 {
        false
    } else {
        let c = code.get_char(0);
        c == '2' || c == '3'
    }
}

proof fn lemma_bounds(s: Seq<u64>)
    requires
        s.len() > 0,
    ensures
        min_of(s) * s.len() <= sum_of(s) <= max_of(s) * s.len(),
        min_of(s) <= max_of(s),
        forall|i: int| 0 <= i < s.len() ==> min_of(s) <= #[trigger] s[i] <= max_of(s),
    decreases s.len(),
{
    let p = s.drop_last();
    assert(sum_of(s) == sum_of(p) + s.last());
    if s.len() == 1 {
        assert(p.len() == 0);
        assert(sum_of(p) == 0);
        assert(s.last() == s[0]);
    } else {
        lemma_bounds(p);
        let n = p.len();
        assert(min_of(s) <= s.last());
        assert(max_of(s) >= s.last());
        assert(min_of(s) <= min_of(p));
        assert(max_of(s) >= max_of(p));
        assert(min_of(s) * n <= min_of(p) * n) by (nonlinear_arith)
            requires
                min_of(s) <= min_of(p),
        ;
        assert(max_of(p) * n <= max_of(s) * n) by (nonlinear_arith)
            requires
                max_of(s) >= max_of(p),
        ;
        assert(min_of(s) * (n + 1) == min_of(s) * n + min_of(s)) by (nonlinear_arith);
        assert(max_of(s) * (n + 1) == max_of(s) * n + max_of(s)) by (nonlinear_arith);
        assert forall|i: int| 0 <= i < s.len() implies min_of(s) <= #[trigger] s[i] <= max_of(
            s,
        ) by {
            if i < n {
                assert(s[i] == p[i]);
            }
        }
    }
}

proof fn lemma_mean_between(s: Seq<u64>)
    requires
        s.len() > 0,
    ensures
        min_of(s) <= mean_of(s) <= max_of(s),
{
    lemma_bounds(s);
    let n = s.len() as int;
    let lo = min_of(s) as int;
    let hi = max_of(s) as int;
    let total = sum_of(s) as int;
    assert(lo <= total / n) by (nonlinear_arith)
        requires
            lo * n <= total,
            n > 0,
    {
        vstd::arithmetic::div_mod::lemma_div_is_ordered(lo * n, total, n);
        vstd::arithmetic::div_mod::lemma_div_multiples_vanish(lo, n);
    }
    assert(total / n <= hi) by (nonlinear_arith)
        requires
            total <= hi * n,
            n > 0,
    {
        vstd::arithmetic::div_mod::lemma_div_is_ordered(total, hi * n, n);
        vstd::arithmetic::div_mod::lemma_div_multiples_vanish(hi, n);
    }
}

/// Summarises a stability run of `total_tests` samples from the round trips,
/// in microseconds, of the samples that succeeded.
pub fn summarize_samples(total_tests: u32, times_us: &Vec<u64>) -> (r: StabilityResult)
    requires
        times_us@.len() <= total_tests,
    ensures
        r.total_tests == total_tests,
        r.successful_tests == times_us@.len(),
        r.min_time_us == min_of(times_us@),
        r.max_time_us == max_of(times_us@),
        r.avg_time_us == mean_of(times_us@),
        r.jitter_us == jitter_of(times_us@),
        r.successful_tests == 0 ==> r.min_time_us == 0 && r.avg_time_us == 0 && r.max_time_us
            == 0 && r.jitter_us == 0,
        r.well_formed(),
{
    let n = times_us.len();
    if n == 0 {
        return StabilityResult {
            total_tests,
            successful_tests: 0,
            min_time_us: 0,
            avg_time_us: 0,
            max_time_us: 0,
            jitter_us: 0,
        };
    }
    let mut lo: u64 = times_us[0];
    let mut hi: u64 = times_us[0];
    let mut sum: u128 = times_us[0] as u128;
    let mut i: usize = 1;
    assert(times_us@.subrange(0, 1).drop_last() =~= Seq::<u64>::empty());
    assert(sum_of(times_us@.subrange(0, 1).drop_last()) == 0);
    assert(times_us@.subrange(0, 1).last() == times_us@[0]);
    while i < n
        invariant
            n == times_us@.len(),
            1 <= i <= n,
            n <= u32::MAX,
            lo == min_of(times_us@.subrange(0, i as int)),
            hi == max_of(times_us@.subrange(0, i as int)),
            sum == sum_of(times_us@.subrange(0, i as int)),
            sum <= i * 0xffff_ffff_ffff_ffffu128,
        decreases n - i,
    {
        let t = times_us[i];
        assert(times_us@.subrange(0, i + 1).drop_last() =~= times_us@.subrange(0, i as int));
        if t < lo {
            lo = t;
        }
        if t > hi {
            hi = t;
        }
        sum = sum + t as u128;
        i = i + 1;
    }
    assert(times_us@.subrange(0, n as int) =~= times_us@);
    proof {
        lemma_mean_between(times_us@);
    }
    let avg: u64 = (sum / n as u128) as u64;
    let mut dev: u128 = 0;
    let mut j: usize = 0;
    while j < n
        invariant
            n == times_us@.len(),
            0 <= j <= n,
            n <= u32::MAX,
            avg == mean_of(times_us@),
            dev == deviation_sum(times_us@.subrange(0, j as int), avg as int),
            dev <= j * 0xffff_ffff_ffff_ffffu128,
        decreases n - j,
    {
        let t = times_us[j];
        assert(times_us@.subrange(0, j + 1).drop_last() =~= times_us@.subrange(0, j as int));
        let d: u64 = if t >= avg {
            t - avg
        } else {
            avg - t
        };
        dev = dev + d as u128;
        j = j + 1;
    }
    assert(times_us@.subrange(0, n as int) =~= times_us@);
    assert(dev / (n as u128) <= 0xffff_ffff_ffff_ffffu128) by (nonlinear_arith)
        requires
            dev <= n * 0xffff_ffff_ffff_ffffu128,
            n > 0,
    {
        vstd::arithmetic::div_mod::lemma_div_is_ordered(
            dev as int,
            n * 0xffff_ffff_ffff_ffffu128,
            n as int,
        );
        vstd::arithmetic::div_mod::lemma_div_multiples_vanish(0xffff_ffff_ffff_ffff, n as int);
    }
    let jitter: u64 = (dev / n as u128) as u64;
    StabilityResult {
        total_tests,
        successful_tests: n as u32,
        min_time_us: lo,
        avg_time_us: avg,
        max_time_us: hi,
        jitter_us: jitter,
    }
}

} // verus!
