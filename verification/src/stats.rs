//! Benchmark statistics: request outcomes are summarised into counts and a
//! latency distribution (minimum, maximum, sum and percentiles of the
//! successful requests). Durations are whole nanoseconds.
use vstd::prelude::*;
use vstd::relations::{sorted_by, total_ordering};
use vstd::seq_lib::{group_to_multiset_ensures, lemma_sorted_unique, to_multiset_build, to_multiset_insert};

verus! {

/// The outcome of one benchmark request.
#[derive(Clone, Copy, Debug)]
pub struct RequestResult {
    pub duration_nanos: u64,
    pub success: bool,
}

/// The latency distribution of the successful requests, in nanoseconds.
/// All fields are zero when no request succeeded.
#[derive(Clone, Copy, Debug, PartialEq, Eq)]
pub struct LatencyStats {
    pub samples: usize,
    pub min_nanos: u64,
    pub max_nanos: u64,
    pub sum_nanos: u128,
    pub p50_nanos: u64,
    pub p90_nanos: u64,
    pub p95_nanos: u64,
    pub p99_nanos: u64,
}

/// The summary of one benchmark scenario.
pub struct BenchmarkReport {
    pub scenario: String,
    pub total_requests: usize,
    pub concurrency: usize,
    pub successful: usize,
    pub failed: usize,
    pub total_elapsed_nanos: u64,
    pub latency: LatencyStats,
}

/// The durations of the successful requests, in request order.
pub open spec fn success_durations(rs: Seq<RequestResult>) -> Seq<u64>
    decreases rs.len(),
{
    if rs.len() == 0 {
        Seq::<u64>::empty()
    } else {
        let prev = success_durations(rs.drop_last());
        if rs.last().success {
            prev.push(rs.last().duration_nanos)
        } else {
            prev
        }
    }
}

/// The order durations are sorted by.
pub open spec fn ascending() -> spec_fn(u64, u64) -> bool {
    |a: u64, b: u64| a <= b
}

/// The successful durations in ascending order.
pub open spec fn sorted_durations(rs: Seq<RequestResult>) -> Seq<u64> {
    success_durations(rs).sort_by(ascending())
}

/// The sum of a sequence of durations.
pub open spec fn seq_sum(s: Seq<u64>) -> int
    decreases s.len(),
{
    if s.len() == 0 {
        0
    } else {
        seq_sum(s.drop_last()) + s.last()
    }
}

/// The index of the `p`-th percentile in `n` sorted samples: `p/100` of
/// the way from the first to the last sample, rounded to the nearest index
/// (halves round up), and never past the last sample.
pub open spec fn percentile_index(n: int, p: int) -> int {
    let i = (2 * p * (n - 1) + 100) / 200;
    if i < n - 1 {
        i
    } else {
        n - 1
    }
}

/// The `p`-th percentile of sorted samples; zero when there are none.
pub open spec fn percentile_of(s: Seq<u64>, p: int) -> u64 {
    if s.len() == 0 {
        0
    } else {
        s[percentile_index(s.len() as int, p)]
    }
}

/// The latency distribution of sorted samples.
pub open spec fn latency_of(s: Seq<u64>) -> LatencyStats {
    if s.len() == 0 {
        LatencyStats {
            samples: 0,
            min_nanos: 0,
            max_nanos: 0,
            sum_nanos: 0,
            p50_nanos: 0,
            p90_nanos: 0,
            p95_nanos: 0,
            p99_nanos: 0,
        }
    } else {
        LatencyStats {
            samples: s.len() as usize,
            min_nanos: s[0],
            max_nanos: s.last(),
            sum_nanos: seq_sum(s) as u128,
            p50_nanos: percentile_of(s, 50),
            p90_nanos: percentile_of(s, 90),
            p95_nanos: percentile_of(s, 95),
            p99_nanos: percentile_of(s, 99),
        }
    }
}

proof fn lemma_ascending_total()
    ensures
        total_ordering(ascending()),
{
}

proof fn lemma_success_len(rs: Seq<RequestResult>)
    ensures
        success_durations(rs).len() <= rs.len(),
    decreases rs.len(),
{
    if rs.len() > 0 {
        lemma_success_len(rs.drop_last());
    }
}

proof fn lemma_sum_bound(s: Seq<u64>)
    ensures
        0 <= seq_sum(s) <= s.len() * (u64::MAX as int),
    decreases s.len(),
{
    if s.len() > 0 {
        lemma_sum_bound(s.drop_last());
    }
}

/// The `p`-th percentile (in nanoseconds) of ascending samples; zero when
/// there are none.
pub fn percentile(sorted: &[u64], p: u32) -> (r: u64)
    ensures
        r == percentile_of(sorted@, p as int),
{
    let n = sorted.len();
    if n == 0 {
        return 0;
    }
    let last: u128 = (n - 1) as u128;
    let two_p: u128 = 2 * (p as u128);
    assert(two_p * last <= 0x2_0000_0000 * 0x1_0000_0000_0000_0000) by (nonlinear_arith)
        requires
            two_p <= 0x2_0000_0000,
            last <= 0x1_0000_0000_0000_0000,
    ;
    let scaled: u128 = two_p * last + 100;
    let idx: u128 = scaled / 200;
    let i: usize = if idx < last {
        idx as usize
    } else {
        n - 1
    };
    sorted[i]
}

/// Sorts durations in ascending order (insertion sort).
pub fn sort_ascending(v: &Vec<u64>) -> (r: Vec<u64>)
    ensures
        sorted_by(r@, ascending()),
        r@.to_multiset() == v@.to_multiset(),
{
    broadcast use group_to_multiset_ensures;

    let mut r: Vec<u64> = Vec::new();
    let mut i: usize = 0;
    while i < v.len()
        invariant
            i <= v.len(),
            sorted_by(r@, ascending()),
            r@.to_multiset() == v@.take(i as int).to_multiset(),
            r.len() == i,
        decreases v.len() - i,
    {
        let x = v[i];
        let mut pos: usize = 0;
        while pos < r.len() && r[pos] <= x
            invariant
                pos <= r.len(),
                forall|k: int| 0 <= k < pos ==> r@[k] <= x,
            decreases r.len() - pos,
        {
            pos = pos + 1;
        }
        let ghost before = r@;
        r.insert(pos, x);
        proof {
            assert(r@ == before.insert(pos as int, x));
            assert forall|a: int, b: int| 0 <= a < b < r@.len() implies (ascending())(
                r@[a],
                r@[b],
            ) by {
                if b < pos {
                    assert((ascending())(before[a], before[b]));
                } else if b == pos {
                    assert(before[a] <= x);
                } else if a < pos {
                    assert(before[a] <= x);
                    if pos < before.len() {
                        assert(x < before[pos as int]);
                        assert((ascending())(before[pos as int], before[b - 1]));
                    }
                } else if a == pos {
                    assert(x < before[pos as int]);
                    if b - 1 > pos {
                        assert((ascending())(before[pos as int], before[b - 1]));
                    }
                } else {
                    assert((ascending())(before[a - 1], before[b - 1]));
                }
            }
            assert(v@.take(i + 1) =~= v@.take(i as int).push(x));
            to_multiset_insert(before, pos as int, x);
            to_multiset_build(v@.take(i as int), x);
            assert(r@.to_multiset() == before.to_multiset().insert(x));
            assert(v@.take(i + 1).to_multiset() == v@.take(i as int).to_multiset().insert(x));
        }
        i = i + 1;
    }
    assert(v@.take(v.len() as int) =~= v@);
    r
}

/// The durations of the successful requests, in request order.
pub fn successful_durations(results: &[RequestResult]) -> (d: Vec<u64>)
    ensures
        d@ == success_durations(results@),
{
    let mut d: Vec<u64> = Vec::new();
    let mut i: usize = 0;
    while i < results.len()
        invariant
            i <= results.len(),
            d@ == success_durations(results@.take(i as int)),
        decreases results.len() - i,
    {
        assert(results@.take(i + 1).drop_last() =~= results@.take(i as int));
        if results[i].success {
            d.push(results[i].duration_nanos);
        }
        i = i + 1;
    }
    assert(results@.take(results.len() as int) =~= results@);
    d
}

/// The latency distribution of ascending samples.
pub fn latency_stats(sorted: &Vec<u64>) -> (l: LatencyStats)
    ensures
        l == latency_of(sorted@),
{
    let n = sorted.len();
    if n == 0 {
        return LatencyStats {
            samples: 0,
            min_nanos: 0,
            max_nanos: 0,
            sum_nanos: 0,
            p50_nanos: 0,
            p90_nanos: 0,
            p95_nanos: 0,
            p99_nanos: 0,
        };
    }
    let mut sum: u128 = 0;
    let mut i: usize = 0;
    while i < n
        invariant
            n == sorted@.len(),
            i <= n,
            sum == seq_sum(sorted@.take(i as int)),
        decreases n - i,
    {
        proof {
            assert(sorted@.take(i + 1).drop_last() =~= sorted@.take(i as int));
            lemma_sum_bound(sorted@.take(i as int));
            assert(i * (u64::MAX as int) <= 0x1_0000_0000_0000_0000 * 0x1_0000_0000_0000_0000) by (nonlinear_arith)
                requires
                    i <= usize::MAX,
                    usize::MAX <= u64::MAX,
            ;
        }
        sum = sum + sorted[i] as u128;
        i = i + 1;
    }
    assert(sorted@.take(n as int) =~= sorted@);
    LatencyStats {
        samples: n,
        min_nanos: sorted[0],
        max_nanos: sorted[n - 1],
        sum_nanos: sum,
        p50_nanos: percentile(sorted.as_slice(), 50),
        p90_nanos: percentile(sorted.as_slice(), 90),
        p95_nanos: percentile(sorted.as_slice(), 95),
        p99_nanos: percentile(sorted.as_slice(), 99),
    }
}

impl BenchmarkReport {
    /// Summarises the outcomes of a scenario's requests: counts of
    /// successful and failed requests and the latency distribution of the
    /// successful ones.
    pub fn from_results(
        results: &[RequestResult],
        total_elapsed_nanos: u64,
        scenario: &str,
        concurrency: usize,
    ) -> (r: BenchmarkReport)
        ensures
            r.scenario@ == scenario@,
            r.total_requests == results@.len(),
            r.concurrency == concurrency,
            r.successful == success_durations(results@).len(),
            r.failed == results@.len() - success_durations(results@).len(),
            r.total_elapsed_nanos == total_elapsed_nanos,
            r.latency == latency_of(sorted_durations(results@)),
    {
        let durations = successful_durations(results);
        let sorted = sort_ascending(&durations);
        proof {
            lemma_success_len(results@);
            lemma_ascending_total();
            success_durations(results@).lemma_sort_by_ensures(ascending());
            lemma_sorted_unique(sorted@, sorted_durations(results@), ascending());
        }
        let successful = durations.len();
        BenchmarkReport {
            scenario: scenario.to_owned(),
            total_requests: results.len(),
            concurrency,
            successful,
            failed: results.len() - successful,
            total_elapsed_nanos,
            latency: latency_stats(&sorted),
        }
    }
}

proof fn lemma_percentile_index_monotone(n: int, p: int, q: int)
    requires
        n >= 1,
        0 <= p <= q,
    ensures
        0 <= percentile_index(n, p) <= percentile_index(n, q) <= n - 1,
{
    assert(2 * p * (n - 1) <= 2 * q * (n - 1)) by (nonlinear_arith)
        requires
            n >= 1,
            0 <= p <= q,
    ;
    assert(0 <= 2 * p * (n - 1)) by (nonlinear_arith)
        requires
            n >= 1,
            0 <= p,
    ;
    assert((2 * p * (n - 1) + 100) / 200 <= (2 * q * (n - 1) + 100) / 200) by (nonlinear_arith)
        requires
            2 * p * (n - 1) <= 2 * q * (n - 1),
    ;
}

/// The latency figures of a report are ordered: minimum, p50, p90, p95,
/// p99 and maximum never decrease in that order.
pub proof fn law_latency_ordered(rs: Seq<RequestResult>)
    ensures
        ({
            let l = latency_of(sorted_durations(rs));
            l.min_nanos <= l.p50_nanos <= l.p90_nanos <= l.p95_nanos <= l.p99_nanos
                <= l.max_nanos
        }),
{
    let s = sorted_durations(rs);
    lemma_ascending_total();
    success_durations(rs).lemma_sort_by_ensures(ascending());
    if s.len() > 0 {
        let n = s.len() as int;
        lemma_percentile_index_monotone(n, 0, 50);
        lemma_percentile_index_monotone(n, 50, 90);
        lemma_percentile_index_monotone(n, 90, 95);
        lemma_percentile_index_monotone(n, 95, 99);
        let i50 = percentile_index(n, 50);
        let i90 = percentile_index(n, 90);
        let i95 = percentile_index(n, 95);
        let i99 = percentile_index(n, 99);
        assert(i50 == 0 || (ascending())(s[0], s[i50]));
        assert(i90 == i50 || (ascending())(s[i50], s[i90]));
        assert(i95 == i90 || (ascending())(s[i90], s[i95]));
        assert(i99 == i95 || (ascending())(s[i95], s[i99]));
        assert(i99 == n - 1 || (ascending())(s[i99], s[n - 1]));
    }
}

/// Every successful request's duration lies between the reported minimum
/// and maximum, and the number of latency samples is the number of
/// successful requests.
pub proof fn law_latency_bounds(rs: Seq<RequestResult>, i: int)
    requires
        0 <= i < rs.len(),
        rs[i].success,
        rs.len() <= usize::MAX,
    ensures
        latency_of(sorted_durations(rs)).samples == success_durations(rs).len(),
        latency_of(sorted_durations(rs)).min_nanos <= rs[i].duration_nanos
            <= latency_of(sorted_durations(rs)).max_nanos,
{
    broadcast use group_to_multiset_ensures;

    let d = success_durations(rs);
    let s = sorted_durations(rs);
    lemma_ascending_total();
    d.lemma_sort_by_ensures(ascending());
    lemma_success_contains(rs, i);
    let x = rs[i].duration_nanos;
    assert(d.to_multiset().count(x) > 0);
    assert(s.to_multiset().count(x) > 0);
    assert(s.contains(x));
    let k = choose|k: int| 0 <= k < s.len() && s[k] == x;
    assert(k == 0 || (ascending())(s[0], s[k]));
    assert(k == s.len() - 1 || (ascending())(s[k], s[s.len() - 1]));
    assert(d.to_multiset().len() == d.len());
    assert(s.to_multiset().len() == s.len());
    lemma_success_len(rs);
}

proof fn lemma_success_contains(rs: Seq<RequestResult>, i: int)
    requires
        0 <= i < rs.len(),
        rs[i].success,
    ensures
        success_durations(rs).contains(rs[i].duration_nanos),
    decreases rs.len(),
{
    let d = success_durations(rs);
    if i == rs.len() - 1 {
        assert(d.last() == rs[i].duration_nanos);
        assert(d[d.len() - 1] == rs[i].duration_nanos);
    } else {
        lemma_success_contains(rs.drop_last(), i);
        let prev = success_durations(rs.drop_last());
        let k = choose|k: int| 0 <= k < prev.len() && prev[k] == rs[i].duration_nanos;
        if rs.last().success {
            assert(d[k] == prev[k]);
        }
    }
}

/// Every request is counted once: the successful count is the number of
/// successful requests, the failed count the number of the others, and
/// together they are all the requests.
pub proof fn law_requests_partition(rs: Seq<RequestResult>)
    ensures
        success_durations(rs).len() == rs.filter(|r: RequestResult| r.success).len(),
        rs.len() - success_durations(rs).len() == rs.filter(|r: RequestResult| !r.success).len(),
        rs.filter(|r: RequestResult| r.success).len() + rs.filter(|r: RequestResult| !r.success).len()
            == rs.len(),
    decreases rs.len(),
{
    reveal_with_fuel(Seq::filter, 1);
    lemma_success_len(rs);
    if rs.len() > 0 {
        law_requests_partition(rs.drop_last());
    }
}

/// Removing request `k` removes its duration from the successful
/// durations, when it succeeded, and changes nothing else of them.
proof fn lemma_success_remove(rs: Seq<RequestResult>, k: int)
    requires
        0 <= k < rs.len(),
    ensures
        success_durations(rs).to_multiset() == if rs[k].success {
            success_durations(rs.remove(k)).to_multiset().insert(rs[k].duration_nanos)
        } else {
            success_durations(rs.remove(k)).to_multiset()
        },
    decreases rs.len(),
{
    broadcast use group_to_multiset_ensures;

    if k == rs.len() - 1 {
        assert(rs.remove(k) =~= rs.drop_last());
    } else {
        lemma_success_remove(rs.drop_last(), k);
        assert(rs.remove(k).drop_last() =~= rs.drop_last().remove(k));
        assert(rs.remove(k).last() == rs.last());
        assert(rs.drop_last()[k] == rs[k]);
        let a = success_durations(rs.drop_last().remove(k)).to_multiset();
        if rs.last().success {
            if rs[k].success {
                assert(a.insert(rs[k].duration_nanos).insert(rs.last().duration_nanos) =~= a.insert(
                    rs.last().duration_nanos,
                ).insert(rs[k].duration_nanos));
            }
        }
    }
}

/// A benchmark report does not depend on the order of the results: two
/// lists of the same results, in any order, give the same counts and the
/// same latency distribution.
pub proof fn law_report_ignores_order(rs1: Seq<RequestResult>, rs2: Seq<RequestResult>)
    requires
        rs1.to_multiset() == rs2.to_multiset(),
    ensures
        rs1.len() == rs2.len(),
        success_durations(rs1).len() == success_durations(rs2).len(),
        sorted_durations(rs1) == sorted_durations(rs2),
        latency_of(sorted_durations(rs1)) == latency_of(sorted_durations(rs2)),
    decreases rs1.len(),
{
    broadcast use group_to_multiset_ensures;

    lemma_success_multiset(rs1, rs2);
    let d1 = success_durations(rs1);
    let d2 = success_durations(rs2);
    lemma_ascending_total();
    d1.lemma_sort_by_ensures(ascending());
    d2.lemma_sort_by_ensures(ascending());
    lemma_sorted_unique(sorted_durations(rs1), sorted_durations(rs2), ascending());
    assert(d1.len() == d1.to_multiset().len());
    assert(d2.len() == d2.to_multiset().len());
    assert(rs1.len() == rs1.to_multiset().len());
    assert(rs2.len() == rs2.to_multiset().len());
}

/// Two lists of the same results have the same successful durations, as a
/// multiset.
proof fn lemma_success_multiset(rs1: Seq<RequestResult>, rs2: Seq<RequestResult>)
    requires
        rs1.to_multiset() == rs2.to_multiset(),
    ensures
        success_durations(rs1).to_multiset() == success_durations(rs2).to_multiset(),
    decreases rs1.len(),
{
    broadcast use group_to_multiset_ensures;

    if rs1.len() == 0 {
        assert(rs2.to_multiset().len() == 0);
        assert(rs2.len() == 0);
    } else {
        let a = rs1.last();
        assert(rs1 =~= rs1.drop_last().push(a));
        assert(rs1.to_multiset().count(a) > 0);
        assert(rs2.contains(a));
        let k = choose|k: int| 0 <= k < rs2.len() && rs2[k] == a;
        let rest = rs2.remove(k);
        assert(rs1.drop_last().to_multiset() =~= rest.to_multiset());
        lemma_success_multiset(rs1.drop_last(), rest);
        lemma_success_remove(rs2, k);
    }
}

/// The `p`-th percentile (for `p` from 0 to 100) of `n` sorted samples is the
/// sample whose index is nearest to `p/100` of the way from the first to the
/// last, halves rounding up: the index `i` is a valid one and
/// `p * (n - 1) / 100 - 1/2 < i <= p * (n - 1) / 100 + 1/2`. The 0th is the
/// first sample and the 100th the last.
pub proof fn law_percentile_nearest_rank(n: int, p: int)
    requires
        n > 0,
        0 <= p <= 100,
    ensures
        0 <= percentile_index(n, p) < n,
        2 * p * (n - 1) - 100 < 200 * percentile_index(n, p) <= 2 * p * (n - 1) + 100,
        percentile_index(n, 0) == 0,
        percentile_index(n, 100) == n - 1,
{
    let x = 2 * p * (n - 1) + 100;
    let q = x / 200;
    vstd::arithmetic::div_mod::lemma_fundamental_div_mod(x, 200);
    assert(0 <= x % 200 < 200) by {
        vstd::arithmetic::div_mod::lemma_mod_bound(x, 200);
    }
    assert(0 <= 2 * p * (n - 1) <= 200 * (n - 1)) by (nonlinear_arith)
        requires
            n > 0,
            0 <= p <= 100,
    ;
    assert(x == 200 * q + x % 200);
    assert(q <= n - 1);
    assert(q >= 0);
    let y = 200 * (n - 1) + 100;
    assert(2 * 100 * (n - 1) + 100 == y);
    vstd::arithmetic::div_mod::lemma_fundamental_div_mod_converse(y, 200, n - 1, 100);
    assert(2 * 0 * (n - 1) + 100 == 100) by (nonlinear_arith);
    vstd::arithmetic::div_mod::lemma_fundamental_div_mod_converse(100, 200, 0, 100);
}

} // verus!
