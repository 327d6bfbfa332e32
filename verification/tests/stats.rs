use orion_cli::stats::{percentile, sort_ascending, BenchmarkReport, RequestResult};

fn millis(n: u64) -> u64 {
    n * 1_000_000
}

fn as_ms(nanos: u64) -> f64 {
    nanos as f64 / 1_000_000.0
}

#[test]
fn test_percentile_single_element() {
    let durations = vec![millis(10)];
    assert!((as_ms(percentile(&durations, 50)) - 10.0).abs() < 0.1);
    assert!((as_ms(percentile(&durations, 99)) - 10.0).abs() < 0.1);
}

#[test]
fn test_percentile_multiple_elements() {
    let durations: Vec<u64> = (1..=100).map(millis).collect();
    // p50 of 1..=100 → index 50 → 51ms
    assert!((as_ms(percentile(&durations, 50)) - 50.5).abs() < 2.0);
    assert!((as_ms(percentile(&durations, 99)) - 99.0).abs() < 2.0);
}

#[test]
fn test_percentile_empty() {
    let durations: Vec<u64> = vec![];
    assert_eq!(as_ms(percentile(&durations, 50)), 0.0);
}

#[test]
fn test_report_all_failures() {
    let results = vec![
        RequestResult {
            duration_nanos: millis(10),
            success: false,
        },
        RequestResult {
            duration_nanos: millis(20),
            success: false,
        },
    ];
    let report = BenchmarkReport::from_results(&results, 1_000_000_000, "test", 1);
    assert_eq!(report.successful, 0);
    assert_eq!(report.failed, 2);
    assert_eq!(as_ms(report.latency.min_nanos), 0.0);
}

#[test]
fn test_report_mixed_results() {
    let results = vec![
        RequestResult {
            duration_nanos: millis(5),
            success: true,
        },
        RequestResult {
            duration_nanos: millis(10),
            success: true,
        },
        RequestResult {
            duration_nanos: millis(100),
            success: false,
        },
    ];
    let report = BenchmarkReport::from_results(&results, 1_000_000_000, "test", 2);
    assert_eq!(report.successful, 2);
    assert_eq!(report.failed, 1);
    assert_eq!(report.concurrency, 2);
    assert!(as_ms(report.latency.min_nanos) > 4.0 && as_ms(report.latency.min_nanos) < 6.0);
    assert!(as_ms(report.latency.max_nanos) > 9.0 && as_ms(report.latency.max_nanos) < 11.0);
}

#[test]
fn percentile_index_rounds_half_up() {
    // 4 samples: p50 lies halfway between the second and third (1.5) and
    // rounds up to the third.
    let durations = vec![10, 20, 30, 40];
    assert_eq!(percentile(&durations, 50), 30);
    assert_eq!(percentile(&durations, 90), 40);
    assert_eq!(percentile(&durations, 0), 10);
    // Percentages above 100 stay on the last sample.
    assert_eq!(percentile(&durations, 250), 40);
}

#[test]
fn report_latency_is_ordered_and_sorted() {
    let results: Vec<RequestResult> = [7u64, 3, 9, 1, 5, 8, 2]
        .iter()
        .map(|&d| RequestResult {
            duration_nanos: d,
            success: d != 8,
        })
        .collect();
    let report = BenchmarkReport::from_results(&results, 50, "mixed", 3);
    let l = report.latency;
    assert_eq!(report.total_requests, 7);
    assert_eq!(report.successful + report.failed, report.total_requests);
    assert_eq!(l.samples, 6);
    assert_eq!(l.min_nanos, 1);
    assert_eq!(l.max_nanos, 9);
    assert_eq!(l.sum_nanos, 27);
    // sorted successes: 1 2 3 5 7 9; p50 index round(2.5) = 3
    assert_eq!(l.p50_nanos, 5);
    assert!(l.min_nanos <= l.p50_nanos && l.p50_nanos <= l.p90_nanos);
    assert!(l.p90_nanos <= l.p95_nanos && l.p95_nanos <= l.p99_nanos && l.p99_nanos <= l.max_nanos);
    assert_eq!(report.scenario, "mixed");
    assert_eq!(report.total_elapsed_nanos, 50);
}

#[test]
fn sort_ascending_keeps_duplicates() {
    let v = vec![5, 1, 5, 3, 1];
    assert_eq!(sort_ascending(&v), vec![1, 1, 3, 5, 5]);
}

#[test]
fn report_ignores_result_order() {
    let r = |d: u64, ok: bool| RequestResult { duration_nanos: millis(d), success: ok };
    let a = vec![r(5, true), r(1, false), r(9, true), r(3, true), r(7, false)];
    let b = vec![r(7, false), r(3, true), r(9, true), r(1, false), r(5, true)];
    let ra = BenchmarkReport::from_results(&a, 100, "s", 2);
    let rb = BenchmarkReport::from_results(&b, 100, "s", 2);
    assert_eq!(ra.latency, rb.latency);
    assert_eq!((ra.successful, ra.failed, ra.total_requests), (rb.successful, rb.failed, rb.total_requests));
    assert_eq!(ra.latency.min_nanos, millis(3));
    assert_eq!(ra.latency.max_nanos, millis(9));
}
