use common_tests::metrics::{ExportRecord, Metrics, Outcome, Ratio};

#[test]
fn new_metrics_is_empty() {
    let m = Metrics::new(String::from("perf_test"));
    assert_eq!(m.completed(), 0);
    assert!(m.successful_requests().is_empty());
    assert!(m.failed_requests().is_empty());
    assert_eq!(m.app_name(), "perf_test");
}

#[test]
fn records_keep_order() {
    let mut m = Metrics::new(String::from("run"));
    m.record_success(5);
    m.record_failure(7);
    m.record_success(3);
    m.record(Outcome::Failure(1));
    m.record(Outcome::Success(9));
    assert_eq!(m.successful_requests(), &vec![5, 3, 9]);
    assert_eq!(m.failed_requests(), &vec![7, 1]);
    assert_eq!(m.completed(), 5);
}

#[test]
fn summary_averages_successes_only() {
    let mut m = Metrics::new(String::from("run"));
    m.record_success(10);
    m.record_success(20);
    m.record_failure(1000);
    let s = m.summary(2_000_000_000);
    assert_eq!(s.total, 3);
    assert_eq!(s.successful, 2);
    assert_eq!(s.failed, 1);
    assert_eq!(s.duration_ns, 2_000_000_000);
    assert_eq!(s.avg_response_time_ms, Ratio { num: 30, den: 2 });
    assert_eq!(s.throughput_rps, Some(Ratio { num: 2_000_000_000, den: 2_000_000_000 }));
}

#[test]
fn summary_of_empty_run_is_zero() {
    let m = Metrics::new(String::from("run"));
    let s = m.summary(1_000_000_000);
    assert_eq!(s.total, 0);
    assert_eq!(s.successful, 0);
    assert_eq!(s.failed, 0);
    assert_eq!(s.avg_response_time_ms.num, 0);
    assert_eq!(s.throughput_rps.unwrap().num, 0);
}

#[test]
fn average_is_zero_without_successes() {
    let mut m = Metrics::new(String::from("run"));
    m.record_failure(50);
    m.record_failure(70);
    let s = m.summary(1_000_000);
    assert_eq!(s.successful, 0);
    assert_eq!(s.avg_response_time_ms, Ratio { num: 0, den: 1 });
}

#[test]
fn throughput_is_successes_per_second() {
    let mut m = Metrics::new(String::from("run"));
    for _ in 0..3 {
        m.record_success(1);
    }
    m.record_failure(1);
    let s = m.summary(1_500_000_000);
    let t = s.throughput_rps.unwrap();
    assert_eq!(t, Ratio { num: 3_000_000_000, den: 1_500_000_000 });
    assert_eq!(t.num / t.den, 2);
}

#[test]
fn zero_duration_has_no_throughput() {
    let mut m = Metrics::new(String::from("run"));
    m.record_success(1);
    assert_eq!(m.summary(0).throughput_rps, None);
}

#[test]
fn summary_is_repeatable() {
    let mut m = Metrics::new(String::from("run"));
    m.record_success(4);
    m.record_failure(8);
    assert_eq!(m.summary(123), m.summary(123));
    assert_eq!(m.export_records(), m.export_records());
}

#[test]
fn export_puts_successes_first_one_second_apart() {
    let mut m = Metrics::new(String::from("run"));
    m.record_failure(100);
    m.record_success(1);
    m.record_failure(200);
    m.record_success(2);
    let rows = m.export_records();
    assert_eq!(
        rows,
        vec![
            ExportRecord { offset_s: 1, response_time_ms: 1, status: 200 },
            ExportRecord { offset_s: 2, response_time_ms: 2, status: 200 },
            ExportRecord { offset_s: 3, response_time_ms: 100, status: 500 },
            ExportRecord { offset_s: 4, response_time_ms: 200, status: 500 },
        ]
    );
    let s = m.summary(1);
    assert_eq!(rows.len(), s.successful + s.failed);
}
