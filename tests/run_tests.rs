use common_tests::metrics::{Outcome, Ratio};
use common_tests::payload::SagaRequest;
use common_tests::run::{
    classify, is_success_status, share_per_worker, LoadRun, RequestKind, RunMode, WorkerStep,
};

#[test]
fn shares_drop_the_remainder() {
    assert_eq!(share_per_worker(100, 10), 10);
    assert_eq!(share_per_worker(105, 10), 10);
    assert_eq!(share_per_worker(9, 10), 0);
    assert_eq!(share_per_worker(100, 0), 0);
}

#[test]
fn success_is_the_2xx_class() {
    assert!(is_success_status(200));
    assert!(is_success_status(201));
    assert!(is_success_status(299));
    assert!(!is_success_status(199));
    assert!(!is_success_status(300));
    assert!(!is_success_status(404));
    assert!(!is_success_status(500));
}

#[test]
fn classify_outcomes() {
    assert_eq!(classify(Some(201), 12), Outcome::Success(12));
    assert_eq!(classify(Some(503), 4), Outcome::Failure(4));
    assert_eq!(classify(None, 9), Outcome::Failure(9));
}

#[test]
fn modes_pick_requests_and_warmup() {
    assert_eq!(RunMode::List.request_kind(), RequestKind::Get);
    assert_eq!(RunMode::SeededList.request_kind(), RequestKind::Get);
    assert_eq!(RunMode::Create.request_kind(), RequestKind::Post);
    assert_eq!(RunMode::SeededList.warmup_requests(10), 10);
    assert_eq!(RunMode::List.warmup_requests(10), 0);
    assert_eq!(RunMode::Create.warmup_requests(10), 0);
}

fn drive(run: &mut LoadRun, status: Option<u16>) {
    let n = run.parallelism_count();
    for w in 0..n {
        run.arrive(w);
    }
    loop {
        let mut sent = false;
        for w in 0..n {
            if run.next_step(w) == WorkerStep::Send {
                run.complete(w, classify(status, 0));
                sent = true;
            }
        }
        if !sent {
            break;
        }
    }
}

#[test]
fn workers_wait_for_the_last_arrival() {
    let mut run = LoadRun::new(String::from("run"), 6, 3);
    run.arrive(0);
    run.arrive(2);
    assert!(!run.all_arrived());
    assert_eq!(run.next_step(0), WorkerStep::Wait);
    assert_eq!(run.next_step(1), WorkerStep::Wait);
    assert_eq!(run.next_step(2), WorkerStep::Wait);
    run.arrive(1);
    assert!(run.all_arrived());
    assert_eq!(run.next_step(0), WorkerStep::Send);
    assert_eq!(run.next_step(1), WorkerStep::Send);
}

#[test]
fn each_worker_completes_its_share() {
    let mut run = LoadRun::new(String::from("run"), 23, 4);
    assert_eq!(run.share(), 5);
    assert!(!run.is_finished());
    drive(&mut run, Some(200));
    assert!(run.is_finished());
    assert_eq!(run.metrics().completed(), 20);
    for w in 0..4 {
        assert_eq!(run.next_step(w), WorkerStep::Finish);
    }
}

#[test]
fn all_successful_run_of_one_hundred() {
    let mut run = LoadRun::new(String::from("perf_test2"), 100, 10);
    drive(&mut run, Some(200));
    assert!(run.is_finished());
    let m = run.into_metrics();
    let s = m.summary(2_000_000_000);
    assert_eq!(s.successful, 100);
    assert_eq!(s.failed, 0);
    assert_eq!(s.total, 100);
    assert_eq!(s.avg_response_time_ms.num, 0);
    assert_eq!(s.throughput_rps, Some(Ratio { num: 100_000_000_000, den: 2_000_000_000 }));
}

#[test]
fn all_transport_errors_run_of_one_hundred() {
    let mut run = LoadRun::new(String::from("perf_test"), 100, 10);
    drive(&mut run, None);
    let m = run.into_metrics();
    let s = m.summary(1_000_000_000);
    assert_eq!(s.successful, 0);
    assert_eq!(s.failed, 100);
    assert_eq!(s.avg_response_time_ms.num, 0);
    let rows = m.export_records();
    assert_eq!(rows.len(), 100);
    assert!(rows.iter().all(|r| r.status == 500));
    for (i, r) in rows.iter().enumerate() {
        assert_eq!(r.offset_s, i as u64 + 1);
    }
}

#[test]
fn random_body_shape() {
    let b = SagaRequest::random();
    assert_eq!(b.target.chars().count(), 10);
    assert!(b.target.chars().all(|c| c.is_ascii_alphanumeric()));
    assert!(b.target_id.parse::<u64>().is_ok());
    assert_eq!(b.target_ref.len(), 3);
    for r in &b.target_ref {
        assert_eq!(r.chars().count(), 10);
        assert!(r.chars().all(|c| c.is_ascii_alphanumeric()));
    }
}
