//! Accounting of request outcomes and the figures derived from it.
//!
//! Accounting policy: the running response-time sum covers successful
//! requests only, so the average response time is the mean latency of the
//! successful requests. Failed requests are counted and exported but do not
//! enter the average.
use vstd::prelude::*;
use crate::calendar::{CalendarDate, LocalDateTime};
use crate::text::{clock_spec, decimal_spec, decimal_text, push_clock};

verus! {

/// How one request attempt ended, with its latency in milliseconds measured
/// from dispatch to response or error.
#[derive(Clone, Copy, Debug, PartialEq, Eq, Structural)]
pub enum Outcome {
    Success(u64),
    Failure(u64),
}

/// The abstract state of a `Metrics`: latencies in order of recording.
pub struct MetricsView {
    pub successes: Seq<u64>,
    pub failures: Seq<u64>,
    pub label: Seq<char>,
}

impl MetricsView {
    /// Number of requests recorded so far.
    pub open spec fn completed(self) -> nat {
        self.successes.len() + self.failures.len()
    }

    /// The state after recording `o`.
    pub open spec fn record(self, o: Outcome) -> MetricsView {
        match o {
            Outcome::Success(ms) => MetricsView { successes: self.successes.push(ms), ..self },
            Outcome::Failure(ms) => MetricsView { failures: self.failures.push(ms), ..self },
        }
    }
}

/// Sum of a sequence of latencies.
pub open spec fn sum_spec(s: Seq<u64>) -> int
    decreases s.len(),
{
    if s.len() == 0 {
        0
    } else {
        sum_spec(s.drop_last()) + s.last()
    }
}

/// An exact non-negative fraction `num / den`.
#[derive(Clone, Copy, Debug, PartialEq, Eq, Structural)]
pub struct Ratio {
    pub num: u128,
    pub den: u128,
}

impl Ratio {
    /// This fraction has a positive denominator and equals `x / y`.
    pub open spec fn equals(self, x: int, y: int) -> bool {
        self.den > 0 && self.num * y == x * self.den
    }
}

/// Nanoseconds in one second.
pub const NANOS_PER_SECOND: u128 = 1_000_000_000;

/// Figures of a finished run.
#[derive(Clone, Copy, Debug, PartialEq, Eq, Structural)]
pub struct RunSummary {
    pub total: usize,
    pub successful: usize,
    pub failed: usize,
    pub duration_ns: u64,
    /// Mean latency of the successful requests in milliseconds; zero when
    /// none succeeded.
    pub avg_response_time_ms: Ratio,
    /// Successful requests per second; `None` for a zero duration.
    pub throughput_rps: Option<Ratio>,
}

/// The summary of a run whose final state is `v`, lasting `duration_ns`.
pub open spec fn summary_spec(v: MetricsView, duration_ns: u64) -> RunSummary {
    let s = v.successes.len();
    RunSummary {
        total: v.completed() as usize,
        successful: s as usize,
        failed: v.failures.len() as usize,
        duration_ns,
        avg_response_time_ms: if s > 0 {
            Ratio { num: sum_spec(v.successes) as u128, den: s as u128 }
        } else {
            Ratio { num: 0, den: 1 }
        },
        throughput_rps: if duration_ns > 0 {
            Some(Ratio { num: (s * NANOS_PER_SECOND) as u128, den: duration_ns as u128 })
        } else {
            None
        },
    }
}

/// Status class written for a successful request.
pub const STATUS_SUCCESS: u16 = 200;

/// Status class written for a failed request.
pub const STATUS_FAILURE: u16 = 500;

/// One exported row: the synthetic timestamp as seconds after midnight of
/// the run's day (1 for the first row), the latency and the status class.
#[derive(Clone, Copy, Debug, PartialEq, Eq, Structural)]
pub struct ExportRecord {
    pub offset_s: u64,
    pub response_time_ms: u64,
    pub status: u16,
}

/// The rows of an export: successes in recorded order, then failures in
/// recorded order, numbered one second apart from midnight.
pub open spec fn export_spec(v: MetricsView) -> Seq<ExportRecord> {
    let n = v.successes.len();
    Seq::new(
        v.completed(),
        |i: int|
            if i < n {
                ExportRecord {
                    offset_s: (i + 1) as u64,
                    response_time_ms: v.successes[i],
                    status: STATUS_SUCCESS,
                }
            } else {
                ExportRecord {
                    offset_s: (i + 1) as u64,
                    response_time_ms: v.failures[i - n],
                    status: STATUS_FAILURE,
                }
            },
    )
}

/// The seconds after midnight shown for a row, wrapping every day.
pub open spec fn clock_of(offset_s: u64) -> nat {
    offset_s as nat % 86400
}

impl ExportRecord {
    /// The `timestamp` cell: `YYYY-MM-DD HH:MM:SS` on `day`.
    pub open spec fn timestamp_spec(&self, day: CalendarDate) -> Seq<char> {
        day.text_spec() + seq![' '] + clock_spec(clock_of(self.offset_s))
    }

    /// The three cells of this row: timestamp, latency and status class.
    pub fn fields(&self, day: &CalendarDate) -> (r: Vec<String>)
        ensures
            r@.len() == 3,
            r@[0]@ == self.timestamp_spec(*day),
            r@[1]@ == decimal_spec(self.response_time_ms as nat),
            r@[2]@ == decimal_spec(self.status as nat),
    {
        proof {
            reveal_strlit(" ");
        }
        let mut stamp = String::new();
        day.push_text(&mut stamp);
        stamp.append(" ");
        push_clock(&mut stamp, (self.offset_s % 86400) as u32);
        assert(stamp@ =~= self.timestamp_spec(*day));
        let mut r: Vec<String> = Vec::new();
        r.push(stamp);
        r.push(decimal_text(self.response_time_ms));
        r.push(decimal_text(self.status as u64));
        r
    }
}

/// The header row of an export.
pub fn export_header() -> (r: Vec<String>)
    ensures
        r@.len() == 3,
        r@[0]@ == "timestamp"@,
        r@[1]@ == "response_time"@,
        r@[2]@ == "status"@,
{
    let mut r: Vec<String> = Vec::new();
    r.push(String::from_str("timestamp"));
    r.push(String::from_str("response_time"));
    r.push(String::from_str("status"));
    r
}

/// The directory that exports are written to.
pub fn export_directory() -> (r: &'static str)
    ensures
        r@ == "bi/data"@,
{
    "bi/data"
}

/// The recorded outcomes of one run, labelled with the run's name.
pub struct Metrics {
    successful_requests: Vec<u64>,
    failed_requests: Vec<u64>,
    total_response_time: u128,
    app_name: String,
}

impl View for Metrics {
    type V = MetricsView;

    closed spec fn view(&self) -> MetricsView {
        MetricsView {
            successes: self.successful_requests@,
            failures: self.failed_requests@,
            label: self.app_name@,
        }
    }
}

proof fn lemma_sum_bound(s: Seq<u64>)
    ensures
        0 <= sum_spec(s) <= s.len() * 0xffff_ffff_ffff_ffff,
    decreases s.len(),
{
    if s.len() > 0 {
        lemma_sum_bound(s.drop_last());
        assert(sum_spec(s) == sum_spec(s.drop_last()) + s.last());
        assert((s.len() - 1) * 0xffff_ffff_ffff_ffff + 0xffff_ffff_ffff_ffff == s.len()
            * 0xffff_ffff_ffff_ffff) by (nonlinear_arith);
    }
}

proof fn lemma_sum_fits(s: Seq<u64>)
    requires
        s.len() <= usize::MAX,
    ensures
        0 <= sum_spec(s) <= u128::MAX,
{
    lemma_sum_bound(s);
    assert(s.len() * 0xffff_ffff_ffff_ffff <= 0xffff_ffff_ffff_ffff * 0xffff_ffff_ffff_ffff)
        by (nonlinear_arith)
        requires
            s.len() <= 0xffff_ffff_ffff_ffff,
    ;
}

impl Metrics {
    /// The running sum matches the recorded successes and the counts fit a
    /// `usize` together.
    pub closed spec fn wf(&self) -> bool {
        &&& self.total_response_time == sum_spec(self.successful_requests@)
        &&& self.successful_requests@.len() + self.failed_requests@.len() <= usize::MAX
    }

    /// An empty record for the run named `app_name`.
    pub fn new(app_name: String) -> (r: Metrics)
        ensures
            r.wf(),
            r@.successes == Seq::<u64>::empty(),
            r@.failures == Seq::<u64>::empty(),
            r@.label == app_name@,
    {
        Metrics {
            successful_requests: Vec::new(),
            failed_requests: Vec::new(),
            total_response_time: 0,
            app_name,
        }
    }

    /// Records a successful request that took `response_time` ms; it also
    /// enters the running response-time sum.
    pub fn record_success(&mut self, response_time: u64)
        requires
            old(self).wf(),
            old(self)@.completed() < usize::MAX,
        ensures
            final(self).wf(),
            final(self)@ == old(self)@.record(Outcome::Success(response_time)),
    {
        proof {
            lemma_sum_fits(self.successful_requests@.push(response_time));
            assert(self.successful_requests@.push(response_time).drop_last()
                =~= self.successful_requests@);
        }
        self.successful_requests.push(response_time);
        self.total_response_time = self.total_response_time + response_time as u128;
    }

    /// Records a failed request that took `response_time` ms; the running
    /// response-time sum is left as it is.
    pub fn record_failure(&mut self, response_time: u64)
        requires
            old(self).wf(),
            old(self)@.completed() < usize::MAX,
        ensures
            final(self).wf(),
            final(self)@ == old(self)@.record(Outcome::Failure(response_time)),
    {
        self.failed_requests.push(response_time);
    }

    /// Records `outcome` as a success or a failure.
    pub fn record(&mut self, outcome: Outcome)
        requires
            old(self).wf(),
            old(self)@.completed() < usize::MAX,
        ensures
            final(self).wf(),
            final(self)@ == old(self)@.record(outcome),
    {
        match outcome {
            Outcome::Success(ms) => self.record_success(ms),
            Outcome::Failure(ms) => self.record_failure(ms),
        }
    }

    /// Number of requests recorded so far.
    pub fn completed(&self) -> (r: usize)
        requires
            self.wf(),
        ensures
            r == self@.completed(),
    {
        self.successful_requests.len() + self.failed_requests.len()
    }

    /// Latencies of the successful requests, in recorded order.
    pub fn successful_requests(&self) -> (r: &Vec<u64>)
        ensures
            r@ == self@.successes,
    {
        &self.successful_requests
    }

    /// Latencies of the failed requests, in recorded order.
    pub fn failed_requests(&self) -> (r: &Vec<u64>)
        ensures
            r@ == self@.failures,
    {
        &self.failed_requests
    }

    /// The run's name.
    pub fn app_name(&self) -> (r: &String)
        ensures
            r@ == self@.label,
    {
        &self.app_name
    }

    /// Summary of the run for a measured duration of `duration_ns`
    /// nanoseconds. It reads the record and changes nothing.
    pub fn summary(&self, duration_ns: u64) -> (r: RunSummary)
        requires
            self.wf(),
        ensures
            r == summary_spec(self@, duration_ns),
            r.total == r.successful + r.failed,
            r.successful == 0 ==> r.avg_response_time_ms.num == 0,
            r.successful > 0 ==> r.avg_response_time_ms.equals(
                sum_spec(self@.successes),
                r.successful as int,
            ),
            duration_ns > 0 ==> (r.throughput_rps matches Some(t) && t.equals(
                r.successful * NANOS_PER_SECOND,
                duration_ns as int,
            )),
    {
        let successful = self.successful_requests.len();
        let failed = self.failed_requests.len();
        let avg = if successful > 0 {
            Ratio { num: self.total_response_time, den: successful as u128 }
        } else {
            Ratio { num: 0, den: 1 }
        };
        let throughput = if duration_ns > 0 {
            assert(successful as int * NANOS_PER_SECOND <= u128::MAX) by (nonlinear_arith)
                requires
                    successful <= 0xffff_ffff_ffff_ffff,
                    NANOS_PER_SECOND == 1_000_000_000,
            ;
            Some(Ratio { num: successful as u128 * NANOS_PER_SECOND, den: duration_ns as u128 })
        } else {
            None
        };
        RunSummary {
            total: successful + failed,
            successful,
            failed,
            duration_ns,
            avg_response_time_ms: avg,
            throughput_rps: throughput,
        }
    }

    /// The export rows of this record, as `export_spec` lays them out.
    pub fn export_records(&self) -> (r: Vec<ExportRecord>)
        requires
            self.wf(),
        ensures
            r@ == export_spec(self@),
    {
        let n = self.successful_requests.len();
        let mut r: Vec<ExportRecord> = Vec::new();
        let mut i: usize = 0;
        while i < n
            invariant
                n == self@.successes.len(),
                self.wf(),
                i <= n,
                r@ == export_spec(self@).subrange(0, i as int),
            decreases n - i,
        {
            r.push(
                ExportRecord {
                    offset_s: i as u64 + 1,
                    response_time_ms: self.successful_requests[i],
                    status: STATUS_SUCCESS,
                },
            );
            i = i + 1;
            assert(r@ =~= export_spec(self@).subrange(0, i as int));
        }
        let m = self.failed_requests.len();
        let mut j: usize = 0;
        while j < m
            invariant
                n == self@.successes.len(),
                m == self@.failures.len(),
                self.wf(),
                j <= m,
                r@ == export_spec(self@).subrange(0, n + j),
            decreases m - j,
        {
            r.push(
                ExportRecord {
                    offset_s: (n + j) as u64 + 1,
                    response_time_ms: self.failed_requests[j],
                    status: STATUS_FAILURE,
                },
            );
            j = j + 1;
            assert(r@ =~= export_spec(self@).subrange(0, n + j));
        }
        assert(r@ =~= export_spec(self@));
        r
    }

    /// `<label>-<DD-MM-YYYY_HH-MM-SS>.csv` under `export_directory()`.
    pub open spec fn export_path_spec(&self, now: LocalDateTime) -> Seq<char> {
        "bi/data/"@ + self@.label + seq!['-'] + now.stamp_spec() + ".csv"@
    }

    /// The path of this run's export file for an export made at `now`.
    pub fn export_file_name(&self, now: &LocalDateTime) -> (r: String)
        ensures
            r@ == self.export_path_spec(*now),
    {
        proof {
            reveal_strlit("-");
        }
        let mut s = String::from_str("bi/data/");
        s.append(self.app_name.as_str());
        s.append("-");
        now.push_stamp(&mut s);
        s.append(".csv");
        s
    }
}

/// The summary is a function of the record and the duration alone: two
/// reports on equal records with equal durations agree, on the summary and
/// on the exported rows.
pub proof fn lemma_report_is_repeatable(a: MetricsView, b: MetricsView, duration_ns: u64)
    requires
        a.successes == b.successes,
        a.failures == b.failures,
    ensures
        summary_spec(a, duration_ns) == summary_spec(b, duration_ns),
        export_spec(a) == export_spec(b),
{
}

/// Exported rows: one per recorded request, every success row before every
/// failure row, and timestamps exactly one second apart; within the first
/// day (fewer than 86400 rows) the clock shown rises by one second per row.
pub proof fn lemma_export_layout(v: MetricsView)
    requires
        v.completed() <= usize::MAX,
    ensures
        export_spec(v).len() == v.successes.len() + v.failures.len(),
        forall|i: int, j: int|
            0 <= i < j < export_spec(v).len() && #[trigger] export_spec(v)[j].status
                == STATUS_SUCCESS ==> #[trigger] export_spec(v)[i].status == STATUS_SUCCESS,
        forall|i: int|
            0 <= i < export_spec(v).len() ==> (#[trigger] export_spec(v)[i]).offset_s == i + 1,
        forall|i: int|
            0 < i < export_spec(v).len() && export_spec(v).len() < 86400 ==> clock_of(
                (#[trigger] export_spec(v)[i]).offset_s,
            ) == clock_of(export_spec(v)[i - 1].offset_s) + 1,
{
}

} // verus!
