//! Decisions of a load run: how requests are shared among workers, when a
//! worker may send, and how each attempt is classified and recorded.
use vstd::prelude::*;
use crate::metrics::{Metrics, MetricsView, Outcome};

verus! {

/// What a run exercises on the target.
#[derive(Clone, Copy, Debug, PartialEq, Eq, Structural)]
pub enum RunMode {
    /// Timed list requests.
    List,
    /// Timed create requests, each with a fresh body.
    Create,
    /// A sequential seeding of one create request per worker, then timed
    /// list requests.
    SeededList,
}

/// The kind of request a worker sends.
#[derive(Clone, Copy, Debug, PartialEq, Eq, Structural)]
pub enum RequestKind {
    Get,
    Post,
}

impl RunMode {
    /// The kind of the timed requests of this mode.
    pub fn request_kind(&self) -> (r: RequestKind)
        ensures
            r == (if *self == RunMode::Create {
                RequestKind::Post
            } else {
                RequestKind::Get
            }),
    {
        match self {
            RunMode::Create => RequestKind::Post,
            _ => RequestKind::Get,
        }
    }

    /// Number of seeding create requests sent before the timed part.
    pub fn warmup_requests(&self, parallelism: usize) -> (r: usize)
        ensures
            r == (if *self == RunMode::SeededList {
                parallelism
            } else {
                0
            }),
    {
        match self {
            RunMode::SeededList => parallelism,
            _ => 0,
        }
    }
}

/// A status code of the 2xx class.
pub open spec fn is_success_spec(code: u16) -> bool {
    200 <= code < 300
}

/// Whether the HTTP status `code` counts as a success.
pub fn is_success_status(code: u16) -> (r: bool)
    ensures
        r == is_success_spec(code),
{
    200 <= code && code < 300
}

/// The outcome of an attempt that got the status `status` (`None` for a
/// transport error) after `latency_ms` milliseconds.
pub fn classify(status: Option<u16>, latency_ms: u64) -> (r: Outcome)
    ensures
        r == (match status {
            Some(code) => if is_success_spec(code) {
                Outcome::Success(latency_ms)
            } else {
                Outcome::Failure(latency_ms)
            },
            None => Outcome::Failure(latency_ms),
        }),
{
    match status {
        Some(code) => if is_success_status(code) {
            Outcome::Success(latency_ms)
        } else {
            Outcome::Failure(latency_ms)
        },
        None => Outcome::Failure(latency_ms),
    }
}

/// The share of each worker: the integer quotient, the remainder being
/// dropped; no requests when there are no workers.
pub open spec fn share_spec(total_requests: usize, parallelism: usize) -> nat {
    if parallelism == 0 {
        0
    } else {
        (total_requests / parallelism) as nat
    }
}

/// Number of requests each of `parallelism` workers sends.
pub fn share_per_worker(total_requests: usize, parallelism: usize) -> (r: usize)
    ensures
        r == share_spec(total_requests, parallelism),
{
    if parallelism == 0 {
        0
    } else {
        total_requests / parallelism
    }
}

/// Sum of per-worker counts.
pub open spec fn count_sum(s: Seq<usize>) -> int
    decreases s.len(),
{
    if s.len() == 0 {
        0
    } else {
        count_sum(s.drop_last()) + s.last()
    }
}

proof fn lemma_count_sum_update(s: Seq<usize>, i: int, v: usize)
    requires
        0 <= i < s.len(),
    ensures
        count_sum(s.update(i, v)) == count_sum(s) - s[i] + v,
    decreases s.len(),
{
    let t = s.update(i, v);
    if i == s.len() - 1 {
        assert(t.drop_last() =~= s.drop_last());
    } else {
        assert(t.drop_last() =~= s.drop_last().update(i, v));
        lemma_count_sum_update(s.drop_last(), i, v);
    }
}

proof fn lemma_count_sum_bounded(s: Seq<usize>, k: nat)
    requires
        forall|i: int| 0 <= i < s.len() ==> s[i] <= k,
    ensures
        0 <= count_sum(s) <= s.len() * k,
        count_sum(s) == s.len() * k <==> forall|i: int| 0 <= i < s.len() ==> s[i] == k,
    decreases s.len(),
{
    if s.len() > 0 {
        let d = s.drop_last();
        lemma_count_sum_bounded(d, k);
        assert((s.len() - 1) * k + k == s.len() * k) by (nonlinear_arith);
        if count_sum(s) == s.len() * k {
            assert forall|i: int| 0 <= i < s.len() implies s[i] == k by {
                if i < s.len() - 1 {
                    assert(s[i] == d[i]);
                }
            }
        }
        if forall|i: int| 0 <= i < s.len() ==> s[i] == k {
            assert forall|i: int| 0 <= i < d.len() implies d[i] == k by {
                assert(d[i] == s[i]);
            }
        }
    }
}

proof fn lemma_count_sum_zeros(n: nat)
    ensures
        count_sum(Seq::new(n, |i: int| 0usize)) == 0,
    decreases n,
{
    if n > 0 {
        assert(Seq::new(n, |i: int| 0usize).drop_last() =~= Seq::new(
            (n - 1) as nat,
            |i: int| 0usize,
        ));
        lemma_count_sum_zeros((n - 1) as nat);
    }
}

/// What a worker does next.
#[derive(Clone, Copy, Debug, PartialEq, Eq, Structural)]
pub enum WorkerStep {
    /// Some worker has not reached the start barrier yet.
    Wait,
    /// Send one more request of the worker's share.
    Send,
    /// The worker's share is done.
    Finish,
}

/// The shared state of one run: which workers have reached the start
/// barrier, how many requests each has completed, and the record.
pub struct LoadRun {
    total_requests: usize,
    per_worker: usize,
    arrived: Vec<bool>,
    done: Vec<usize>,
    metrics: Metrics,
}

impl LoadRun {
    /// Number of workers.
    pub closed spec fn parallelism(&self) -> nat {
        self.done@.len()
    }

    /// The requested total, before the split into shares.
    pub closed spec fn total_requests(&self) -> nat {
        self.total_requests as nat
    }

    /// The share of every worker.
    pub closed spec fn per_worker(&self) -> nat {
        self.per_worker as nat
    }

    /// Which workers have reached the start barrier.
    pub closed spec fn arrived(&self) -> Seq<bool> {
        self.arrived@
    }

    /// Requests completed by each worker.
    pub closed spec fn done(&self) -> Seq<usize> {
        self.done@
    }

    /// The record of outcomes.
    pub closed spec fn metrics_view(&self) -> MetricsView {
        self.metrics@
    }

    /// Every worker has reached the start barrier.
    pub open spec fn all_arrived_spec(&self) -> bool {
        forall|i: int| 0 <= i < self.parallelism() ==> #[trigger] self.arrived()[i]
    }

    /// Every worker has completed its share.
    pub open spec fn finished_spec(&self) -> bool {
        forall|i: int| 0 <= i < self.parallelism() ==> #[trigger] self.done()[i] == self.per_worker()
    }

    /// The step that `worker` takes next in this state.
    pub open spec fn step_spec(&self, worker: int) -> WorkerStep {
        if !self.all_arrived_spec() {
            WorkerStep::Wait
        } else if self.done()[worker] < self.per_worker() {
            WorkerStep::Send
        } else {
            WorkerStep::Finish
        }
    }

    /// The shares are the integer quotient of the total, no worker went past
    /// its share, nobody sent before every worker arrived, and the record
    /// holds exactly one outcome per completed request.
    pub closed spec fn wf(&self) -> bool {
        &&& self.arrived@.len() == self.done@.len()
        &&& self.done@.len() <= usize::MAX
        &&& self.per_worker == share_spec(self.total_requests, self.done@.len() as usize)
        &&& forall|i: int| 0 <= i < self.done@.len() ==> #[trigger] self.done@[i] <= self.per_worker
        &&& (!self.all_arrived_spec() ==> forall|i: int|
            0 <= i < self.done@.len() ==> #[trigger] self.done@[i] == 0)
        &&& self.metrics.wf()
        &&& self.metrics@.completed() == count_sum(self.done@)
    }

    /// A run of `parallelism` workers sharing `total_requests` requests, with
    /// nobody arrived yet and an empty record named `app_name`.
    pub fn new(app_name: String, total_requests: usize, parallelism: usize) -> (r: LoadRun)
        ensures
            r.wf(),
            r.parallelism() == parallelism,
            r.total_requests() == total_requests,
            r.per_worker() == share_spec(total_requests, parallelism),
            forall|i: int| 0 <= i < parallelism ==> !#[trigger] r.arrived()[i],
            forall|i: int| 0 <= i < parallelism ==> #[trigger] r.done()[i] == 0,
            r.metrics_view().successes.len() == 0,
            r.metrics_view().failures.len() == 0,
            r.metrics_view().label == app_name@,
    {
        let per_worker = share_per_worker(total_requests, parallelism);
        let mut arrived: Vec<bool> = Vec::new();
        let mut done: Vec<usize> = Vec::new();
        let mut i: usize = 0;
        while i < parallelism
            invariant
                i <= parallelism,
                arrived@ == Seq::new(i as nat, |k: int| false),
                done@ == Seq::new(i as nat, |k: int| 0usize),
            decreases parallelism - i,
        {
            arrived.push(false);
            done.push(0);
            i = i + 1;
            assert(arrived@ =~= Seq::new(i as nat, |k: int| false));
            assert(done@ =~= Seq::new(i as nat, |k: int| 0usize));
        }
        proof {
            lemma_count_sum_zeros(parallelism as nat);
        }
        LoadRun { total_requests, per_worker, arrived, done, metrics: Metrics::new(app_name) }
    }

    /// Number of workers.
    pub fn parallelism_count(&self) -> (r: usize)
        requires
            self.wf(),
        ensures
            r == self.parallelism(),
    {
        self.done.len()
    }

    /// The share of every worker.
    pub fn share(&self) -> (r: usize)
        ensures
            r == self.per_worker(),
    {
        self.per_worker
    }

    /// Marks `worker` as having reached the start barrier.
    pub fn arrive(&mut self, worker: usize)
        requires
            old(self).wf(),
            worker < old(self).parallelism(),
        ensures
            final(self).wf(),
            final(self).arrived() == old(self).arrived().update(worker as int, true),
            final(self).done() == old(self).done(),
            final(self).parallelism() == old(self).parallelism(),
            final(self).per_worker() == old(self).per_worker(),
            final(self).total_requests() == old(self).total_requests(),
            final(self).metrics_view() == old(self).metrics_view(),
    {
        self.arrived.set(worker, true);
        assert(forall|i: int| 0 <= i < self.done@.len() ==> #[trigger] self.done@[i] <= self.per_worker);
        proof {
            if !self.all_arrived_spec() {
                let a = old(self).arrived@;
                assert(!old(self).all_arrived_spec()) by {
                    if old(self).all_arrived_spec() {
                        assert forall|i: int| 0 <= i < self.parallelism() implies #[trigger] self.arrived()[i] by {
                            if i != worker {
                                assert(old(self).arrived()[i]);
                                assert(self.arrived()[i] == a[i]);
                            }
                        }
                    }
                }
            }
        }
    }

    /// Whether every worker has reached the start barrier.
    pub fn all_arrived(&self) -> (r: bool)
        requires
            self.wf(),
        ensures
            r == self.all_arrived_spec(),
    {
        let n = self.arrived.len();
        let mut i: usize = 0;
        while i < n
            invariant
                self.wf(),
                n == self.parallelism(),
                i <= n,
                forall|k: int| 0 <= k < i ==> #[trigger] self.arrived()[k],
            decreases n - i,
        {
            if !self.arrived[i] {
                assert(!self.arrived()[i as int]);
                return false;
            }
            i = i + 1;
        }
        true
    }

    /// The next step of `worker`: wait while any worker is still to arrive,
    /// then send until its share is done. A worker is never told to send
    /// before every worker has arrived.
    pub fn next_step(&self, worker: usize) -> (r: WorkerStep)
        requires
            self.wf(),
            worker < self.parallelism(),
        ensures
            r == self.step_spec(worker as int),
            r == WorkerStep::Send ==> self.all_arrived_spec(),
    {
        if !self.all_arrived() {
            WorkerStep::Wait
        } else if self.done[worker] < self.per_worker {
            WorkerStep::Send
        } else {
            WorkerStep::Finish
        }
    }

    /// Records the outcome of a request that `worker` was told to send.
    pub fn complete(&mut self, worker: usize, outcome: Outcome)
        requires
            old(self).wf(),
            worker < old(self).parallelism(),
            old(self).step_spec(worker as int) == WorkerStep::Send,
        ensures
            final(self).wf(),
            final(self).done() == old(self).done().update(
                worker as int,
                (old(self).done()[worker as int] + 1) as usize,
            ),
            final(self).metrics_view() == old(self).metrics_view().record(outcome),
            final(self).arrived() == old(self).arrived(),
            final(self).parallelism() == old(self).parallelism(),
            final(self).per_worker() == old(self).per_worker(),
            final(self).total_requests() == old(self).total_requests(),
    {
        proof {
            lemma_count_sum_bounded(self.done@, self.per_worker as nat);
            lemma_share_fits(self.total_requests, self.done@.len() as usize);
            lemma_count_sum_update(self.done@, worker as int, (self.done@[worker as int] + 1) as usize);
            assert(self.done@[worker as int] != self.per_worker);
            assert(count_sum(self.done@) < self.done@.len() * self.per_worker);
        }
        self.metrics.record(outcome);
        let d = self.done[worker];
        self.done.set(worker, d + 1);
        assert(self.arrived@ == old(self).arrived@);
        assert(old(self).all_arrived_spec());
        assert forall|i: int| 0 <= i < self.parallelism() implies #[trigger] self.arrived()[i] by {
            assert(old(self).arrived()[i]);
        }
        assert(forall|i: int| 0 <= i < self.done@.len() ==> #[trigger] self.done@[i] <= self.per_worker);
    }

    /// Whether every worker has completed its share. When it has, the record
    /// holds one outcome for each request of every share.
    pub fn is_finished(&self) -> (r: bool)
        requires
            self.wf(),
        ensures
            r == self.finished_spec(),
            r ==> self.metrics_view().completed() == self.parallelism() * self.per_worker(),
    {
        let n = self.done.len();
        let mut i: usize = 0;
        while i < n
            invariant
                self.wf(),
                n == self.parallelism(),
                i <= n,
                forall|k: int| 0 <= k < i ==> #[trigger] self.done()[k] == self.per_worker(),
            decreases n - i,
        {
            if self.done[i] != self.per_worker {
                assert(self.done()[i as int] != self.per_worker());
                return false;
            }
            i = i + 1;
        }
        proof {
            lemma_finished_run_accounts_every_share(self);
        }
        true
    }

    /// The record of outcomes.
    pub fn metrics(&self) -> (r: &Metrics)
        requires
            self.wf(),
        ensures
            r@ == self.metrics_view(),
            r.wf(),
    {
        &self.metrics
    }

    /// The record of outcomes, taking the run apart.
    pub fn into_metrics(self) -> (r: Metrics)
        requires
            self.wf(),
        ensures
            r@ == self.metrics_view(),
            r.wf(),
    {
        self.metrics
    }
}

proof fn lemma_share_fits(total: usize, parallelism: usize)
    ensures
        parallelism * share_spec(total, parallelism) <= total,
{
    if parallelism > 0 {
        let q = total / parallelism;
        assert(parallelism * q <= total) by (nonlinear_arith)
            requires
                parallelism > 0,
                q == total / parallelism,
        ;
    }
}

/// Accounting of a finished run: every worker completed exactly the integer
/// quotient `total_requests / parallelism` of requests, and the record holds
/// one outcome for each of them, no more and no fewer.
pub proof fn lemma_finished_run_accounts_every_share(run: &LoadRun)
    requires
        run.wf(),
        run.finished_spec(),
    ensures
        run.per_worker() == share_spec(run.total_requests() as usize, run.parallelism() as usize),
        forall|i: int| 0 <= i < run.parallelism() ==> #[trigger] run.done()[i] == run.per_worker(),
        run.metrics_view().completed() == count_sum(run.done()),
        count_sum(run.done()) == run.parallelism() * run.per_worker(),
{
    lemma_count_sum_bounded(run.done@, run.per_worker as nat);
}

/// In every reachable state the record holds exactly as many outcomes as
/// the workers have completed iterations in total, and no worker has gone
/// past its share.
pub proof fn lemma_record_matches_iterations(run: &LoadRun)
    requires
        run.wf(),
    ensures
        run.metrics_view().completed() == count_sum(run.done()),
        forall|i: int| 0 <= i < run.parallelism() ==> #[trigger] run.done()[i] <= run.per_worker(),
        count_sum(run.done()) <= run.parallelism() * run.per_worker(),
        run.parallelism() * run.per_worker() <= run.total_requests(),
{
    lemma_count_sum_bounded(run.done@, run.per_worker as nat);
    lemma_share_fits(run.total_requests, run.done@.len() as usize);
}

/// Start discipline: in every reachable state, a worker that has sent
/// anything did so after all workers reached the start barrier, and a worker
/// is told to send only once all have.
pub proof fn lemma_no_send_before_barrier(run: &LoadRun, worker: int)
    requires
        run.wf(),
        0 <= worker < run.parallelism(),
    ensures
        run.done()[worker] > 0 ==> run.all_arrived_spec(),
        run.step_spec(worker) == WorkerStep::Send ==> run.all_arrived_spec(),
{
}

} // verus!
