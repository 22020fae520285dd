use vstd::prelude::*;
use crate::pulse::HealthCheckError;

verus! {

/// What the driver of the readiness loop does next.
#[derive(Clone, Copy, Debug, PartialEq, Eq, Structural)]
pub enum ProbeStep {
    /// The server answered 200: stop polling.
    Ready,
    /// Issue the next probe at once.
    ProbeNow,
    /// Sleep this many milliseconds, then issue the next probe.
    SleepThenProbe(u64),
    /// The attempt budget is spent without success.
    Exhausted,
}

/// State of the readiness loop.
#[derive(Clone, Copy, Debug, PartialEq, Eq, Structural)]
pub struct Prober {
    /// Probes made so far.
    pub attempts: u64,
    /// Most probes that will be made.
    pub budget: u64,
    /// Per-attempt timeout, also the back-off after a wrong answer.
    pub timeout_ms: u64,
    /// Whether a probe has succeeded.
    pub ready: bool,
}

/// Number of attempts that fit in the overall deadline.
pub open spec fn attempt_budget(overall_deadline_ms: u64, per_attempt_timeout_ms: u64) -> u64
    recommends
        per_attempt_timeout_ms > 0,
{
    (overall_deadline_ms / per_attempt_timeout_ms) as u64
}

impl Prober {
    pub open spec fn wf(&self) -> bool {
        &&& self.attempts <= self.budget
        &&& self.timeout_ms > 0
    }

    /// Whether the loop may issue another probe.
    pub open spec fn can_probe(&self) -> bool {
        !self.ready && self.attempts < self.budget
    }

    /// The step before any probe was made.
    pub open spec fn first_step_spec(&self) -> ProbeStep {
        if self.ready {
            ProbeStep::Ready
        } else if self.attempts < self.budget {
            ProbeStep::ProbeNow
        } else {
            ProbeStep::Exhausted
        }
    }

    /// State and step after a probe with this outcome.
    pub open spec fn next(self, outcome: Result<(), HealthCheckError>) -> (Prober, ProbeStep) {
        let q = Prober { attempts: (self.attempts + 1) as u64, ..self };
        match outcome {
            Ok(()) => (Prober { ready: true, ..q }, ProbeStep::Ready),
            Err(e) => if q.attempts >= q.budget {
                (q, ProbeStep::Exhausted)
            } else {
                match e {
                    HealthCheckError::Timeout => (q, ProbeStep::ProbeNow),
                    HealthCheckError::NetworkError => (q, ProbeStep::SleepThenProbe(q.timeout_ms)),
                }
            },
        }
    }

    /// A prober for a server that must answer within `overall_deadline_ms`,
    /// each probe waiting at most `per_attempt_timeout_ms`.
    pub fn new(overall_deadline_ms: u64, per_attempt_timeout_ms: u64) -> (r: Prober)
        requires
            per_attempt_timeout_ms > 0,
        ensures
            r.wf(),
            r == fresh(overall_deadline_ms, per_attempt_timeout_ms),
    {
        Prober {
            attempts: 0,
            budget: overall_deadline_ms / per_attempt_timeout_ms,
            timeout_ms: per_attempt_timeout_ms,
            ready: false,
        }
    }

    /// The step that starts the loop.
    pub fn first_step(&self) -> (r: ProbeStep)
        ensures
            r == self.first_step_spec(),
    {
        if self.ready {
            ProbeStep::Ready
        } else if self.attempts < self.budget {
            ProbeStep::ProbeNow
        } else {
            ProbeStep::Exhausted
        }
    }

    /// Records the outcome of one probe and says what to do next.
    pub fn record(&mut self, outcome: Result<(), HealthCheckError>) -> (r: ProbeStep)
        requires
            old(self).wf(),
            old(self).can_probe(),
        ensures
            final(self).wf(),
            (*final(self), r) == old(self).next(outcome),
    {
        self.attempts = self.attempts + 1;
        match outcome {
            Ok(()) => {
                self.ready = true;
                ProbeStep::Ready
            },
            Err(e) => if self.attempts >= self.budget {
                ProbeStep::Exhausted
            } else {
                match e {
                    HealthCheckError::Timeout => ProbeStep::ProbeNow,
                    HealthCheckError::NetworkError => ProbeStep::SleepThenProbe(self.timeout_ms),
                }
            },
        }
    }
}

/// Milliseconds slept before the next probe.
pub open spec fn sleep_of(s: ProbeStep) -> nat {
    match s {
        ProbeStep::SleepThenProbe(ms) => ms as nat,
        _ => 0,
    }
}

/// Summary of a whole readiness loop.
pub struct ProbeTrace {
    /// HTTP calls issued.
    pub calls: nat,
    /// Milliseconds slept between calls.
    pub slept: nat,
    /// Whether the loop ended ready.
    pub ready: bool,
}

/// The loop driven from `p`, the upstream giving `outcomes` to successive probes.
pub open spec fn drive(p: Prober, outcomes: Seq<Result<(), HealthCheckError>>) -> ProbeTrace
    decreases outcomes.len(),
{
    if !p.can_probe() || outcomes.len() == 0 {
        ProbeTrace { calls: 0, slept: 0, ready: p.ready }
    } else {
        let (q, s) = p.next(outcomes[0]);
        let t = drive(q, outcomes.drop_first());
        ProbeTrace { calls: t.calls + 1, slept: t.slept + sleep_of(s), ready: t.ready }
    }
}

/// Polling stops at the first success: when the first `k` probes fail and the
/// next one succeeds within the budget, exactly `k + 1` calls are made,
/// whatever the upstream would answer afterwards, and the loop ends ready.
pub proof fn lemma_stops_on_first_success(
    p: Prober,
    outcomes: Seq<Result<(), HealthCheckError>>,
    k: int,
)
    requires
        p.wf(),
        !p.ready,
        0 <= k < outcomes.len(),
        k < p.budget - p.attempts,
        outcomes[k] is Ok,
        forall|j: int| 0 <= j < k ==> outcomes[j] is Err,
    ensures
        drive(p, outcomes).calls == k + 1,
        drive(p, outcomes).ready,
    decreases k,
{
    let (q, s) = p.next(outcomes[0]);
    if k > 0 {
        let rest = outcomes.drop_first();
        assert forall|j: int| 0 <= j < k - 1 implies rest[j] is Err by {
            assert(rest[j] == outcomes[j + 1]);
        }
        lemma_stops_on_first_success(q, rest, k - 1);
    } else {
        let t = drive(q, outcomes.drop_first());
        assert(t.calls == 0);
    }
}

/// Against an upstream that always times out, every remaining attempt of the
/// budget is made, with no sleep between them, and the loop ends exhausted.
pub proof fn lemma_always_timeout(p: Prober, outcomes: Seq<Result<(), HealthCheckError>>)
    requires
        p.wf(),
        !p.ready,
        outcomes.len() >= p.budget - p.attempts,
        forall|j: int|
            0 <= j < outcomes.len() ==> outcomes[j] == Err::<(), HealthCheckError>(
                HealthCheckError::Timeout,
            ),
    ensures
        drive(p, outcomes).calls == p.budget - p.attempts,
        drive(p, outcomes).slept == 0,
        !drive(p, outcomes).ready,
    decreases outcomes.len(),
{
    if p.can_probe() && outcomes.len() > 0 {
        let (q, s) = p.next(outcomes[0]);
        lemma_always_timeout(q, outcomes.drop_first());
    }
}

/// Against an upstream that always answers with an error status, every
/// remaining attempt of the budget is made, the full per-attempt timeout is
/// slept between each two of them, and the loop ends exhausted.
pub proof fn lemma_always_error_status(p: Prober, outcomes: Seq<Result<(), HealthCheckError>>)
    requires
        p.wf(),
        !p.ready,
        outcomes.len() >= p.budget - p.attempts,
        forall|j: int|
            0 <= j < outcomes.len() ==> outcomes[j] == error_status_outcome(),
    ensures
        drive(p, outcomes).calls == p.budget - p.attempts,
        p.attempts < p.budget ==> drive(p, outcomes).slept == p.timeout_ms * (p.budget
            - p.attempts - 1),
        !drive(p, outcomes).ready,
    decreases outcomes.len(),
{
    if p.can_probe() && outcomes.len() > 0 {
        let (q, s) = p.next(outcomes[0]);
        lemma_always_error_status(q, outcomes.drop_first());
        if q.attempts < q.budget {
            assert(p.timeout_ms * (p.budget - p.attempts - 1) == p.timeout_ms + p.timeout_ms * (
            q.budget - q.attempts - 1)) by (nonlinear_arith)
                requires
                    q.budget == p.budget,
                    q.attempts == p.attempts + 1,
            ;
        } else {
            assert(p.timeout_ms * (p.budget - p.attempts - 1) == 0) by (nonlinear_arith)
                requires
                    p.budget - p.attempts - 1 == 0,
            ;
        }
    }
}

/// A fresh prober.
pub open spec fn fresh(overall_deadline_ms: u64, per_attempt_timeout_ms: u64) -> Prober {
    Prober {
        attempts: 0,
        budget: attempt_budget(overall_deadline_ms, per_attempt_timeout_ms),
        timeout_ms: per_attempt_timeout_ms,
        ready: false,
    }
}

/// From a fresh start, an upstream that always times out gets exactly
/// `overall_deadline_ms / per_attempt_timeout_ms` probes, no sleep, and the
/// loop ends exhausted.
pub proof fn lemma_fresh_always_timeout(
    overall_deadline_ms: u64,
    per_attempt_timeout_ms: u64,
    outcomes: Seq<Result<(), HealthCheckError>>,
)
    requires
        per_attempt_timeout_ms > 0,
        outcomes.len() >= overall_deadline_ms / per_attempt_timeout_ms,
        forall|j: int|
            0 <= j < outcomes.len() ==> outcomes[j] == Err::<(), HealthCheckError>(
                HealthCheckError::Timeout,
            ),
    ensures
        ({
            let t = drive(fresh(overall_deadline_ms, per_attempt_timeout_ms), outcomes);
            &&& t.calls == overall_deadline_ms / per_attempt_timeout_ms
            &&& t.slept == 0
            &&& !t.ready
        }),
{
    lemma_always_timeout(fresh(overall_deadline_ms, per_attempt_timeout_ms), outcomes);
}

/// From a fresh start, an upstream that always answers 503 gets exactly
/// `overall_deadline_ms / per_attempt_timeout_ms` probes with a full
/// per-attempt timeout slept between each two, and the loop ends exhausted.
pub proof fn lemma_fresh_always_error_status(
    overall_deadline_ms: u64,
    per_attempt_timeout_ms: u64,
    outcomes: Seq<Result<(), HealthCheckError>>,
)
    requires
        per_attempt_timeout_ms > 0,
        outcomes.len() >= overall_deadline_ms / per_attempt_timeout_ms,
        forall|j: int| 0 <= j < outcomes.len() ==> outcomes[j] == error_status_outcome(),
    ensures
        ({
            let t = drive(fresh(overall_deadline_ms, per_attempt_timeout_ms), outcomes);
            &&& t.calls == overall_deadline_ms / per_attempt_timeout_ms
            &&& t.calls > 0 ==> t.slept == per_attempt_timeout_ms * (t.calls - 1)
            &&& !t.ready
        }),
{
    lemma_always_error_status(fresh(overall_deadline_ms, per_attempt_timeout_ms), outcomes);
}

/// The outcome of a probe that the server answered with 503.
pub open spec fn error_status_outcome() -> Result<(), HealthCheckError> {
    crate::pulse::classify_spec(crate::pulse::ProbeReply::Status(503))
}

} // verus!
