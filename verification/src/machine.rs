use vstd::prelude::*;
use crate::duration::Duration;

verus! {

/// How a finished wait ended.
pub enum Verdict<T, E> {
    /// A probe produced the final value.
    Success(T),
    /// A probe failed; the error is passed on verbatim, never retried and
    /// never turned into a timeout.
    Failure(E),
    /// The deadline passed without a terminal probe answer.
    TimedOut,
}

/// The end of a replayed run: the verdict together with how many probes were
/// made before it.
pub struct RunEnd<T, E> {
    /// How the run ended.
    pub verdict: Verdict<T, E>,
    /// Number of probes the run made.
    pub probes: nat,
}

/// The ghost record of one wait invocation, returned beside its result: the
/// policy the driver resolved, the clock reading taken before each probe
/// (plus the final refusing reading when the wait timed out), the probe
/// answers in order, and the suspensions requested after pending answers.
pub struct RunTrace<T, E> {
    /// Budget of the invocation: bounded by this span when `Some`, unbounded
    /// when `None`.
    pub timeout: Option<Duration>,
    /// Pause requested between two probes.
    pub delay: Duration,
    /// Stopwatch reading at each deadline check, in order.
    pub checks: Seq<Duration>,
    /// Answer of each probe, in order.
    pub outcomes: Seq<Result<Option<T>, E>>,
    /// Suspensions requested, in order; one after each pending answer.
    pub sleeps: Seq<Duration>,
}

/// Whether the deadline policy admits one more probe, at one stopwatch
/// reading. `None` means wait without bound. A bounded wait whose budget is
/// zero admits no probe at all; otherwise the boundary is inclusive: a probe
/// whose check lands exactly on the deadline is still admitted, and only a
/// reading strictly past it refuses.
pub open spec fn may_probe(timeout: Option<Duration>, elapsed: Duration) -> bool {
    match timeout {
        None => true,
        Some(budget) => 0 < budget.nanos && elapsed.nanos <= budget.nanos,
    }
}

/// Whether the `i`-th probe of a recorded run was admitted by its deadline
/// check. A bounded run reads the stopwatch once before each probe; an
/// unbounded run reads no stopwatch and admits every probe.
pub open spec fn probe_admitted(timeout: Option<Duration>, checks: Seq<Duration>, i: int) -> bool {
    match timeout {
        None => true,
        Some(_) => 0 <= i < checks.len() && may_probe(timeout, checks[i]),
    }
}

/// The wait driver's policy, replayed over a recorded run from probe index
/// `i` on: if the deadline check refuses, the run times out having made `i`
/// probes; otherwise the `i`-th answer either ends the run — a value
/// succeeds, an error fails — or, when still pending, the run goes on with
/// the next probe. A recording that breaks off before a terminal answer is
/// read as timed out where it ends.
pub open spec fn run_from<T, E>(
    timeout: Option<Duration>,
    outcomes: Seq<Result<Option<T>, E>>,
    checks: Seq<Duration>,
    i: nat,
) -> RunEnd<T, E>
    decreases outcomes.len() - i,
{
    if !probe_admitted(timeout, checks, i as int) {
        RunEnd { verdict: Verdict::TimedOut, probes: i }
    } else if i >= outcomes.len() {
        RunEnd { verdict: Verdict::TimedOut, probes: i }
    } else {
        match outcomes[i as int] {
            Ok(Some(v)) => RunEnd { verdict: Verdict::Success(v), probes: (i + 1) as nat },
            Ok(None) => run_from(timeout, outcomes, checks, (i + 1) as nat),
            Err(e) => RunEnd { verdict: Verdict::Failure(e), probes: (i + 1) as nat },
        }
    }
}

/// The whole replay of a recorded run, from its first probe.
pub open spec fn run<T, E>(
    timeout: Option<Duration>,
    outcomes: Seq<Result<Option<T>, E>>,
    checks: Seq<Duration>,
) -> RunEnd<T, E> {
    run_from(timeout, outcomes, checks, 0)
}

/// How many probe answers of a run were still pending.
pub open spec fn pending_count<T, E>(outcomes: Seq<Result<Option<T>, E>>) -> nat
    decreases outcomes.len(),
{
    if outcomes.len() == 0 {
        0
    } else {
        pending_count(outcomes.drop_last()) + (if outcomes.last() == Ok::<Option<T>, E>(None) {
            1nat
        } else {
            0nat
        })
    }
}

/// Total length of a sequence of spans, in nanoseconds.
pub open spec fn total_nanos(spans: Seq<Duration>) -> int
    decreases spans.len(),
{
    if spans.len() == 0 {
        0
    } else {
        total_nanos(spans.drop_last()) + spans.last().nanos
    }
}

/// The stopwatch readings of a trace cover its replay exactly: one reading
/// per probe made, plus the final refusing reading when the run timed out; an
/// unbounded run takes none.
pub open spec fn trace_complete<T, E>(t: RunTrace<T, E>) -> bool {
    match t.timeout {
        None => t.checks.len() == 0,
        Some(_) => t.checks.len() == t.outcomes.len() + (if run(
            t.timeout,
            t.outcomes,
            t.checks,
        ).verdict is TimedOut {
            1int
        } else {
            0int
        }),
    }
}

/// One suspension of exactly the configured delay was requested after each
/// pending probe answer, and no other suspension was requested.
pub open spec fn sleeps_accounted<T, E>(t: RunTrace<T, E>) -> bool {
    &&& t.sleeps.len() == pending_count(t.outcomes)
    &&& forall|j: int| 0 <= j < t.sleeps.len() ==> t.sleeps[j] == t.delay
}

/// The wait has timed out: the run is bounded — only a bounded wait can time
/// out — and replaying the trace makes every recorded probe, none of them
/// terminal, ending refused by the last stopwatch reading.
pub open spec fn timed_out<T, E>(t: RunTrace<T, E>) -> bool {
    let end = run(t.timeout, t.outcomes, t.checks);
    &&& t.timeout is Some
    &&& end.verdict is TimedOut
    &&& end.probes == t.outcomes.len()
    &&& trace_complete(t)
    &&& sleeps_accounted(t)
}

/// What every driver entry point promises of its result `r` and its recorded
/// trace `t`: the trace is complete, its suspensions are accounted for, and
/// replaying the policy over the trace consumes every recorded probe and
/// reaches the verdict that `r` reports — a successful probe's value is
/// returned as is, a probe's error is passed on verbatim, and a timeout
/// verdict, which only a bounded run can report, surfaces as an error (the
/// one made by the action's `timeout_error`). An unbounded run therefore
/// reports a result only on a terminal probe answer.
pub open spec fn run_reported<T, E>(t: RunTrace<T, E>, r: Result<T, E>) -> bool {
    let end = run(t.timeout, t.outcomes, t.checks);
    &&& end.probes == t.outcomes.len()
    &&& trace_complete(t)
    &&& sleeps_accounted(t)
    &&& match end.verdict {
        Verdict::Success(v) => r == Ok::<T, E>(v),
        Verdict::Failure(e) => r == Err::<T, E>(e),
        Verdict::TimedOut => r is Err && t.timeout is Some,
    }
}

/// Replaying steps over pending answers: as long as every answer before `n`
/// was pending and its probe admitted, the replay from `i` ends where the
/// replay from `n` ends.
pub proof fn lemma_run_skips_pending<T, E>(
    timeout: Option<Duration>,
    outcomes: Seq<Result<Option<T>, E>>,
    checks: Seq<Duration>,
    i: nat,
    n: nat,
)
    requires
        i <= n <= outcomes.len(),
        forall|j: int| i <= j < n ==> outcomes[j] == Ok::<Option<T>, E>(None),
        forall|j: int| i <= j < n ==> probe_admitted(timeout, checks, j),
    ensures
        run_from(timeout, outcomes, checks, i) == run_from(timeout, outcomes, checks, n),
    decreases n - i,
{
    if i < n {
        assert(probe_admitted(timeout, checks, i as int));
        assert(outcomes[i as int] == Ok::<Option<T>, E>(None));
        lemma_run_skips_pending(timeout, outcomes, checks, (i + 1) as nat, n);
    }
}

/// Counting pending answers of a run with one more answer at its end.
pub(crate) proof fn lemma_pending_count_push<T, E>(
    outcomes: Seq<Result<Option<T>, E>>,
    r: Result<Option<T>, E>,
)
    ensures
        pending_count(outcomes.push(r)) == pending_count(outcomes) + (if r == Ok::<
            Option<T>,
            E,
        >(None) {
            1int
        } else {
            0int
        }),
{
    assert(outcomes.push(r).drop_last() =~= outcomes);
    assert(outcomes.push(r).last() == r);
}

/// A run of nothing but pending answers has as many pending answers as
/// probes.
pub(crate) proof fn lemma_pending_count_all_pending<T, E>(outcomes: Seq<Result<Option<T>, E>>)
    requires
        forall|j: int| 0 <= j < outcomes.len() ==> outcomes[j] == Ok::<Option<T>, E>(None),
    ensures
        pending_count(outcomes) == outcomes.len(),
    decreases outcomes.len(),
{
    if outcomes.len() > 0 {
        lemma_pending_count_all_pending(outcomes.drop_last());
    }
}

/// Law: no probe on an expired deadline. A bounded wait whose budget is zero,
/// or whose first stopwatch reading already lies strictly past the budget,
/// makes no probe at all: whatever the action would have answered, the run
/// times out after zero probes.
pub proof fn lemma_no_probe_on_expired_deadline<T, E>(
    budget: Duration,
    outcomes: Seq<Result<Option<T>, E>>,
    checks: Seq<Duration>,
)
    requires
        budget.nanos == 0 || (0 < checks.len() && budget.nanos < checks[0].nanos),
    ensures
        run(Some(budget), outcomes, checks) == (RunEnd::<T, E> {
            verdict: Verdict::TimedOut,
            probes: 0,
        }),
{
    assert(!probe_admitted(Some(budget), checks, 0));
}

/// Law: termination on success. If the first `k` answers of a run were
/// pending, the answer after them produced `v`, and every one of those `k + 1`
/// probes was admitted by its deadline check, the run returns exactly `v`
/// after exactly `k + 1` probes.
pub proof fn lemma_termination_on_success<T, E>(
    timeout: Option<Duration>,
    outcomes: Seq<Result<Option<T>, E>>,
    checks: Seq<Duration>,
    k: nat,
    v: T,
)
    requires
        k < outcomes.len(),
        forall|j: int| 0 <= j < k ==> outcomes[j] == Ok::<Option<T>, E>(None),
        outcomes[k as int] == Ok::<Option<T>, E>(Some(v)),
        forall|j: int| 0 <= j <= k ==> probe_admitted(timeout, checks, j),
    ensures
        run(timeout, outcomes, checks) == (RunEnd {
            verdict: Verdict::<T, E>::Success(v),
            probes: (k + 1) as nat,
        }),
{
    lemma_run_skips_pending(timeout, outcomes, checks, 0, k);
    assert(probe_admitted(timeout, checks, k as int));
}

/// Law: an error short-circuits. If the first `k` answers of a run were
/// pending and the answer after them failed with `e`, the run fails with
/// exactly `e` after exactly `k + 1` probes, regardless of the remaining
/// budget: the error is never replaced by a timeout and nothing is probed
/// after it.
pub proof fn lemma_error_short_circuits<T, E>(
    timeout: Option<Duration>,
    outcomes: Seq<Result<Option<T>, E>>,
    checks: Seq<Duration>,
    k: nat,
    e: E,
)
    requires
        k < outcomes.len(),
        forall|j: int| 0 <= j < k ==> outcomes[j] == Ok::<Option<T>, E>(None),
        outcomes[k as int] == Err::<Option<T>, E>(e),
        forall|j: int| 0 <= j <= k ==> probe_admitted(timeout, checks, j),
    ensures
        run(timeout, outcomes, checks) == (RunEnd {
            verdict: Verdict::<T, E>::Failure(e),
            probes: (k + 1) as nat,
        }),
{
    lemma_run_skips_pending(timeout, outcomes, checks, 0, k);
    assert(probe_admitted(timeout, checks, k as int));
}

/// Law: an unbounded wait loops until a terminal answer and never times out.
/// However many pending answers come first, once the action produces a value
/// the run returns it, with one probe per answer consumed.
pub proof fn lemma_unbounded_runs_until_terminal<T, E>(
    outcomes: Seq<Result<Option<T>, E>>,
    n: nat,
    v: T,
)
    requires
        n < outcomes.len(),
        forall|j: int| 0 <= j < n ==> outcomes[j] == Ok::<Option<T>, E>(None),
        outcomes[n as int] == Ok::<Option<T>, E>(Some(v)),
    ensures
        run(None::<Duration>, outcomes, Seq::empty()) == (RunEnd {
            verdict: Verdict::<T, E>::Success(v),
            probes: (n + 1) as nat,
        }),
        !(run(None::<Duration>, outcomes, Seq::empty()).verdict is TimedOut),
{
    lemma_termination_on_success(None::<Duration>, outcomes, Seq::empty(), n, v);
}

/// Law: delay spacing. Across any run whose suspensions are accounted for,
/// the total suspension requested is exactly the number of pending answers
/// times the configured delay — so the wall time of a wait with `k` pending
/// probes is at least `k` times the delay, as far as the suspension primitive
/// suspends for at least what it is asked.
pub proof fn lemma_delay_spacing<T, E>(t: RunTrace<T, E>)
    requires
        sleeps_accounted(t),
    ensures
        total_nanos(t.sleeps) == pending_count(t.outcomes) * t.delay.nanos,
{
    lemma_uniform_total(t.sleeps, t.delay);
}

/// The total of a sequence of equal spans is its length times the span.
proof fn lemma_uniform_total(spans: Seq<Duration>, d: Duration)
    requires
        forall|j: int| 0 <= j < spans.len() ==> spans[j] == d,
    ensures
        total_nanos(spans) == spans.len() * d.nanos,
    decreases spans.len(),
{
    if spans.len() > 0 {
        assert(spans.drop_last() =~= spans.subrange(0, spans.len() - 1));
        lemma_uniform_total(spans.drop_last(), d);
        assert(spans.len() * d.nanos == (spans.len() - 1) * d.nanos + d.nanos) by (nonlinear_arith);
    }
}

} // verus!
