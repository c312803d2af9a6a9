use vstd::prelude::*;
use crate::capability::Waiter;
use crate::duration::Duration;
use crate::machine::RunTrace;
use crate::machine::lemma_pending_count_all_pending;
use crate::machine::lemma_pending_count_push;
use crate::machine::lemma_run_skips_pending;
use crate::machine::may_probe;
use crate::machine::probe_admitted;
use crate::machine::run_reported;
use crate::machine::timed_out;

verus! {

/// What the driver asks of its caller after absorbing one probe answer.
pub enum Step<T, E> {
    /// The answer was pending: suspend for the run's delay, then go round
    /// again (bounded runs read the stopwatch and check the deadline first).
    Retry,
    /// The action completed with this value: the wait is over, return it.
    Complete(T),
    /// The action failed with this error: the wait is over, pass it on
    /// verbatim — a failure is never replaced by a timeout.
    Fail(E),
}

/// One wait invocation, driven step by step.
///
/// The loop itself lives with the caller, whose environment owns the clock,
/// the suspension primitive, and the action's `poll` — none of which this
/// library performs. The machine makes every decision of the loop and records
/// the run as it goes. A bounded caller hands each stopwatch reading to
/// [`WaitRun::on_check`] and probes only when that admits it; every probe
/// answer goes through [`WaitRun::on_outcome`], whose step is binding; a
/// refused check ends in [`WaitRun::finish_timed_out`]. The contracts promise
/// that the recorded trace replays through the specification machine to
/// exactly the result the protocol told the caller to return.
///
/// A terminal answer ends the protocol: once `on_outcome` has absorbed a
/// completion or a failure, the run's record holds a terminal answer and
/// neither `on_check` nor `on_outcome` admits the run again — the action is
/// never probed past its terminal answer.
pub struct WaitRun<T, E> {
    /// Budget of the run: bounded by this span when `Some`, unbounded when
    /// `None`.
    pub timeout: Option<Duration>,
    /// Pause the caller is asked to take between two probes.
    pub delay: Duration,
    /// The record of the run so far.
    pub trace: Ghost<RunTrace<T, E>>,
}

impl<T, E> WaitRun<T, E> {
    /// The trace is the machine's own record: it carries the run's policy,
    /// every answer so far was pending, every stopwatch reading so far was
    /// within the budget, and one suspension of exactly the delay was
    /// requested per pending answer (an unbounded run reads no stopwatch).
    pub open spec fn wf(&self) -> bool {
        &&& self.trace@.timeout == self.timeout
        &&& self.trace@.delay == self.delay
        &&& forall|j: int|
            0 <= j < self.trace@.outcomes.len() ==> self.trace@.outcomes[j] == Ok::<
                Option<T>,
                E,
            >(None)
        &&& self.trace@.sleeps.len() == self.trace@.outcomes.len()
        &&& forall|j: int| 0 <= j < self.trace@.sleeps.len() ==> self.trace@.sleeps[j] == self.delay
        &&& match self.timeout {
            None => self.trace@.checks.len() == 0,
            Some(_) => forall|j: int|
                0 <= j < self.trace@.checks.len() ==> may_probe(
                    self.timeout,
                    self.trace@.checks[j],
                ),
        }
    }

    /// Ready for the next round: the stopwatch readings cover exactly the
    /// probes made, so a bounded run must pass `on_check` before it probes
    /// again.
    pub open spec fn ready(&self) -> bool {
        &&& self.wf()
        &&& (self.timeout is Some ==> self.trace@.checks.len() == self.trace@.outcomes.len())
    }

    /// A deadline check has admitted the next probe and no answer has been
    /// absorbed for it yet.
    pub open spec fn checked(&self) -> bool {
        &&& self.wf()
        &&& self.timeout is Some
        &&& self.trace@.checks.len() == self.trace@.outcomes.len() + 1
    }

    /// The machine awaits a probe answer: a bounded run has passed its
    /// deadline check, an unbounded run probes without one.
    pub open spec fn awaiting_probe(&self) -> bool {
        match self.timeout {
            Some(_) => self.checked(),
            None => self.ready(),
        }
    }

    /// Number of probes made so far.
    pub open spec fn probes(&self) -> nat {
        self.trace@.outcomes.len()
    }

    /// Begin a run under the given policy: the general form behind the five
    /// entry-point constructors.
    pub fn begin(timeout: Option<Duration>, delay: Duration) -> (s: Self)
        ensures
            s.ready(),
            s.probes() == 0,
            s.timeout == timeout,
            s.delay == delay,
    {
        WaitRun {
            timeout,
            delay,
            trace: Ghost(
                RunTrace {
                    timeout,
                    delay,
                    checks: Seq::empty(),
                    outcomes: Seq::empty(),
                    sleeps: Seq::empty(),
                },
            ),
        }
    }

    /// Begin waiting for the action's default amount of time: bounded by its
    /// `default_wait_timeout()` when that is `Some`, unbounded when it is
    /// `None`, with its default delay between probes.
    pub fn wait<W: Waiter<T, E>>(action: &W) -> (s: Self)
        ensures
            s.ready(),
            s.probes() == 0,
            s.timeout == action.spec_default_wait_timeout(),
            s.delay == action.spec_default_delay(),
    {
        let timeout = action.default_wait_timeout();
        let delay = action.default_delay();
        Self::begin(timeout, delay)
    }

    /// Begin waiting for the given amount of time, with the action's default
    /// delay between probes.
    pub fn wait_for<W: Waiter<T, E>>(action: &W, duration: Duration) -> (s: Self)
        ensures
            s.ready(),
            s.probes() == 0,
            s.timeout == Some(duration),
            s.delay == action.spec_default_delay(),
    {
        let delay = action.default_delay();
        Self::begin(Some(duration), delay)
    }

    /// Begin waiting for the given amount of time, with the given delay
    /// between probes.
    pub fn wait_for_with_delay(duration: Duration, delay: Duration) -> (s: Self)
        ensures
            s.ready(),
            s.probes() == 0,
            s.timeout == Some(duration),
            s.delay == delay,
    {
        Self::begin(Some(duration), delay)
    }

    /// Begin waiting forever, with the action's default delay between probes.
    pub fn wait_forever<W: Waiter<T, E>>(action: &W) -> (s: Self)
        ensures
            s.ready(),
            s.probes() == 0,
            s.timeout is None,
            s.delay == action.spec_default_delay(),
    {
        let delay = action.default_delay();
        Self::begin(None, delay)
    }

    /// Begin waiting forever, with the given delay between probes.
    pub fn wait_forever_with_delay(delay: Duration) -> (s: Self)
        ensures
            s.ready(),
            s.probes() == 0,
            s.timeout is None,
            s.delay == delay,
    {
        Self::begin(None, delay)
    }

    /// Bounded runs: absorb the stopwatch reading taken before the next
    /// probe — the check comes before each probe, never after. `true` admits
    /// one probe. `false` means the deadline has passed (or the budget was
    /// zero, which admits no probe at all): the caller makes no further probe
    /// and ends the run with `finish_timed_out`.
    pub fn on_check(&mut self, elapsed: Duration) -> (proceed: bool)
        requires
            old(self).ready(),
            old(self).timeout is Some,
        ensures
            final(self).timeout == old(self).timeout,
            final(self).delay == old(self).delay,
            final(self).trace@.outcomes == old(self).trace@.outcomes,
            final(self).trace@.sleeps == old(self).trace@.sleeps,
            final(self).trace@.checks == old(self).trace@.checks.push(elapsed),
            final(self).probes() == old(self).probes(),
            proceed == may_probe(old(self).timeout, elapsed),
            proceed ==> final(self).checked(),
            !proceed ==> timed_out(final(self).trace@),
    {
        let ghost prior = self.trace@;
        let proceed = match self.timeout {
            None => true,
            Some(budget) => 0 < budget.nanos && elapsed.nanos <= budget.nanos,
        };
        proof {
            self.trace@ = RunTrace { checks: prior.checks.push(elapsed), ..prior };
            if !proceed {
                let t = self.trace@;
                assert forall|j: int| 0 <= j < t.outcomes.len() implies probe_admitted(
                    t.timeout,
                    t.checks,
                    j,
                ) by {
                    assert(t.checks[j] == prior.checks[j]);
                }
                lemma_run_skips_pending(t.timeout, t.outcomes, t.checks, 0, t.outcomes.len());
                assert(t.checks[t.outcomes.len() as int] == elapsed);
                assert(!probe_admitted(t.timeout, t.checks, t.outcomes.len() as int));
                lemma_pending_count_all_pending(t.outcomes);
            } else {
                assert forall|j: int| 0 <= j < self.trace@.checks.len() implies may_probe(
                    self.timeout,
                    self.trace@.checks[j],
                ) by {
                    if j < prior.checks.len() {
                        assert(self.trace@.checks[j] == prior.checks[j]);
                    } else {
                        assert(self.trace@.checks[j] == elapsed);
                    }
                }
            }
        }
        proceed
    }

    /// Absorb one answer of `poll` (bounded runs: only after `on_check`
    /// admitted the probe). The step returned is binding: on `Retry` the
    /// caller suspends for the run's delay and goes round again; on
    /// `Complete` and `Fail` the answer was terminal — the wait is over with
    /// exactly that value or error, and the action must not be polled again.
    pub fn on_outcome(&mut self, outcome: Result<Option<T>, E>) -> (step: Step<T, E>)
        requires
            old(self).awaiting_probe(),
        ensures
            final(self).timeout == old(self).timeout,
            final(self).delay == old(self).delay,
            final(self).trace@.outcomes == old(self).trace@.outcomes.push(outcome),
            final(self).probes() == old(self).probes() + 1,
            match step {
                Step::Retry => outcome == Ok::<Option<T>, E>(None) && final(self).ready()
                    && final(self).trace@.sleeps == old(self).trace@.sleeps.push(old(self).delay),
                Step::Complete(v) => outcome == Ok::<Option<T>, E>(Some(v)) && run_reported(
                    final(self).trace@,
                    Ok::<T, E>(v),
                ),
                Step::Fail(e) => outcome == Err::<Option<T>, E>(e) && run_reported(
                    final(self).trace@,
                    Err::<T, E>(e),
                ),
            },
    {
        let ghost prior = self.trace@;
        let ghost n: int = prior.outcomes.len() as int;
        proof {
            self.trace@ = RunTrace { outcomes: prior.outcomes.push(outcome), ..prior };
            let t = self.trace@;
            assert forall|j: int| 0 <= j < n implies t.outcomes[j] == Ok::<Option<T>, E>(None) by {
                assert(t.outcomes[j] == prior.outcomes[j]);
            }
            assert forall|j: int| 0 <= j < n implies probe_admitted(t.timeout, t.checks, j) by {
                if t.timeout is Some {
                    assert(may_probe(t.timeout, t.checks[j]));
                }
            }
            assert(probe_admitted(t.timeout, t.checks, n));
            lemma_run_skips_pending(t.timeout, t.outcomes, t.checks, 0, n as nat);
            assert(t.outcomes[n] == outcome);
            lemma_pending_count_all_pending(prior.outcomes);
            lemma_pending_count_push(prior.outcomes, outcome);
        }
        match outcome {
            Ok(Some(value)) => Step::Complete(value),
            Ok(None) => {
                proof {
                    let pushed = self.trace@;
                    self.trace@ = RunTrace { sleeps: pushed.sleeps.push(self.delay), ..pushed };
                    assert forall|j: int| 0 <= j < self.trace@.sleeps.len() implies self.trace@.sleeps[j]
                        == self.delay by {
                        if j < pushed.sleeps.len() {
                            assert(self.trace@.sleeps[j] == pushed.sleeps[j]);
                        } else {
                            assert(self.trace@.sleeps[j] == self.delay);
                        }
                    }
                }
                Step::Retry
            },
            Err(e) => Step::Fail(e),
        }
    }

    /// End a timed-out run with the error the action makes for it: the result
    /// a bounded wait returns when `on_check` has refused. The timeout error
    /// is distinct from a domain failure — a pending bounded run that ran out
    /// of budget, never a failed probe and never an unbounded run, ends here.
    pub fn finish_timed_out<W: Waiter<T, E>>(self, action: &W) -> (out: (
        Result<T, E>,
        Ghost<RunTrace<T, E>>,
    ))
        requires
            timed_out(self.trace@),
        ensures
            out.0 == Err::<T, E>(action.spec_timeout_error()),
            out.1@ == self.trace@,
            run_reported(out.1@, out.0),
    {
        let err = action.timeout_error();
        self.finish_timed_out_with(err)
    }

    /// End a timed-out run with the given error — for realizations whose
    /// action stands outside the library's `Waiter` trait. The error should
    /// be the one the action's timeout-error factory makes, as
    /// `finish_timed_out` states by contract.
    pub fn finish_timed_out_with(self, error: E) -> (out: (
        Result<T, E>,
        Ghost<RunTrace<T, E>>,
    ))
        requires
            timed_out(self.trace@),
        ensures
            out.0 == Err::<T, E>(error),
            out.1@ == self.trace@,
            run_reported(out.1@, out.0),
    {
        (Err(error), Ghost(self.trace@))
    }
}

} // verus!


