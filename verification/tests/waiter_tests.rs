use std::cell::Cell;
use std::rc::Rc;

use waiter::Duration;
use waiter::Step;
use waiter::WaitRun;
use waiter::Waiter;
use waiter::WaiterCurrentState;

#[derive(Debug, PartialEq, Eq, Clone, Copy)]
enum DomainError {
    NotFound,
    OperationTimedOut,
}

/// Simulated clock: `elapsed` reads it, `sleep` advances it by exactly the
/// requested span and keeps a total of what was requested.
struct SimClock {
    now_nanos: u64,
    slept_nanos: u64,
}

impl SimClock {
    fn new() -> SimClock {
        SimClock { now_nanos: 0, slept_nanos: 0 }
    }

    fn starting_at(now_nanos: u64) -> SimClock {
        SimClock { now_nanos, slept_nanos: 0 }
    }

    fn elapsed(&self) -> Duration {
        Duration::from_nanos(self.now_nanos)
    }

    fn sleep(&mut self, d: Duration) {
        self.now_nanos += d.as_nanos();
        self.slept_nanos += d.as_nanos();
    }
}

/// Counts its polls; succeeds with the call count once it reaches `target`
/// (never, if `target` is 0 or out of reach).
struct Counter {
    target: u64,
    calls: u64,
    probes: Rc<Cell<u64>>,
    timeout: Option<Duration>,
    delay: Duration,
}

impl Counter {
    fn new(target: u64, timeout: Option<Duration>, delay: Duration) -> (Counter, Rc<Cell<u64>>) {
        let probes = Rc::new(Cell::new(0));
        let counter = Counter { target, calls: 0, probes: probes.clone(), timeout, delay };
        (counter, probes)
    }
}

impl Waiter<u64, DomainError> for Counter {
    // The trait's specification hooks compile to ordinary trait items; they
    // mirror the accessors and are never called at run time.
    fn spec_default_wait_timeout(&self) -> Option<Duration> {
        self.timeout
    }

    fn spec_default_delay(&self) -> Duration {
        self.delay
    }

    fn spec_timeout_error(&self) -> DomainError {
        DomainError::OperationTimedOut
    }

    fn default_wait_timeout(&self) -> Option<Duration> {
        self.timeout
    }

    fn default_delay(&self) -> Duration {
        self.delay
    }

    fn poll(&mut self) -> Result<Option<u64>, DomainError> {
        self.calls += 1;
        self.probes.set(self.calls);
        if self.calls == self.target {
            Ok(Some(self.calls))
        } else {
            Ok(None)
        }
    }

    fn timeout_error(&self) -> DomainError {
        DomainError::OperationTimedOut
    }
}

impl WaiterCurrentState<u64> for Counter {
    fn waiter_current_state(&self) -> &u64 {
        &self.calls
    }
}

/// Pending until poll number `fail_at`, which fails with `NotFound`.
struct Flaky {
    fail_at: u64,
    calls: u64,
    probes: Rc<Cell<u64>>,
    timeout: Option<Duration>,
    delay: Duration,
}

impl Flaky {
    fn new(fail_at: u64, timeout: Option<Duration>, delay: Duration) -> (Flaky, Rc<Cell<u64>>) {
        let probes = Rc::new(Cell::new(0));
        let flaky = Flaky { fail_at, calls: 0, probes: probes.clone(), timeout, delay };
        (flaky, probes)
    }
}

impl Waiter<u64, DomainError> for Flaky {
    // The trait's specification hooks compile to ordinary trait items; they
    // mirror the accessors and are never called at run time.
    fn spec_default_wait_timeout(&self) -> Option<Duration> {
        self.timeout
    }

    fn spec_default_delay(&self) -> Duration {
        self.delay
    }

    fn spec_timeout_error(&self) -> DomainError {
        DomainError::OperationTimedOut
    }

    fn default_wait_timeout(&self) -> Option<Duration> {
        self.timeout
    }

    fn default_delay(&self) -> Duration {
        self.delay
    }

    fn poll(&mut self) -> Result<Option<u64>, DomainError> {
        self.calls += 1;
        self.probes.set(self.calls);
        if self.calls == self.fail_at {
            Err(DomainError::NotFound)
        } else {
            Ok(None)
        }
    }

    fn timeout_error(&self) -> DomainError {
        DomainError::OperationTimedOut
    }
}

/// The caller's side of the protocol: read the clock, check, probe, suspend,
/// as the machine directs, until the wait is over.
fn drive<T, E, W: Waiter<T, E>>(
    mut action: W,
    mut run: WaitRun<T, E>,
    clock: &mut SimClock,
) -> Result<T, E> {
    loop {
        if run.timeout.is_some() {
            let elapsed = clock.elapsed();
            if !run.on_check(elapsed) {
                let (result, _trace) = run.finish_timed_out(&action);
                return result;
            }
        }
        let outcome = action.poll();
        match run.on_outcome(outcome) {
            Step::Retry => {
                let delay = run.delay;
                clock.sleep(delay);
            }
            Step::Complete(value) => return Ok(value),
            Step::Fail(error) => return Err(error),
        }
    }
}

fn millis(n: u64) -> Duration {
    Duration::from_millis(n)
}

#[test]
fn zero_budget_makes_no_probe() {
    let (counter, probes) = Counter::new(0, None, millis(10));
    let run = WaitRun::wait_for(&counter, Duration::zero());
    let mut clock = SimClock::new();
    let result = drive(counter, run, &mut clock);
    assert_eq!(result, Err(DomainError::OperationTimedOut));
    assert_eq!(probes.get(), 0);
    assert_eq!(clock.slept_nanos, 0);
}

#[test]
fn expired_deadline_makes_no_probe() {
    let (counter, probes) = Counter::new(0, None, millis(10));
    let run = WaitRun::wait_for(&counter, millis(5));
    let mut clock = SimClock::starting_at(7 * waiter::NANOS_PER_MILLI);
    let result = drive(counter, run, &mut clock);
    assert_eq!(result, Err(DomainError::OperationTimedOut));
    assert_eq!(probes.get(), 0);
}

#[test]
fn bounded_wait_returns_value_after_exact_probes() {
    let (counter, probes) = Counter::new(4, None, millis(10));
    let run = WaitRun::wait_for(&counter, millis(1000));
    let mut clock = SimClock::new();
    let result = drive(counter, run, &mut clock);
    assert_eq!(result, Ok(4));
    assert_eq!(probes.get(), 4);
}

#[test]
fn error_short_circuits_with_exactly_two_probes() {
    let (flaky, probes) = Flaky::new(2, None, millis(10));
    let run = WaitRun::wait_for(&flaky, millis(1000));
    let mut clock = SimClock::new();
    let result = drive(flaky, run, &mut clock);
    assert_eq!(result, Err(DomainError::NotFound));
    assert_ne!(result, Err(DomainError::OperationTimedOut));
    assert_eq!(probes.get(), 2);
}

#[test]
fn unbounded_wait_reaches_distant_success() {
    let (counter, probes) = Counter::new(1001, None, millis(1));
    let run = WaitRun::wait_forever(&counter);
    let mut clock = SimClock::new();
    let result = drive(counter, run, &mut clock);
    assert_eq!(result, Ok(1001));
    assert_eq!(probes.get(), 1001);
}

#[test]
fn delay_is_honored_between_probes() {
    let (counter, probes) = Counter::new(3, None, millis(10));
    let run = WaitRun::wait_for(&counter, millis(1000));
    let mut clock = SimClock::new();
    let result = drive(counter, run, &mut clock);
    assert_eq!(result, Ok(3));
    assert_eq!(probes.get(), 3);
    // two pending probes, so two suspensions of the full delay
    assert!(clock.slept_nanos >= 2 * 10 * waiter::NANOS_PER_MILLI);
}

#[test]
fn wait_with_default_timeout_succeeds() {
    let (counter, probes) = Counter::new(3, Some(Duration::from_secs(1)), millis(10));
    let run = WaitRun::wait(&counter);
    let mut clock = SimClock::new();
    let result = drive(counter, run, &mut clock);
    assert_eq!(result, Ok(3));
    assert_eq!(probes.get(), 3);
    assert!(clock.now_nanos >= 20 * waiter::NANOS_PER_MILLI);
}

#[test]
fn wait_with_short_default_timeout_times_out() {
    let (counter, _probes) = Counter::new(100, Some(millis(5)), millis(10));
    let run = WaitRun::wait(&counter);
    let mut clock = SimClock::new();
    let result = drive(counter, run, &mut clock);
    assert_eq!(result, Err(DomainError::OperationTimedOut));
}

#[test]
fn wait_forever_passes_first_error_on_without_delay() {
    let (flaky, probes) = Flaky::new(1, None, millis(10));
    let run = WaitRun::wait_forever(&flaky);
    let mut clock = SimClock::new();
    let result = drive(flaky, run, &mut clock);
    assert_eq!(result, Err(DomainError::NotFound));
    assert_eq!(probes.get(), 1);
    assert_eq!(clock.slept_nanos, 0);
}

#[test]
fn wait_with_no_default_timeout_is_unbounded() {
    let (counter, probes) = Counter::new(5, None, millis(10));
    let run = WaitRun::wait(&counter);
    let mut clock = SimClock::new();
    let result = drive(counter, run, &mut clock);
    assert_eq!(result, Ok(5));
    assert_eq!(probes.get(), 5);
}

#[test]
fn probe_exactly_at_deadline_is_admitted() {
    let (counter, probes) = Counter::new(2, None, millis(10));
    let run = WaitRun::wait_for_with_delay(millis(10), millis(10));
    let mut clock = SimClock::new();
    let result = drive(counter, run, &mut clock);
    assert_eq!(result, Ok(2));
    assert_eq!(probes.get(), 2);
}

#[test]
fn probe_past_deadline_is_refused() {
    let (counter, probes) = Counter::new(2, None, millis(11));
    let run = WaitRun::wait_for_with_delay(millis(10), millis(11));
    let mut clock = SimClock::new();
    let result = drive(counter, run, &mut clock);
    assert_eq!(result, Err(DomainError::OperationTimedOut));
    assert_eq!(probes.get(), 1);
}

#[test]
fn explicit_delay_overrides_default() {
    let (counter, probes) = Counter::new(3, None, millis(10));
    let run = WaitRun::wait_forever_with_delay(millis(25));
    let mut clock = SimClock::new();
    let result = drive(counter, run, &mut clock);
    assert_eq!(result, Ok(3));
    assert_eq!(probes.get(), 3);
    assert_eq!(clock.slept_nanos, 2 * 25 * waiter::NANOS_PER_MILLI);
}

#[test]
fn current_state_tracks_last_poll() {
    let (mut counter, _probes) = Counter::new(5, None, millis(10));
    assert_eq!(*counter.waiter_current_state(), 0);
    let _ = counter.poll();
    let _ = counter.poll();
    assert_eq!(*counter.waiter_current_state(), 2);
}

#[test]
fn durations_convert_between_units() {
    assert_eq!(Duration::from_millis(2).as_nanos(), 2_000_000);
    assert_eq!(Duration::from_secs(3).as_nanos(), 3_000_000_000);
    assert_eq!(Duration::from_nanos(7).as_nanos(), 7);
    assert!(Duration::zero().is_zero());
    assert!(!Duration::from_nanos(1).is_zero());
    assert_eq!(Duration::from_millis(1000), Duration::from_secs(1));
}
