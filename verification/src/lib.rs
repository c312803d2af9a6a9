//! Wait until an asynchronous or external condition becomes true, or give up
//! after a timeout.
//!
//! A concrete waitable action implements the [`Waiter`] capability: two
//! configuration accessors, a timeout-error factory, and one mutating probe
//! operation, [`Waiter::poll`]. A [`WaitRun`] drives the poll/delay/timeout
//! policy for one such action, step by step: its constructors mirror the five
//! entry points (`wait`, `wait_for`, `wait_for_with_delay`, `wait_forever`,
//! `wait_forever_with_delay`), a bounded run admits each probe through
//! [`WaitRun::on_check`], every probe answer goes through
//! [`WaitRun::on_outcome`], and a refused check ends in
//! [`WaitRun::finish_timed_out`]. The caller's environment owns the loop's
//! clock, suspension primitive, and the probing itself; the machine owns
//! every decision.
//!
//! The machine records each run as a ghost [`RunTrace`], and its contracts
//! state that replaying the recorded probe answers and stopwatch readings
//! through the specification machine ([`run`]) yields exactly the result the
//! protocol told the caller to return. The laws of the loop — no probe on an
//! expired deadline, termination on success, error short-circuiting, waiting
//! unbounded until a terminal answer, and delay spacing — are proved over
//! that machine.

mod capability;
mod driver;
mod duration;
mod machine;

pub use capability::Waiter;
pub use capability::WaiterCurrentState;
pub use duration::Duration;
pub use duration::NANOS_PER_MILLI;
pub use duration::NANOS_PER_SEC;
pub use machine::RunEnd;
pub use machine::RunTrace;
pub use machine::Verdict;
pub use machine::lemma_delay_spacing;
pub use machine::lemma_error_short_circuits;
pub use machine::lemma_no_probe_on_expired_deadline;
pub use machine::lemma_run_skips_pending;
pub use machine::lemma_termination_on_success;
pub use machine::lemma_unbounded_runs_until_terminal;
pub use machine::may_probe;
pub use machine::pending_count;
pub use machine::probe_admitted;
pub use machine::run;
pub use machine::run_from;
pub use machine::run_reported;
pub use machine::sleeps_accounted;
pub use machine::timed_out;
pub use machine::total_nanos;
pub use machine::trace_complete;
pub use driver::Step;
pub use driver::WaitRun;
