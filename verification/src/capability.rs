use vstd::prelude::*;
use crate::duration::Duration;

verus! {

/// The contract a concrete waitable action satisfies to be driven by the wait
/// driver (the entry points `wait` through `wait_forever_with_delay`).
///
/// `T` is the final value of the action, `E` its error. The two accessors and
/// the error factory are read by the driver; `poll` is the one operation that
/// may change the action's state.
///
/// `poll` must not be called again once it has answered terminally — with
/// `Ok(Some(..))` or with `Err(..)`. The driver keeps that rule by shape:
/// every entry point consumes the action and returns at the first terminal
/// answer.
pub trait Waiter<T, E> {
    /// The timeout `default_wait_timeout` returns, as a specification value:
    /// the accessor is stable for a given action instance.
    spec fn spec_default_wait_timeout(&self) -> Option<Duration>;

    /// The delay `default_delay` returns, as a specification value: the
    /// accessor is stable for a given action instance.
    spec fn spec_default_delay(&self) -> Duration;

    /// The error `timeout_error` makes, as a specification value: the
    /// factory is pure — it may construct a fresh value each call, but always
    /// the same one for a given action instance.
    spec fn spec_timeout_error(&self) -> E;

    /// Timeout used by `wait`: the wait is bounded by this span when `Some`,
    /// unbounded when `None`.
    fn default_wait_timeout(&self) -> (r: Option<Duration>)
        ensures
            r == self.spec_default_wait_timeout(),
    ;

    /// Delay between two probes, used whenever the caller supplies none.
    fn default_delay(&self) -> (r: Duration)
        ensures
            r == self.spec_default_delay(),
    ;

    /// Probe the action once: `Ok(None)` means not finished yet, keep
    /// waiting; `Ok(Some(value))` means finished with `value`; `Err(..)`
    /// means failed. Completion and failure are terminal.
    fn poll(&mut self) -> Result<Option<T>, E>;

    /// The error a bounded wait returns when its deadline passes without a
    /// terminal answer from `poll`.
    fn timeout_error(&self) -> (r: E)
        ensures
            r == self.spec_timeout_error(),
    ;
}

/// Read-only view of the most recently observed intermediate state of the
/// resource being waited on.
///
/// `T` is the representation of the resource and need not match the final
/// type of the `Waiter`. The view is valid as of the last `poll` call and
/// reading it does not touch the termination protocol.
pub trait WaiterCurrentState<T> {
    /// Get the current representation of the resource.
    fn waiter_current_state(&self) -> &T;
}

} // verus!
