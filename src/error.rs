use vstd::prelude::*;

verus! {

/// A failure of the bridge itself: the unit of work could not be run, or its
/// result could not be delivered. Never produced by the work.
#[derive(Clone, Copy, Debug, PartialEq, Eq, Structural)]
pub enum InfraError {
    /// The pool has been shut down.
    PoolShutDown,
    /// The queue takes no more items (the pool is draining, or has run out
    /// of tickets).
    QueueClosed,
    /// The worker running the item failed before the work returned.
    WorkerFailure,
}

/// What the caller of the bridge receives when its work did not succeed: the
/// work's own error, verbatim, or a failure of the bridge, never conflated.
#[derive(Clone, Debug, PartialEq, Eq)]
pub enum BridgeError<E> {
    Domain(E),
    Infra(InfraError),
}

/// How one invocation of a unit of work ended, as the worker observed it.
pub enum WorkReport<T, E> {
    /// The work returned this result.
    Returned(Result<T, E>),
    /// The work failed unexpectedly (it panicked) before returning.
    Panicked,
}

/// What the awaiting caller receives for a report: the work's result passes
/// through unmodified, a failed worker becomes an infrastructure error.
pub open spec fn resolution<T, E>(report: WorkReport<T, E>) -> Result<T, BridgeError<E>> {
    match report {
        WorkReport::Returned(Ok(v)) => Ok(v),
        WorkReport::Returned(Err(e)) => Err(BridgeError::Domain(e)),
        WorkReport::Panicked => Err(BridgeError::Infra(InfraError::WorkerFailure)),
    }
}

/// Turns a worker's report into the value delivered to the caller.
pub fn resolve<T, E>(report: WorkReport<T, E>) -> (r: Result<T, BridgeError<E>>)
    ensures
        r == resolution(report),
{
    match report {
        WorkReport::Returned(Ok(v)) => Ok(v),
        WorkReport::Returned(Err(e)) => Err(BridgeError::Domain(e)),
        WorkReport::Panicked => Err(BridgeError::Infra(InfraError::WorkerFailure)),
    }
}

} // verus!
