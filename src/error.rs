//! Errors reported by the lock.
use vstd::prelude::*;

verus! {

/// What went wrong when a lock was acquired or a guard was checked.
#[derive(Debug, Clone, Copy, PartialEq, Eq, Structural)]
pub enum BravoRWlockErrorType {
    /// The underlying lock could not be set up.
    RWLockInitFail,
    /// Read access could not be had: the underlying lock is poisoned, or (for
    /// the non-blocking variant) a writer holds it.
    RWLockRLockFail,
    /// Write access could not be had: the underlying lock is poisoned, or (for
    /// the non-blocking variant) it is held or biased readers are in flight.
    RWLockWLockFail,
    /// A guard found the underlying lock poisoned when it was released.
    RWLockSyncFail,
    /// A state that the protocol rules out was met.
    RuntimeFail,
}

/// The result of an operation on a lock.
pub type BravoRWlockResult<T> = Result<T, BravoRWlockErrorType>;

} // verus!
