//! The error taxonomy shared by the synchronization primitives.

use vstd::prelude::*;

verus! {

/// Why a synchronization operation did not deliver an element.
///
/// - `WouldBlock`: a non-blocking call could not proceed (the wait
///   predicate does not hold right now).
/// - `Timeout`: a deadline elapsed while waiting.
/// - `Poisoned`: a prior critical section terminated abnormally; the
///   caller must explicitly accept the recovered state or propagate.
/// - `Disconnected`: all counterpart endpoints have been dropped.
///
/// The in-process models in this crate report `WouldBlock` from their
/// non-blocking calls and `Timeout` from their deadline-bounded
/// decision steps; the blocking, lock-holding shells around them report
/// `Poisoned` and `Disconnected`.
#[derive(Clone, Copy, Debug, PartialEq, Eq, Structural)]
pub enum SyncError {
    WouldBlock,
    Timeout,
    Poisoned,
    Disconnected,
}

} // verus!
