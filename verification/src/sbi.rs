//! Decisions behind the supervisor-binary-interface calls.
use vstd::prelude::*;

verus! {

/// Reason handed to the firmware's system reset when the kernel shuts down.
#[derive(Clone, Copy, Debug, PartialEq, Eq, Structural)]
pub enum ShutdownReason {
    /// A normal power-off.
    NoReason,
    /// A power-off after a failure.
    SystemFailure,
}

/// The reset reason of a shutdown, after a failure or not.
pub fn shutdown_reason(failure: bool) -> (reason: ShutdownReason)
    ensures
        reason == (if failure { ShutdownReason::SystemFailure } else { ShutdownReason::NoReason }),
{
    if !failure {
        ShutdownReason::NoReason
    } else {
        ShutdownReason::SystemFailure
    }
}

} // verus!
