//! Explicit failure modes of the toolkit.

use vstd::prelude::*;

verus! {

/// An error reported by a constructor or operation instead of producing a
/// silently wrong result.
#[derive(Clone, Copy, Debug, PartialEq, Eq, Structural)]
pub enum SignalError {
    /// A parameter outside the operation's mathematical domain, such as a
    /// sample rate of zero (a division by zero).
    DomainError,
    /// A delay that exceeds the signal's length, which the length arithmetic
    /// cannot accommodate.
    BoundsError,
}

} // verus!
