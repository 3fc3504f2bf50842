//! Error taxonomy of the kernel-object core.
//!
//! Every fallible operation reports one of these conditions to its caller;
//! the core never panics on a caller-triggered condition.

use vstd::prelude::*;

verus! {

/// A typed failure reported by the kernel-object core.
#[derive(Clone, Copy, Debug, PartialEq, Eq, Structural)]
pub enum ZxError {
    /// A required right is absent on the handle used for the operation.
    AccessDenied,
    /// The reference does not resolve to a live object of the expected kind.
    BadHandle,
    /// The other endpoint of the channel has no live reference remaining.
    PeerClosed,
    /// No message is currently available on a non-blocking read; the caller
    /// may retry later (this core never suspends).
    ShouldWait,
    /// A malformed rights combination, such as requesting rights not held.
    InvalidArgs,
}

/// Result type used throughout the kernel-object core.
pub type ZxResult<T> = Result<T, ZxError>;

} // verus!
