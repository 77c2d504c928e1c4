//! Errors surfaced synchronously by the admin operations.

use vstd::prelude::*;

verus! {

/// Every failure an admin caller can see. The background snapshot job's own
/// failures are never surfaced here: the triggering call has already
/// returned by the time they can occur.
#[derive(Clone, Copy, Debug, PartialEq, Eq, Structural)]
pub enum AdminServiceError {
    /// Caller identifier unknown, or the supplied secret does not match.
    Unauthenticated,
    /// A snapshot was requested while one is already detected in progress.
    AlreadyInProgress,
    /// The downstream replay channel's receiver is gone.
    ChannelClosed,
    /// The filesystem probe for the snapshot marker itself failed.
    IoError,
}

} // verus!
