//! The failure taxonomy of the bridge: what each failure is fatal to
//! decides how far it propagates.

use vstd::prelude::*;

verus! {

/// Failure surfaced to a blocking caller of the bridge.
#[derive(Clone, Copy, Debug, PartialEq, Eq, Structural)]
pub enum Error {
    /// I/O failure, malformed frame or decode failure: fatal to the whole
    /// connection.
    Transport,
    /// OS-level handle duplication failed: fatal to the in-flight call,
    /// the connection may remain usable.
    HandleDuplication,
    /// The peer closed the connection while a call was in flight.
    Cancelled,
    /// A response of a kind the request does not pair with: the message
    /// format is not version-tolerant, so this is unrecoverable.
    Format,
    /// The remote backend reported this error code.
    Backend(i32),
    /// A data callback's working set exceeds the fixed shared-memory
    /// region.
    RegionOverflow,
}

} // verus!
