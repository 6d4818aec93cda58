//! Client/server bridge for a remoted audio backend: framed message passing
//! with OS resource handles, a fixed-size shared-memory data plane, and the
//! synchronization protocols that keep blocking callers, reactor threads and
//! real-time callbacks in step.

use vstd::prelude::*;

pub mod callback;
pub mod codec;
pub mod errors;
mod handles;
pub mod messages;
pub mod reactor;
pub mod rpc;
pub mod shm;
pub mod stream;

pub use errors::Error;
pub use handles::PlatformHandle;
pub use handles::PlatformHandleType;
pub use handles::RemoteHandle;
pub use handles::valid_handle;
pub use messages::ClientMessage;
pub use messages::ServerMessage;

verus! {

/// Size in bytes of the shared-memory region used for bulk audio data.
pub const SHM_AREA_SIZE: usize = 2 * 1024 * 1024;

/// Sentinel wire value meaning "no handle accompanies this message".
pub const INVALID_HANDLE_VALUE: i64 = -1;

} // verus!
