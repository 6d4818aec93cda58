//! Reactor threads and the cross-thread handoff of freshly built
//! transport endpoints. A connection is created on one thread but
//! serviced by a reactor thread; the creating thread must not proceed
//! until the reactor has fully registered the endpoint, or the peer could
//! see a connection that exists but cannot yet receive.

use vstd::prelude::*;

use crate::errors::Error;
use crate::handles::PlatformHandle;
use crate::handles::PlatformHandleType;

verus! {

/// The rendezvous that hands one transport endpoint to a reactor thread.
///
/// The initiating thread submits a registration task and blocks on a
/// one-shot completion signal; the reactor sends the signal only once the
/// endpoint is registered and able to receive. The signal therefore
/// carries the registration with it.
pub struct Handoff {
    registered: bool,
    signalled: bool,
}

impl Handoff {
    /// The completion signal is never sent before registration is done.
    pub open spec fn inv(&self) -> bool {
        self.is_signalled() ==> self.is_registered()
    }

    /// Whether the reactor has fully registered the endpoint.
    pub closed spec fn is_registered(&self) -> bool {
        self.registered
    }

    /// Whether the completion signal has been sent.
    pub closed spec fn is_signalled(&self) -> bool {
        self.signalled
    }

    /// A submitted registration task, not yet performed.
    pub fn submit() -> (r: Handoff)
        ensures
            r.inv(),
            !r.is_registered(),
            !r.is_signalled(),
    {
        Handoff { registered: false, signalled: false }
    }

    /// The reactor thread finishes registering the endpoint.
    pub fn register(&mut self)
        requires
            old(self).inv(),
        ensures
            final(self).inv(),
            final(self).is_registered(),
            final(self).is_signalled() == old(self).is_signalled(),
    {
        self.registered = true;
    }

    /// The reactor thread sends the completion signal. Refused until the
    /// endpoint is registered: this is the whole point of the rendezvous.
    pub fn signal(&mut self)
        requires
            old(self).inv(),
            old(self).is_registered(),
        ensures
            final(self).inv(),
            final(self).is_registered(),
            final(self).is_signalled(),
    {
        self.signalled = true;
    }

    /// The initiating thread's blocking wait returns: the signal has been
    /// observed, so the endpoint is registered and able to receive.
    pub fn complete_wait(&self) -> (r: bool)
        requires
            self.inv(),
        ensures
            r == self.is_signalled(),
            r ==> self.is_registered(),
    {
        self.signalled
    }
}

/// Connection handoff safety: once the completion signal a creating
/// thread blocks on has been sent, the endpoint is registered, so a
/// freshly created connection can receive a request as soon as the
/// creating call returns.
pub proof fn lemma_connection_handoff_safety(h: Handoff)
    requires
        h.inv(),
        h.is_signalled(),
    ensures
        h.is_registered(),
{
}

/// One dedicated event-loop thread that owns transports.
#[derive(Clone, Copy, Debug, PartialEq, Eq, Structural)]
pub struct CoreThread {
    running: bool,
}

impl CoreThread {
    /// Whether the event loop is servicing its transports.
    pub closed spec fn is_running(&self) -> bool {
        self.running
    }

    /// A reactor thread that has started its event loop.
    pub fn started() -> (r: CoreThread)
        ensures
            r.is_running(),
    {
        CoreThread { running: true }
    }
}

/// The server runtime: one reactor for control connections and one for
/// callback connections.
pub struct ServerWrapper {
    pub core_thread: CoreThread,
    pub callback_thread: CoreThread,
}

/// Assembles the server runtime from the outcomes of spawning its two
/// reactor threads: a spawn failure is the runtime's failure, the
/// callback thread's reported first since it is spawned first.
pub fn run(callback_spawn: Result<CoreThread, Error>, core_spawn: Result<CoreThread, Error>) -> (r:
    Result<ServerWrapper, Error>)
    ensures
        match r {
            Ok(w) => {
                &&& callback_spawn matches Ok(t) && w.callback_thread == t
                &&& core_spawn matches Ok(t) && w.core_thread == t
            },
            Err(e) => {
                ||| callback_spawn == Err::<CoreThread, Error>(e)
                ||| (callback_spawn is Ok && core_spawn == Err::<CoreThread, Error>(e))
            },
        },
        r is Ok <==> (callback_spawn is Ok && core_spawn is Ok),
{
    let callback_thread = match callback_spawn {
        Ok(t) => t,
        Err(e) => {
            return Err(e);
        },
    };
    let core_thread = match core_spawn {
        Ok(t) => t,
        Err(e) => {
            return Err(e);
        },
    };
    Ok(ServerWrapper { core_thread, callback_thread })
}

/// Decides what a new-client request returns to the embedding caller:
/// the raw handle of the caller-side endpoint once the reactor-side
/// endpoint of the pair is registered (the handoff's wait has completed),
/// or the invalid-handle sentinel when the pair could not be created.
pub fn new_client_handle(pair: Result<PlatformHandle, Error>, handoff: &Handoff) -> (r:
    PlatformHandleType)
    requires
        handoff.inv(),
        pair matches Ok(h) ==> h.well_formed() && handoff.is_signalled(),
    ensures
        match pair {
            Ok(h) => r == h.spec_raw() && r >= 0 && handoff.is_registered(),
            Err(_) => r == -1,
        },
{
    match pair {
        Ok(h) => h.into_raw(),
        Err(_) => -1,
    }
}

/// Platform-specific initialization a server process must run before
/// serving: none is needed on this platform.
pub fn server_platform_init() {
}

} // verus!
