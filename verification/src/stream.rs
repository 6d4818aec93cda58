//! The client-side stream façade: it maps the native audio API's
//! synchronous calls onto request/response round trips, caches the last
//! observed playback position to spare high-frequency pollers a round
//! trip, and owns the teardown handshake that keeps a stream's callback
//! bridge alive until its destroy call may return.

use vstd::prelude::*;

use crate::callback::BridgeShutdown;
use crate::errors::Error;
use crate::messages::ClientMessage;
use crate::messages::Device;
use crate::messages::ServerMessage;
use crate::messages::StreamCreate;
use crate::messages::StreamCreateParams;
use crate::messages::StreamInitParams;

verus! {

/// Age in milliseconds up to which a cached position may be extrapolated
/// instead of queried.
pub const POSITION_CACHE_WINDOW_MS: u64 = 10;

/// The extrapolated playback position: the last observed position plus
/// the frames the stream advances in `elapsed_ms` at `rate` frames per
/// second.
pub open spec fn spec_extrapolated(last_pos: u64, elapsed_ms: int, rate: u32) -> int {
    last_pos + (elapsed_ms * rate) / 1000
}

/// What one position query decides.
#[derive(Clone, Copy, Debug, PartialEq, Eq, Structural)]
pub enum PositionOutcome {
    /// The cached pair is fresh: answer with this extrapolated position,
    /// no round trip needed.
    Cached(u64),
    /// The cache is absent or stale: a full round trip must refresh it.
    NeedRoundTrip,
}

/// How far a stream's teardown has progressed.
#[derive(Clone, Copy, Debug, PartialEq, Eq, Structural)]
pub enum TeardownPhase {
    /// The stream is in service.
    Live,
    /// The destroy round trip has completed; the callback bridge may
    /// still be dispatching.
    DestroyAcked,
    /// The callback bridge has fully stopped; the destroy call may
    /// return.
    Complete,
}

/// One live stream as the client sees it.
pub struct ClientStream {
    /// The server-assigned token naming this stream on the connection.
    token: usize,
    /// The output sample rate, if the stream has an output direction.
    stream_output_rate: Option<u32>,
    /// Whether a device-changed callback is currently registered.
    device_change_enabled: bool,
    /// The last full round trip's observed position and its timestamp in
    /// milliseconds.
    cached_position: Option<(u64, u64)>,
    /// How many position queries were answered from the cache, out of
    /// how many attempted.
    cached_calls: (u64, u64),
    phase: TeardownPhase,
    bridge_stopped: bool,
}

impl ClientStream {
    pub closed spec fn spec_token(&self) -> usize {
        self.token
    }

    pub closed spec fn spec_rate(&self) -> Option<u32> {
        self.stream_output_rate
    }

    pub closed spec fn spec_device_change_enabled(&self) -> bool {
        self.device_change_enabled
    }

    pub closed spec fn spec_cached_position(&self) -> Option<(u64, u64)> {
        self.cached_position
    }

    /// Cache hits out of total position queries.
    pub closed spec fn spec_cached_calls(&self) -> (u64, u64) {
        self.cached_calls
    }

    pub closed spec fn spec_phase(&self) -> TeardownPhase {
        self.phase
    }

    /// Whether this stream's callback bridge has fully stopped.
    pub closed spec fn spec_bridge_stopped(&self) -> bool {
        self.bridge_stopped
    }

    /// A destroy call only ever returns after the callback bridge has
    /// stopped dispatching.
    pub open spec fn inv(&self) -> bool {
        self.spec_phase() is Complete ==> self.spec_bridge_stopped()
    }

    /// The server-assigned token naming this stream.
    pub fn stream_token(&self) -> (r: usize)
        ensures
            r == self.spec_token(),
    {
        self.token
    }

    /// Cache hits out of total position queries, as the stream reports
    /// them when it goes away.
    pub fn cached_call_counts(&self) -> (r: (u64, u64))
        ensures
            r == self.spec_cached_calls(),
    {
        self.cached_calls
    }

    /// How far this stream's teardown has progressed.
    pub fn teardown_phase(&self) -> (r: TeardownPhase)
        ensures
            r == self.spec_phase(),
    {
        self.phase
    }

    /// A stream fresh out of its create/init round trips.
    pub fn new(token: usize, stream_output_rate: Option<u32>) -> (r: ClientStream)
        ensures
            r.inv(),
            r.spec_token() == token,
            r.spec_rate() == stream_output_rate,
            !r.spec_device_change_enabled(),
            r.spec_cached_position() is None,
            r.spec_cached_calls() == (0u64, 0u64),
            r.spec_phase() is Live,
    {
        ClientStream {
            token,
            stream_output_rate,
            device_change_enabled: false,
            cached_position: None,
            cached_calls: (0, 0),
            phase: TeardownPhase::Live,
            bridge_stopped: false,
        }
    }

    /// Decides one position query at time `now_ms`: within the freshness
    /// window of the last full round trip the cached pair is extrapolated
    /// and counted as a hit; outside it the caller must make the round
    /// trip and report it through `position_update`.
    pub fn position_query(&mut self, now_ms: u64) -> (r: PositionOutcome)
        requires
            old(self).inv(),
            old(self).spec_cached_calls().1 < u64::MAX,
            old(self).spec_cached_calls().0 < u64::MAX,
            old(self).spec_cached_position() matches Some((p, t)) ==> {
                &&& now_ms >= t
                &&& (now_ms - t < POSITION_CACHE_WINDOW_MS ==> old(self).spec_rate() is Some
                    && spec_extrapolated(p, now_ms - t, old(self).spec_rate().unwrap())
                    <= u64::MAX)
            },
        ensures
            final(self).inv(),
            final(self).spec_token() == old(self).spec_token(),
            final(self).spec_rate() == old(self).spec_rate(),
            final(self).spec_cached_position() == old(self).spec_cached_position(),
            final(self).spec_phase() == old(self).spec_phase(),
            match old(self).spec_cached_position() {
                Some((p, t)) => {
                    if now_ms - t < POSITION_CACHE_WINDOW_MS {
                        &&& r == PositionOutcome::Cached(
                            spec_extrapolated(p, now_ms - t, old(self).spec_rate().unwrap()) as u64,
                        )
                        &&& final(self).spec_cached_calls() == (
                            (old(self).spec_cached_calls().0 + 1) as u64,
                            (old(self).spec_cached_calls().1 + 1) as u64,
                        )
                    } else {
                        &&& r == PositionOutcome::NeedRoundTrip
                        &&& final(self).spec_cached_calls() == old(self).spec_cached_calls()
                    }
                },
                None => {
                    &&& r == PositionOutcome::NeedRoundTrip
                    &&& final(self).spec_cached_calls() == old(self).spec_cached_calls()
                },
            },
    {
        if let Some((last_pos, last_time)) = self.cached_position {
            let elapsed: u64 = now_ms - last_time;
            if elapsed < POSITION_CACHE_WINDOW_MS {
                let rate = match self.stream_output_rate {
                    Some(rate) => rate,
                    None => 0,  // unreachable: the freshness window demands a rate
                };
                proof {
                    vstd::arithmetic::mul::lemma_mul_inequality(elapsed as int, 9, rate as int);
                }
                let advanced: u64 = (elapsed * (rate as u64)) / 1000;
                let current_pos: u64 = last_pos + advanced;
                self.cached_calls = (self.cached_calls.0 + 1, self.cached_calls.1 + 1);
                return PositionOutcome::Cached(current_pos);
            }
        }
        PositionOutcome::NeedRoundTrip
    }

    /// Records the position a full round trip observed at time `now_ms`,
    /// refreshing the cache and counting the query.
    pub fn position_update(&mut self, pos: u64, now_ms: u64)
        requires
            old(self).inv(),
            old(self).spec_cached_calls().1 < u64::MAX,
        ensures
            final(self).inv(),
            final(self).spec_token() == old(self).spec_token(),
            final(self).spec_rate() == old(self).spec_rate(),
            final(self).spec_cached_position() == Some((pos, now_ms)),
            final(self).spec_cached_calls() == (
                old(self).spec_cached_calls().0,
                (old(self).spec_cached_calls().1 + 1) as u64,
            ),
            final(self).spec_phase() == old(self).spec_phase(),
    {
        self.cached_position = Some((pos, now_ms));
        self.cached_calls = (self.cached_calls.0, self.cached_calls.1 + 1);
    }

    /// The request a position round trip sends.
    pub fn position_request(&self) -> (r: ServerMessage)
        ensures
            r == ServerMessage::StreamGetPosition(self.spec_token()),
    {
        ServerMessage::StreamGetPosition(self.token)
    }

    /// Interprets the response to a position round trip.
    pub fn position_response(&self, resp: &ClientMessage) -> (r: Result<(u64, u64), Error>)
        ensures
            match resp {
                ClientMessage::StreamPosition(pair) => r == Ok::<(u64, u64), Error>(*pair),
                ClientMessage::Error(c) => r == Err::<(u64, u64), Error>(Error::Backend(*c)),
                _ => r == Err::<(u64, u64), Error>(Error::Format),
            },
    {
        match resp {
            ClientMessage::StreamPosition(pair) => Ok(*pair),
            ClientMessage::Error(c) => Err(Error::Backend(*c)),
            _ => Err(Error::Format),
        }
    }

    /// The request a start call sends.
    pub fn start_request(&self) -> (r: ServerMessage)
        ensures
            r == ServerMessage::StreamStart(self.spec_token()),
    {
        ServerMessage::StreamStart(self.token)
    }

    /// Completes a start call: started if and only if the server said so.
    pub fn start(&self, resp: &ClientMessage) -> (r: Result<(), Error>)
        ensures
            r is Ok <==> resp is StreamStarted,
            match resp {
                ClientMessage::StreamStarted => r is Ok,
                ClientMessage::Error(c) => r == Err::<(), Error>(Error::Backend(*c)),
                _ => r == Err::<(), Error>(Error::Format),
            },
    {
        match resp {
            ClientMessage::StreamStarted => Ok(()),
            ClientMessage::Error(c) => Err(Error::Backend(*c)),
            _ => Err(Error::Format),
        }
    }

    /// The request a stop call sends.
    pub fn stop_request(&self) -> (r: ServerMessage)
        ensures
            r == ServerMessage::StreamStop(self.spec_token()),
    {
        ServerMessage::StreamStop(self.token)
    }

    /// Completes a stop call.
    pub fn stop(&self, resp: &ClientMessage) -> (r: Result<(), Error>)
        ensures
            r is Ok <==> resp is StreamStopped,
            match resp {
                ClientMessage::StreamStopped => r is Ok,
                ClientMessage::Error(c) => r == Err::<(), Error>(Error::Backend(*c)),
                _ => r == Err::<(), Error>(Error::Format),
            },
    {
        match resp {
            ClientMessage::StreamStopped => Ok(()),
            ClientMessage::Error(c) => Err(Error::Backend(*c)),
            _ => Err(Error::Format),
        }
    }

    /// The request a latency call sends.
    pub fn latency_request(&self) -> (r: ServerMessage)
        ensures
            r == ServerMessage::StreamGetLatency(self.spec_token()),
    {
        ServerMessage::StreamGetLatency(self.token)
    }

    /// Completes a latency call.
    pub fn latency(&self, resp: &ClientMessage) -> (r: Result<u32, Error>)
        ensures
            match resp {
                ClientMessage::StreamLatency(v) => r == Ok::<u32, Error>(*v),
                ClientMessage::Error(c) => r == Err::<u32, Error>(Error::Backend(*c)),
                _ => r == Err::<u32, Error>(Error::Format),
            },
    {
        match resp {
            ClientMessage::StreamLatency(v) => Ok(*v),
            ClientMessage::Error(c) => Err(Error::Backend(*c)),
            _ => Err(Error::Format),
        }
    }

    /// The request an input-latency call sends.
    pub fn input_latency_request(&self) -> (r: ServerMessage)
        ensures
            r == ServerMessage::StreamGetInputLatency(self.spec_token()),
    {
        ServerMessage::StreamGetInputLatency(self.token)
    }

    /// Completes an input-latency call.
    pub fn input_latency(&self, resp: &ClientMessage) -> (r: Result<u32, Error>)
        ensures
            match resp {
                ClientMessage::StreamInputLatency(v) => r == Ok::<u32, Error>(*v),
                ClientMessage::Error(c) => r == Err::<u32, Error>(Error::Backend(*c)),
                _ => r == Err::<u32, Error>(Error::Format),
            },
    {
        match resp {
            ClientMessage::StreamInputLatency(v) => Ok(*v),
            ClientMessage::Error(c) => Err(Error::Backend(*c)),
            _ => Err(Error::Format),
        }
    }

    /// The request a set-volume call sends; the volume travels as its raw
    /// bit pattern.
    pub fn set_volume_request(&self, volume_bits: u32) -> (r: ServerMessage)
        ensures
            r == ServerMessage::StreamSetVolume(self.spec_token(), volume_bits),
    {
        ServerMessage::StreamSetVolume(self.token, volume_bits)
    }

    /// Completes a set-volume call.
    pub fn set_volume(&self, resp: &ClientMessage) -> (r: Result<(), Error>)
        ensures
            r is Ok <==> resp is StreamVolumeSet,
            match resp {
                ClientMessage::StreamVolumeSet => r is Ok,
                ClientMessage::Error(c) => r == Err::<(), Error>(Error::Backend(*c)),
                _ => r == Err::<(), Error>(Error::Format),
            },
    {
        match resp {
            ClientMessage::StreamVolumeSet => Ok(()),
            ClientMessage::Error(c) => Err(Error::Backend(*c)),
            _ => Err(Error::Format),
        }
    }

    /// The request a set-name call sends. The name is the byte string of
    /// a C string, so it holds no interior zero byte.
    pub fn set_name_request(&self, name: Vec<u8>) -> (r: ServerMessage)
        requires
            !name@.contains(0u8),
        ensures
            r == ServerMessage::StreamSetName(self.spec_token(), name),
    {
        ServerMessage::StreamSetName(self.token, name)
    }

    /// Completes a set-name call.
    pub fn set_name(&self, resp: &ClientMessage) -> (r: Result<(), Error>)
        ensures
            r is Ok <==> resp is StreamNameSet,
            match resp {
                ClientMessage::StreamNameSet => r is Ok,
                ClientMessage::Error(c) => r == Err::<(), Error>(Error::Backend(*c)),
                _ => r == Err::<(), Error>(Error::Format),
            },
    {
        match resp {
            ClientMessage::StreamNameSet => Ok(()),
            ClientMessage::Error(c) => Err(Error::Backend(*c)),
            _ => Err(Error::Format),
        }
    }

    /// The request a current-device call sends.
    pub fn current_device_request(&self) -> (r: ServerMessage)
        ensures
            r == ServerMessage::StreamGetCurrentDevice(self.spec_token()),
    {
        ServerMessage::StreamGetCurrentDevice(self.token)
    }

    /// Completes a current-device call, yielding the device the server
    /// reported.
    pub fn current_device(&self, resp: ClientMessage) -> (r: Result<Device, Error>)
        ensures
            match resp {
                ClientMessage::StreamCurrentDevice(d) => r == Ok::<Device, Error>(d),
                ClientMessage::Error(c) => r == Err::<Device, Error>(Error::Backend(c)),
                _ => r == Err::<Device, Error>(Error::Format),
            },
    {
        match resp {
            ClientMessage::StreamCurrentDevice(d) => Ok(d),
            ClientMessage::Error(c) => Err(Error::Backend(c)),
            _ => Err(Error::Format),
        }
    }

    /// Registers (or, with `None` semantics, unregisters) the
    /// device-changed callback and yields the request that tells the
    /// server so: `enable` says whether a callback is now registered.
    pub fn register_device_changed_callback(&mut self, enable: bool) -> (r: ServerMessage)
        requires
            old(self).inv(),
        ensures
            final(self).inv(),
            final(self).spec_device_change_enabled() == enable,
            final(self).spec_token() == old(self).spec_token(),
            final(self).spec_rate() == old(self).spec_rate(),
            final(self).spec_cached_position() == old(self).spec_cached_position(),
            final(self).spec_cached_calls() == old(self).spec_cached_calls(),
            final(self).spec_phase() == old(self).spec_phase(),
            r == ServerMessage::StreamRegisterDeviceChangeCallback(old(self).spec_token(), enable),
    {
        self.device_change_enabled = enable;
        ServerMessage::StreamRegisterDeviceChangeCallback(self.token, enable)
    }

    /// Completes a device-change-registration call.
    pub fn device_change_registered(&self, resp: &ClientMessage) -> (r: Result<(), Error>)
        ensures
            r is Ok <==> resp is StreamRegisterDeviceChangeCallback,
            match resp {
                ClientMessage::StreamRegisterDeviceChangeCallback => r is Ok,
                ClientMessage::Error(c) => r == Err::<(), Error>(Error::Backend(*c)),
                _ => r == Err::<(), Error>(Error::Format),
            },
    {
        match resp {
            ClientMessage::StreamRegisterDeviceChangeCallback => Ok(()),
            ClientMessage::Error(c) => Err(Error::Backend(*c)),
            _ => Err(Error::Format),
        }
    }

    /// The request that begins tearing this stream down.
    pub fn destroy_request(&self) -> (r: ServerMessage)
        requires
            self.spec_phase() is Live,
        ensures
            r == ServerMessage::StreamDestroy(self.spec_token()),
    {
        ServerMessage::StreamDestroy(self.token)
    }

    /// Records the destroy round trip's completion. Teardown proceeds
    /// whatever the server answered; the result only reports what it was.
    pub fn destroy_acked(&mut self, resp: &ClientMessage) -> (r: Result<(), Error>)
        requires
            old(self).inv(),
            old(self).spec_phase() is Live,
        ensures
            final(self).inv(),
            final(self).spec_phase() is DestroyAcked,
            final(self).spec_bridge_stopped() == old(self).spec_bridge_stopped(),
            r is Ok <==> resp is StreamDestroyed,
            match resp {
                ClientMessage::StreamDestroyed => r is Ok,
                ClientMessage::Error(c) => r == Err::<(), Error>(Error::Backend(*c)),
                _ => r == Err::<(), Error>(Error::Format),
            },
    {
        self.phase = TeardownPhase::DestroyAcked;
        match resp {
            ClientMessage::StreamDestroyed => Ok(()),
            ClientMessage::Error(c) => Err(Error::Backend(*c)),
            _ => Err(Error::Format),
        }
    }

    /// Lets the destroy call return: it demands the witness that this
    /// stream's callback bridge has fully stopped dispatching, so no
    /// callback invocation can be observed afterwards.
    pub fn finish_destroy(&mut self, shutdown: BridgeShutdown)
        requires
            old(self).inv(),
            old(self).spec_phase() is DestroyAcked,
            shutdown.valid(),
        ensures
            final(self).inv(),
            final(self).spec_phase() is Complete,
            final(self).spec_bridge_stopped(),
    {
        let _ = shutdown;
        self.bridge_stopped = true;
        self.phase = TeardownPhase::Complete;
    }
}

/// Teardown ordering: a stream whose destroy call has returned (its
/// teardown is complete) has its callback bridge stopped, so no callback
/// dispatch can be observed after the destroy call returns.
pub proof fn lemma_teardown_ordering(s: ClientStream)
    requires
        s.inv(),
        s.spec_phase() is Complete,
    ensures
        s.spec_bridge_stopped(),
{
}

/// Position-cache bound: within the freshness window, extrapolated
/// positions are monotonically non-decreasing in elapsed time and never
/// exceed the last observed position plus the window's worth of frames.
pub proof fn lemma_position_cache_bound(last_pos: u64, rate: u32, e1: int, e2: int)
    requires
        0 <= e1 <= e2 < POSITION_CACHE_WINDOW_MS,
    ensures
        spec_extrapolated(last_pos, e1, rate) <= spec_extrapolated(last_pos, e2, rate),
        spec_extrapolated(last_pos, e2, rate) <= last_pos + (POSITION_CACHE_WINDOW_MS * rate)
            / 1000,
{
    vstd::arithmetic::mul::lemma_mul_inequality(e1, e2, rate as int);
    vstd::arithmetic::div_mod::lemma_div_is_ordered(e1 * rate, e2 * rate, 1000);
    vstd::arithmetic::mul::lemma_mul_inequality(e2, POSITION_CACHE_WINDOW_MS as int, rate as int);
    vstd::arithmetic::div_mod::lemma_div_is_ordered(
        e2 * rate,
        POSITION_CACHE_WINDOW_MS * rate,
        1000,
    );
}

/// The stream-create request a stream-init call derives from its init
/// parameters: only the two per-direction formats travel.
pub fn make_create_params(init_params: &StreamInitParams) -> (r: StreamCreateParams)
    ensures
        r.input_stream_params == init_params.input_stream_params,
        r.output_stream_params == init_params.output_stream_params,
{
    StreamCreateParams {
        input_stream_params: init_params.input_stream_params,
        output_stream_params: init_params.output_stream_params,
    }
}

/// The output rate a stream remembers for position extrapolation: the
/// rate of its output direction, if it has one.
pub fn output_rate_of(init_params: &StreamInitParams) -> (r: Option<u32>)
    ensures
        match init_params.output_stream_params {
            Some(p) => r == Some(p.rate),
            None => r is None,
        },
{
    match &init_params.output_stream_params {
        Some(p) => Some(p.rate),
        None => None,
    }
}

/// Completes the stream-create round trip, yielding the token and the
/// callback-connection handle the server assigned.
pub fn stream_created(resp: ClientMessage) -> (r: Result<StreamCreate, Error>)
    ensures
        match resp {
            ClientMessage::StreamCreated(data) => r == Ok::<StreamCreate, Error>(data),
            ClientMessage::Error(c) => r == Err::<StreamCreate, Error>(Error::Backend(c)),
            _ => r == Err::<StreamCreate, Error>(Error::Format),
        },
{
    match resp {
        ClientMessage::StreamCreated(data) => Ok(data),
        ClientMessage::Error(c) => Err(Error::Backend(c)),
        _ => Err(Error::Format),
    }
}

/// Completes the stream-init round trip.
pub fn stream_initialized(resp: &ClientMessage) -> (r: Result<(), Error>)
    ensures
        r is Ok <==> resp is StreamInitialized,
        match resp {
            ClientMessage::StreamInitialized => r is Ok,
            ClientMessage::Error(c) => r == Err::<(), Error>(Error::Backend(*c)),
            _ => r == Err::<(), Error>(Error::Format),
        },
{
    match resp {
        ClientMessage::StreamInitialized => Ok(()),
        ClientMessage::Error(c) => Err(Error::Backend(*c)),
        _ => Err(Error::Format),
    }
}

} // verus!
