//! The closed sets of control-plane and callback-plane messages, and the
//! capability each message kind has (or has not) of carrying one OS
//! resource handle alongside its frame.

use vstd::prelude::*;

use crate::handles::PlatformHandle;
use crate::handles::PlatformHandleType;
use crate::handles::RemoteHandle;

verus! {

/// A device as reported to the client: optional output and input names.
#[derive(Clone, Debug, PartialEq, Eq)]
pub struct Device {
    pub output_name: Option<Vec<u8>>,
    pub input_name: Option<Vec<u8>>,
}

/// Description of one audio device, with plain numeric descriptors for the
/// backend's device type, state, preference and format words.
#[derive(Clone, Debug, PartialEq, Eq)]
pub struct DeviceInfo {
    pub devid: usize,
    pub device_id: Option<Vec<u8>>,
    pub friendly_name: Option<Vec<u8>>,
    pub group_id: Option<Vec<u8>>,
    pub vendor_name: Option<Vec<u8>>,

    pub device_type: u32,
    pub state: u32,
    pub preferred: u32,

    pub format: u32,
    pub default_format: u32,
    pub max_channels: u32,
    pub default_rate: u32,
    pub max_rate: u32,
    pub min_rate: u32,

    pub latency_lo: u32,
    pub latency_hi: u32,
}

/// Sample-format descriptor for one direction of a stream.
#[derive(Clone, Copy, Debug, PartialEq, Eq, Structural)]
pub struct StreamParams {
    pub format: u32,
    pub rate: u32,
    pub channels: u32,
    pub layout: u32,
    pub prefs: u32,
}

/// Parameters of a stream-create request: each direction is optional.
#[derive(Clone, Copy, Debug, PartialEq, Eq, Structural)]
pub struct StreamCreateParams {
    pub input_stream_params: Option<StreamParams>,
    pub output_stream_params: Option<StreamParams>,
}

/// Parameters of a stream-init request.
#[derive(Clone, Debug, PartialEq, Eq)]
pub struct StreamInitParams {
    pub stream_name: Option<Vec<u8>>,
    pub input_device: usize,
    pub input_stream_params: Option<StreamParams>,
    pub output_device: usize,
    pub output_stream_params: Option<StreamParams>,
    pub latency_frames: u32,
}

/// Payload of a successful stream-create response: the server-assigned
/// stream token and the handle of the callback connection's endpoint.
#[derive(Debug, PartialEq, Eq)]
pub struct StreamCreate {
    pub token: usize,
    pub platform_handle: RemoteHandle,
}

/// Payload of the response registering a device-collection-changed
/// callback connection.
#[derive(Debug, PartialEq, Eq)]
pub struct RegisterDeviceCollectionChanged {
    pub platform_handle: RemoteHandle,
}

/// Client-to-server requests on the control connection.
#[derive(Debug, PartialEq, Eq)]
pub enum ServerMessage {
    ClientConnect(u32),
    ClientDisconnect,

    ContextGetBackendId,
    ContextGetMaxChannelCount,
    ContextGetMinLatency(StreamParams),
    ContextGetPreferredSampleRate,
    ContextGetDeviceEnumeration(u32),
    ContextSetupDeviceCollectionCallback,
    ContextRegisterDeviceCollectionChanged(u32, bool),

    StreamCreate(StreamCreateParams),
    StreamInit(usize, StreamInitParams),
    StreamDestroy(usize),

    StreamStart(usize),
    StreamStop(usize),
    StreamGetPosition(usize),
    StreamGetLatency(usize),
    StreamGetInputLatency(usize),
    /// The volume travels as the raw bit pattern of the sample volume.
    StreamSetVolume(usize, u32),
    /// The name travels as bytes holding no interior zero byte.
    StreamSetName(usize, Vec<u8>),
    StreamGetCurrentDevice(usize),
    StreamRegisterDeviceChangeCallback(usize, bool),
}

/// Server-to-client responses on the control connection.
#[derive(Debug, PartialEq, Eq)]
pub enum ClientMessage {
    ClientConnected,
    ClientDisconnected,

    ContextBackendId(String),
    ContextMaxChannelCount(u32),
    ContextMinLatency(u32),
    ContextPreferredSampleRate(u32),
    ContextEnumeratedDevices(Vec<DeviceInfo>),
    ContextSetupDeviceCollectionCallback(RegisterDeviceCollectionChanged),
    ContextRegisteredDeviceCollectionChanged,

    StreamCreated(StreamCreate),
    StreamInitialized,
    StreamDestroyed,

    StreamStarted,
    StreamStopped,
    /// Position in frames, paired with the observation timestamp in
    /// milliseconds on the server's clock.
    StreamPosition((u64, u64)),
    StreamLatency(u32),
    StreamInputLatency(u32),
    StreamVolumeSet,
    StreamNameSet,
    StreamCurrentDevice(Device),
    StreamRegisterDeviceChangeCallback,

    Error(i32),
}

/// Server-to-client events on the callback connection.
#[derive(Debug, PartialEq, Eq)]
pub enum CallbackReq {
    Data { nframes: isize, input_frame_size: usize, output_frame_size: usize },
    State(u32),
    DeviceChange,
    SharedMem(RemoteHandle),
}

/// Client-to-server replies on the callback connection.
#[derive(Clone, Copy, Debug, PartialEq, Eq, Structural)]
pub enum CallbackResp {
    Data(isize),
    State,
    DeviceChange,
    SharedMem,
}

/// Events on the device-collection callback connection.
#[derive(Clone, Copy, Debug, PartialEq, Eq, Structural)]
pub enum DeviceCollectionReq {
    DeviceChange(u32),
}

/// Replies on the device-collection callback connection.
#[derive(Clone, Copy, Debug, PartialEq, Eq, Structural)]
pub enum DeviceCollectionResp {
    DeviceChange,
}

/// The pairing of the control protocol: which response kind completes
/// each request kind. Exactly one request kind corresponds to each
/// success response kind; the pairing is positional (one request awaits
/// one response), never by a correlation id. An error-code response is
/// not a match: it is the universal failure answer to any request.
pub open spec fn spec_matching_response(req: ServerMessage, resp: ClientMessage) -> bool {
    match (req, resp) {
        (ServerMessage::ClientConnect(_), ClientMessage::ClientConnected) => true,
        (ServerMessage::ClientDisconnect, ClientMessage::ClientDisconnected) => true,
        (ServerMessage::ContextGetBackendId, ClientMessage::ContextBackendId(_)) => true,
        (
            ServerMessage::ContextGetMaxChannelCount,
            ClientMessage::ContextMaxChannelCount(_),
        ) => true,
        (ServerMessage::ContextGetMinLatency(_), ClientMessage::ContextMinLatency(_)) => true,
        (
            ServerMessage::ContextGetPreferredSampleRate,
            ClientMessage::ContextPreferredSampleRate(_),
        ) => true,
        (
            ServerMessage::ContextGetDeviceEnumeration(_),
            ClientMessage::ContextEnumeratedDevices(_),
        ) => true,
        (
            ServerMessage::ContextSetupDeviceCollectionCallback,
            ClientMessage::ContextSetupDeviceCollectionCallback(_),
        ) => true,
        (
            ServerMessage::ContextRegisterDeviceCollectionChanged(_, _),
            ClientMessage::ContextRegisteredDeviceCollectionChanged,
        ) => true,
        (ServerMessage::StreamCreate(_), ClientMessage::StreamCreated(_)) => true,
        (ServerMessage::StreamInit(_, _), ClientMessage::StreamInitialized) => true,
        (ServerMessage::StreamDestroy(_), ClientMessage::StreamDestroyed) => true,
        (ServerMessage::StreamStart(_), ClientMessage::StreamStarted) => true,
        (ServerMessage::StreamStop(_), ClientMessage::StreamStopped) => true,
        (ServerMessage::StreamGetPosition(_), ClientMessage::StreamPosition(_)) => true,
        (ServerMessage::StreamGetLatency(_), ClientMessage::StreamLatency(_)) => true,
        (ServerMessage::StreamGetInputLatency(_), ClientMessage::StreamInputLatency(_)) => true,
        (ServerMessage::StreamSetVolume(_, _), ClientMessage::StreamVolumeSet) => true,
        (ServerMessage::StreamSetName(_, _), ClientMessage::StreamNameSet) => true,
        (
            ServerMessage::StreamGetCurrentDevice(_),
            ClientMessage::StreamCurrentDevice(_),
        ) => true,
        (
            ServerMessage::StreamRegisterDeviceChangeCallback(_, _),
            ClientMessage::StreamRegisterDeviceChangeCallback,
        ) => true,
        _ => false,
    }
}

/// Whether `resp` is the success response that completes `req`.
pub fn matches_response(req: &ServerMessage, resp: &ClientMessage) -> (r: bool)
    ensures
        r == spec_matching_response(*req, *resp),
{
    match (req, resp) {
        (ServerMessage::ClientConnect(_), ClientMessage::ClientConnected) => true,
        (ServerMessage::ClientDisconnect, ClientMessage::ClientDisconnected) => true,
        (ServerMessage::ContextGetBackendId, ClientMessage::ContextBackendId(_)) => true,
        (
            ServerMessage::ContextGetMaxChannelCount,
            ClientMessage::ContextMaxChannelCount(_),
        ) => true,
        (ServerMessage::ContextGetMinLatency(_), ClientMessage::ContextMinLatency(_)) => true,
        (
            ServerMessage::ContextGetPreferredSampleRate,
            ClientMessage::ContextPreferredSampleRate(_),
        ) => true,
        (
            ServerMessage::ContextGetDeviceEnumeration(_),
            ClientMessage::ContextEnumeratedDevices(_),
        ) => true,
        (
            ServerMessage::ContextSetupDeviceCollectionCallback,
            ClientMessage::ContextSetupDeviceCollectionCallback(_),
        ) => true,
        (
            ServerMessage::ContextRegisterDeviceCollectionChanged(_, _),
            ClientMessage::ContextRegisteredDeviceCollectionChanged,
        ) => true,
        (ServerMessage::StreamCreate(_), ClientMessage::StreamCreated(_)) => true,
        (ServerMessage::StreamInit(_, _), ClientMessage::StreamInitialized) => true,
        (ServerMessage::StreamDestroy(_), ClientMessage::StreamDestroyed) => true,
        (ServerMessage::StreamStart(_), ClientMessage::StreamStarted) => true,
        (ServerMessage::StreamStop(_), ClientMessage::StreamStopped) => true,
        (ServerMessage::StreamGetPosition(_), ClientMessage::StreamPosition(_)) => true,
        (ServerMessage::StreamGetLatency(_), ClientMessage::StreamLatency(_)) => true,
        (ServerMessage::StreamGetInputLatency(_), ClientMessage::StreamInputLatency(_)) => true,
        (ServerMessage::StreamSetVolume(_, _), ClientMessage::StreamVolumeSet) => true,
        (ServerMessage::StreamSetName(_, _), ClientMessage::StreamNameSet) => true,
        (
            ServerMessage::StreamGetCurrentDevice(_),
            ClientMessage::StreamCurrentDevice(_),
        ) => true,
        (
            ServerMessage::StreamRegisterDeviceChangeCallback(_, _),
            ClientMessage::StreamRegisterDeviceChangeCallback,
        ) => true,
        _ => false,
    }
}

/// An error-code response completes no request successfully: it is the
/// failure answer, whatever the request was.
pub proof fn lemma_error_response_matches_nothing(req: ServerMessage, code: i32)
    ensures
        !spec_matching_response(req, ClientMessage::Error(code)),
{
}

/// Whether a byte string can travel as a C string: it may hold no
/// interior zero byte. A name that fails this is refused rather than
/// silently truncated.
pub fn cstring_compatible(v: &Vec<u8>) -> (r: bool)
    ensures
        r == !v@.contains(0u8),
{
    let mut i: usize = 0;
    while i < v.len()
        invariant
            i <= v@.len(),
            forall|k: int| 0 <= k < i ==> v@[k] != 0u8,
        decreases v@.len() - i,
    {
        if v[i] == 0 {
            assert(v@.contains(0u8));
            return false;
        }
        i = i + 1;
    }
    proof {
        assert(!v@.contains(0u8));
    }
    true
}

/// Capability of a message kind to carry one OS resource handle beside its
/// frame. A kind that never carries one keeps the do-nothing behaviour;
/// the kinds that do say exactly which variants carry the handle, so that
/// the transport neither loses a handle nor invents one: a message that
/// declares a handle must be given exactly one on receipt, and sending one
/// relinquishes the sender's ownership of it.
pub trait AssocRawPlatformHandle: Sized {
    /// Whether this message declares that a handle accompanies it on the
    /// wire, so that one must be installed on receipt.
    spec fn expects_handle(&self) -> bool;

    /// The raw handle and destination process id that transmission hands
    /// to the transport, if this message carries a handle.
    spec fn handle_payload(&self) -> Option<(PlatformHandleType, u32)>;

    /// Whether a carried handle is populated and ready for transmission.
    spec fn ready_to_send(&self) -> bool;

    /// The message once transmission has relinquished its carried handle.
    spec fn after_handle_taken(&self) -> Self;

    /// The message once reception has installed the accompanying handle.
    spec fn with_installed(&self, h: Option<PlatformHandleType>) -> Self;

    /// Surrenders the carried handle (with its destination process id) to
    /// the transport for transmission; the message keeps no ownership of
    /// it afterwards.
    fn platform_handle(&mut self) -> (r: Option<(PlatformHandleType, u32)>)
        requires
            old(self).ready_to_send(),
        ensures
            r == old(self).handle_payload(),
            *final(self) == old(self).after_handle_taken(),
    ;

    /// Installs the handle that accompanied this message on the wire. It
    /// is a protocol violation for a handle-carrying message to arrive
    /// without one, or for any other message to arrive with one, so the
    /// accompanying handle must match what the message declares.
    fn take_platform_handle(&mut self, h: Option<PlatformHandleType>)
        requires
            old(self).expects_handle() <==> h is Some,
            h matches Some(v) ==> v >= 0,
        ensures
            *final(self) == old(self).with_installed(h),
    ;
}

impl AssocRawPlatformHandle for ServerMessage {
    open spec fn expects_handle(&self) -> bool {
        false
    }

    open spec fn handle_payload(&self) -> Option<(PlatformHandleType, u32)> {
        None
    }

    open spec fn ready_to_send(&self) -> bool {
        true
    }

    open spec fn after_handle_taken(&self) -> Self {
        *self
    }

    open spec fn with_installed(&self, h: Option<PlatformHandleType>) -> Self {
        *self
    }

    fn platform_handle(&mut self) -> (r: Option<(PlatformHandleType, u32)>) {
        None
    }

    fn take_platform_handle(&mut self, h: Option<PlatformHandleType>) {
    }
}

impl AssocRawPlatformHandle for ClientMessage {
    open spec fn expects_handle(&self) -> bool {
        self is StreamCreated || self is ContextSetupDeviceCollectionCallback
    }

    open spec fn handle_payload(&self) -> Option<(PlatformHandleType, u32)> {
        match self {
            ClientMessage::StreamCreated(data) => Some(
                (
                    data.platform_handle.local_handle.unwrap().spec_raw(),
                    data.platform_handle.target_pid.unwrap(),
                ),
            ),
            ClientMessage::ContextSetupDeviceCollectionCallback(data) => Some(
                (
                    data.platform_handle.local_handle.unwrap().spec_raw(),
                    data.platform_handle.target_pid.unwrap(),
                ),
            ),
            _ => None,
        }
    }

    open spec fn ready_to_send(&self) -> bool {
        match self {
            ClientMessage::StreamCreated(data) => data.platform_handle.ready_to_send(),
            ClientMessage::ContextSetupDeviceCollectionCallback(data) => data
                .platform_handle
                .ready_to_send(),
            _ => true,
        }
    }

    open spec fn after_handle_taken(&self) -> Self {
        match self {
            ClientMessage::StreamCreated(data) => ClientMessage::StreamCreated(
                StreamCreate {
                    token: data.token,
                    platform_handle: RemoteHandle {
                        local_handle: None,
                        remote_handle: data.platform_handle.remote_handle,
                        target_pid: data.platform_handle.target_pid,
                    },
                },
            ),
            ClientMessage::ContextSetupDeviceCollectionCallback(
                data,
            ) => ClientMessage::ContextSetupDeviceCollectionCallback(
                RegisterDeviceCollectionChanged {
                    platform_handle: RemoteHandle {
                        local_handle: None,
                        remote_handle: data.platform_handle.remote_handle,
                        target_pid: data.platform_handle.target_pid,
                    },
                },
            ),
            _ => *self,
        }
    }

    open spec fn with_installed(&self, h: Option<PlatformHandleType>) -> Self {
        match self {
            ClientMessage::StreamCreated(data) => ClientMessage::StreamCreated(
                StreamCreate {
                    token: data.token,
                    platform_handle: spec_installed_handle(h.unwrap()),
                },
            ),
            ClientMessage::ContextSetupDeviceCollectionCallback(
                _,
            ) => ClientMessage::ContextSetupDeviceCollectionCallback(
                RegisterDeviceCollectionChanged { platform_handle: spec_installed_handle(h.unwrap()) },
            ),
            _ => *self,
        }
    }

    fn platform_handle(&mut self) -> (r: Option<(PlatformHandleType, u32)>) {
        match self {
            ClientMessage::StreamCreated(data) => {
                let handle = data.platform_handle.local_handle.take().unwrap();
                let pid = data.platform_handle.target_pid.unwrap();
                Some((handle.into_raw(), pid))
            },
            ClientMessage::ContextSetupDeviceCollectionCallback(data) => {
                let handle = data.platform_handle.local_handle.take().unwrap();
                let pid = data.platform_handle.target_pid.unwrap();
                Some((handle.into_raw(), pid))
            },
            _ => None,
        }
    }

    fn take_platform_handle(&mut self, h: Option<PlatformHandleType>) {
        match self {
            ClientMessage::StreamCreated(data) => {
                let handle = h.unwrap();
                data.platform_handle = RemoteHandle::new_local(handle);
            },
            ClientMessage::ContextSetupDeviceCollectionCallback(data) => {
                let handle = h.unwrap();
                data.platform_handle = RemoteHandle::new_local(handle);
            },
            _ => {},
        }
    }
}

impl AssocRawPlatformHandle for CallbackReq {
    open spec fn expects_handle(&self) -> bool {
        self is SharedMem
    }

    open spec fn handle_payload(&self) -> Option<(PlatformHandleType, u32)> {
        match self {
            CallbackReq::SharedMem(data) => Some(
                (data.local_handle.unwrap().spec_raw(), data.target_pid.unwrap()),
            ),
            _ => None,
        }
    }

    open spec fn ready_to_send(&self) -> bool {
        match self {
            CallbackReq::SharedMem(data) => data.ready_to_send(),
            _ => true,
        }
    }

    open spec fn after_handle_taken(&self) -> Self {
        match self {
            CallbackReq::SharedMem(data) => CallbackReq::SharedMem(
                RemoteHandle {
                    local_handle: None,
                    remote_handle: data.remote_handle,
                    target_pid: data.target_pid,
                },
            ),
            _ => *self,
        }
    }

    open spec fn with_installed(&self, h: Option<PlatformHandleType>) -> Self {
        match self {
            CallbackReq::SharedMem(_) => CallbackReq::SharedMem(spec_installed_handle(h.unwrap())),
            _ => *self,
        }
    }

    fn platform_handle(&mut self) -> (r: Option<(PlatformHandleType, u32)>) {
        match self {
            CallbackReq::SharedMem(data) => {
                let handle = data.local_handle.take().unwrap();
                let pid = data.target_pid.unwrap();
                Some((handle.into_raw(), pid))
            },
            _ => None,
        }
    }

    fn take_platform_handle(&mut self, h: Option<PlatformHandleType>) {
        match self {
            CallbackReq::SharedMem(data) => {
                let handle = h.unwrap();
                *data = RemoteHandle::new_local(handle);
            },
            _ => {},
        }
    }
}

impl AssocRawPlatformHandle for CallbackResp {
    open spec fn expects_handle(&self) -> bool {
        false
    }

    open spec fn handle_payload(&self) -> Option<(PlatformHandleType, u32)> {
        None
    }

    open spec fn ready_to_send(&self) -> bool {
        true
    }

    open spec fn after_handle_taken(&self) -> Self {
        *self
    }

    open spec fn with_installed(&self, h: Option<PlatformHandleType>) -> Self {
        *self
    }

    fn platform_handle(&mut self) -> (r: Option<(PlatformHandleType, u32)>) {
        None
    }

    fn take_platform_handle(&mut self, h: Option<PlatformHandleType>) {
    }
}

impl AssocRawPlatformHandle for DeviceCollectionReq {
    open spec fn expects_handle(&self) -> bool {
        false
    }

    open spec fn handle_payload(&self) -> Option<(PlatformHandleType, u32)> {
        None
    }

    open spec fn ready_to_send(&self) -> bool {
        true
    }

    open spec fn after_handle_taken(&self) -> Self {
        *self
    }

    open spec fn with_installed(&self, h: Option<PlatformHandleType>) -> Self {
        *self
    }

    fn platform_handle(&mut self) -> (r: Option<(PlatformHandleType, u32)>) {
        None
    }

    fn take_platform_handle(&mut self, h: Option<PlatformHandleType>) {
    }
}

impl AssocRawPlatformHandle for DeviceCollectionResp {
    open spec fn expects_handle(&self) -> bool {
        false
    }

    open spec fn handle_payload(&self) -> Option<(PlatformHandleType, u32)> {
        None
    }

    open spec fn ready_to_send(&self) -> bool {
        true
    }

    open spec fn after_handle_taken(&self) -> Self {
        *self
    }

    open spec fn with_installed(&self, h: Option<PlatformHandleType>) -> Self {
        *self
    }

    fn platform_handle(&mut self) -> (r: Option<(PlatformHandleType, u32)>) {
        None
    }

    fn take_platform_handle(&mut self, h: Option<PlatformHandleType>) {
    }
}

/// The receiver-local form a freshly received handle takes: an owned local
/// handle, with no raw value and no destination process left.
pub open spec fn spec_installed_handle(raw: PlatformHandleType) -> RemoteHandle {
    RemoteHandle::spec_new_local(raw)
}

/// Handle transfer integrity on the control connection: transmitting a
/// handle-carrying message surrenders the sender's one owned handle to
/// the transport and leaves the message owning none, while installing the
/// received handle leaves the receiver's message owning exactly one valid
/// local handle, the one the transport delivered.
pub proof fn lemma_handle_transfer_integrity(m: ClientMessage, raw: PlatformHandleType)
    requires
        m.expects_handle(),
        m.ready_to_send(),
        raw >= 0,
    ensures
        m.handle_payload() matches Some((sent, _)) && sent == match m {
            ClientMessage::StreamCreated(data) => data.platform_handle.local_handle.unwrap().spec_raw(),
            ClientMessage::ContextSetupDeviceCollectionCallback(data) => data
                .platform_handle
                .local_handle
                .unwrap()
                .spec_raw(),
            _ => 0,
        },
        match m.after_handle_taken() {
            ClientMessage::StreamCreated(data) => data.platform_handle.local_handle is None,
            ClientMessage::ContextSetupDeviceCollectionCallback(data) => data
                .platform_handle
                .local_handle is None,
            _ => false,
        },
        match m.with_installed(Some(raw)) {
            ClientMessage::StreamCreated(data) => {
                &&& data.platform_handle.local_handle matches Some(h)
                &&& h.spec_raw() == raw
                &&& h.well_formed()
                &&& data.platform_handle.remote_handle is None
            },
            ClientMessage::ContextSetupDeviceCollectionCallback(data) => {
                &&& data.platform_handle.local_handle matches Some(h)
                &&& h.spec_raw() == raw
                &&& h.well_formed()
                &&& data.platform_handle.remote_handle is None
            },
            _ => false,
        },
{
    RemoteHandle::lemma_new_local(raw);
}

/// The same integrity on the callback connection's shared-memory event.
pub proof fn lemma_handle_transfer_integrity_callback(m: CallbackReq, raw: PlatformHandleType)
    requires
        m.expects_handle(),
        m.ready_to_send(),
        raw >= 0,
    ensures
        m.after_handle_taken() matches CallbackReq::SharedMem(h) && h.local_handle is None,
        m.with_installed(Some(raw)) matches CallbackReq::SharedMem(h) && {
            &&& h.local_handle matches Some(p)
            &&& p.spec_raw() == raw
            &&& p.well_formed()
            &&& h.remote_handle is None
        },
{
    RemoteHandle::lemma_new_local(raw);
}

} // verus!
