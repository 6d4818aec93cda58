//! The callback bridge: the RPC server role hosted in the client process,
//! through which the remote audio engine pushes data, state and
//! device-change events. Each event's buffer work is decided here; the
//! user's native callback itself runs outside, on a worker pool, and its
//! result is handed back to complete the event.

use vstd::prelude::*;

use crate::errors::Error;
use crate::handles::RemoteHandle;
use crate::messages::CallbackReq;
use crate::messages::CallbackResp;
use crate::shm::DataRanges;
use crate::shm::SharedMem;
use crate::shm::data_ranges;
use crate::shm::spec_write_at;

verus! {

/// What the bridge asks its surroundings to do for one incoming event.
#[derive(Debug, PartialEq, Eq)]
pub enum CallbackAction {
    /// Run the user's data callback. `input` is a copy of the input
    /// sub-range of the shared region, taken eagerly because the callback
    /// need not consume its input before the region is reused; the
    /// callback must fill `ranges.output_bytes` bytes of output.
    InvokeData { input: Vec<u8>, ranges: DataRanges },
    /// Run the user's state callback with this state code.
    InvokeState(u32),
    /// Run the registered device-changed callback, if any.
    InvokeDeviceChange,
    /// Map the shared-memory region this handle refers to, then install
    /// it with `install_shm`.
    MapSharedMem(RemoteHandle),
}

/// The client-side server of one stream's callback connection.
pub struct CallbackServer {
    shm: Option<SharedMem>,
    has_input: bool,
    running: bool,
}

/// Witness that one callback bridge has fully stopped dispatching. Only
/// `CallbackServer::shutdown` produces one.
pub struct BridgeShutdown {
    stopped: bool,
}

impl BridgeShutdown {
    /// A shutdown witness always records a stopped bridge.
    pub closed spec fn valid(&self) -> bool {
        self.stopped
    }
}

impl CallbackServer {
    /// The shared region, once one has been installed.
    pub closed spec fn spec_shm(&self) -> Option<SharedMem> {
        self.shm
    }

    /// Whether this stream delivers input data to its callback.
    pub closed spec fn spec_has_input(&self) -> bool {
        self.has_input
    }

    /// Whether the bridge still dispatches events.
    pub closed spec fn is_running(&self) -> bool {
        self.running
    }

    /// An installed region spans the fixed area size.
    pub open spec fn inv(&self) -> bool {
        self.spec_shm() matches Some(region) ==> region.well_formed()
    }

    /// Reads bytes out of the installed region, as the peer process,
    /// which maps the same memory, would see them.
    pub fn region_read(&self, offset: usize, len: usize) -> (r: Vec<u8>)
        requires
            self.inv(),
            self.spec_shm() is Some,
            offset + len <= crate::SHM_AREA_SIZE,
        ensures
            r@ =~= self.spec_shm().unwrap().view().subrange(offset as int, offset + len),
    {
        match &self.shm {
            Some(region) => region.read_at(offset, len),
            None => Vec::new(),
        }
    }

    /// Writes bytes into the installed region, as the peer process,
    /// which maps the same memory, would on its turn.
    pub fn region_write(&mut self, offset: usize, bytes: &Vec<u8>)
        requires
            old(self).inv(),
            old(self).spec_shm() is Some,
            offset + bytes@.len() <= crate::SHM_AREA_SIZE,
        ensures
            final(self).inv(),
            final(self).is_running() == old(self).is_running(),
            final(self).spec_has_input() == old(self).spec_has_input(),
            final(self).spec_shm() matches Some(region) && region.view() =~= spec_write_at(
                old(self).spec_shm().unwrap().view(),
                offset as int,
                bytes@,
            ),
    {
        match &mut self.shm {
            Some(region) => {
                region.write_at(offset, bytes);
            },
            None => {},
        }
    }

    /// A fresh bridge for one stream: no region installed yet;
    /// `has_input` says whether the stream has an input direction.
    pub fn new(has_input: bool) -> (r: CallbackServer)
        ensures
            r.inv(),
            r.is_running(),
            r.spec_has_input() == has_input,
            r.spec_shm() is None,
    {
        CallbackServer { shm: None, has_input, running: true }
    }

    /// Installs the mapped shared region delivered by a shared-memory
    /// event.
    pub fn install_shm(&mut self, region: SharedMem)
        requires
            old(self).inv(),
            region.well_formed(),
        ensures
            final(self).inv(),
            final(self).spec_shm() == Some(region),
            final(self).spec_has_input() == old(self).spec_has_input(),
            final(self).is_running() == old(self).is_running(),
    {
        self.shm = Some(region);
    }

    /// Decides the work one incoming event needs. For a data event the
    /// input sub-range is copied out of the shared region here and now;
    /// a working set larger than the region is refused loudly.
    pub fn process(&mut self, req: CallbackReq) -> (r: Result<CallbackAction, Error>)
        requires
            old(self).inv(),
            old(self).is_running(),
            req matches CallbackReq::Data { nframes, input_frame_size, output_frame_size } ==> {
                &&& nframes >= 0
                &&& old(self).spec_shm() is Some
                &&& (old(self).spec_has_input() ==> input_frame_size > 0)
            },
        ensures
            final(self).inv(),
            final(self).is_running(),
            final(self).spec_shm() == old(self).spec_shm(),
            final(self).spec_has_input() == old(self).spec_has_input(),
            match req {
                CallbackReq::Data { nframes, input_frame_size, output_frame_size } => {
                    match r {
                        Ok(action) => {
                            &&& action matches CallbackAction::InvokeData { input, ranges }
                            &&& ranges.input_bytes == nframes * input_frame_size
                            &&& ranges.output_bytes == nframes * output_frame_size
                            &&& ranges.input_bytes + ranges.output_bytes <= crate::SHM_AREA_SIZE
                            &&& (old(self).spec_has_input() ==> input@ =~= old(
                                self,
                            ).spec_shm().unwrap().view().subrange(0, ranges.input_bytes as int))
                            &&& (!old(self).spec_has_input() ==> input@ =~= Seq::<u8>::empty())
                        },
                        Err(e) => {
                            &&& e == Error::RegionOverflow
                            &&& nframes * input_frame_size + nframes * output_frame_size
                                > crate::SHM_AREA_SIZE
                        },
                    }
                },
                CallbackReq::State(code) => r == Ok::<CallbackAction, Error>(
                    CallbackAction::InvokeState(code),
                ),
                CallbackReq::DeviceChange => r == Ok::<CallbackAction, Error>(
                    CallbackAction::InvokeDeviceChange,
                ),
                CallbackReq::SharedMem(handle) => r matches Ok(
                    CallbackAction::MapSharedMem(h),
                ) && h == handle,
            },
    {
        match req {
            CallbackReq::Data { nframes, input_frame_size, output_frame_size } => {
                let frames: usize = nframes as usize;
                let ranges = match data_ranges(frames, input_frame_size, output_frame_size) {
                    Some(ranges) => ranges,
                    None => {
                        return Err(Error::RegionOverflow);
                    },
                };
                let input: Vec<u8> = if self.has_input {
                    match &self.shm {
                        Some(region) => region.read_at(0, ranges.input_bytes),
                        None => Vec::new(),
                    }
                } else {
                    Vec::new()
                };
                Ok(CallbackAction::InvokeData { input, ranges })
            },
            CallbackReq::State(code) => Ok(CallbackAction::InvokeState(code)),
            CallbackReq::DeviceChange => Ok(CallbackAction::InvokeDeviceChange),
            CallbackReq::SharedMem(handle) => Ok(CallbackAction::MapSharedMem(handle)),
        }
    }

    /// Completes a data event once the user callback has filled its
    /// output: the produced bytes are written into the output sub-range
    /// of the shared region (leaving the input sub-range untouched), and
    /// the response carries the produced frame count back.
    pub fn complete_data(&mut self, ranges: DataRanges, output: &Vec<u8>, frames_produced: isize)
        -> (r: CallbackResp)
        requires
            old(self).inv(),
            old(self).is_running(),
            old(self).spec_shm() is Some,
            ranges.input_bytes + ranges.output_bytes <= crate::SHM_AREA_SIZE,
            output@.len() == ranges.output_bytes,
        ensures
            final(self).inv(),
            final(self).is_running() == old(self).is_running(),
            final(self).spec_has_input() == old(self).spec_has_input(),
            final(self).spec_shm() matches Some(region) && region.view() =~= spec_write_at(
                old(self).spec_shm().unwrap().view(),
                ranges.input_bytes as int,
                output@,
            ),
            r == CallbackResp::Data(frames_produced),
    {
        match &mut self.shm {
            Some(region) => {
                region.write_at(ranges.input_bytes, output);
            },
            None => {},
        }
        CallbackResp::Data(frames_produced)
    }

    /// Completes a state event.
    pub fn complete_state(&self) -> (r: CallbackResp)
        ensures
            r == CallbackResp::State,
    {
        CallbackResp::State
    }

    /// Completes a device-change event.
    pub fn complete_device_change(&self) -> (r: CallbackResp)
        ensures
            r == CallbackResp::DeviceChange,
    {
        CallbackResp::DeviceChange
    }

    /// Completes a shared-memory event.
    pub fn complete_shared_mem(&self) -> (r: CallbackResp)
        ensures
            r == CallbackResp::SharedMem,
    {
        CallbackResp::SharedMem
    }

    /// Stops the bridge for good, consuming it so that no further event
    /// can be dispatched through it, and yields the witness the stream's
    /// teardown path blocks on.
    pub fn shutdown(self) -> (r: BridgeShutdown)
        ensures
            r.valid(),
    {
        BridgeShutdown { stopped: true }
    }
}

/// Shared-memory round trip through a data event: when the producer has
/// written a K-byte pattern into the input sub-range, the copy handed to
/// the consumer's callback is exactly that pattern; and the output the
/// callback produces is readable, byte for byte, in the output sub-range
/// the peer then reads.
pub proof fn lemma_data_event_roundtrip(region: Seq<u8>, pattern: Seq<u8>, produced: Seq<u8>)
    requires
        pattern.len() + produced.len() <= region.len(),
    ensures
        spec_write_at(region, 0, pattern).subrange(0, pattern.len() as int) =~= pattern,
        spec_write_at(spec_write_at(region, 0, pattern), pattern.len() as int, produced).subrange(
            pattern.len() as int,
            pattern.len() + produced.len() as int,
        ) =~= produced,
        spec_write_at(spec_write_at(region, 0, pattern), pattern.len() as int, produced).subrange(
            0,
            pattern.len() as int,
        ) =~= pattern,
{
}

} // verus!
