//! Length-delimited framing: one frame carries exactly one logical
//! message's payload, prefixed with its length as four big-endian bytes.
//! Decoding either yields the framed payload or reports that fewer bytes
//! than one whole frame are available.

use vstd::prelude::*;

use crate::handles::RemoteHandle;
use crate::messages::CallbackReq;
use crate::messages::CallbackResp;
use crate::messages::DeviceCollectionReq;
use crate::messages::DeviceCollectionResp;

verus! {

/// Bytes of the length prefix at the head of every frame.
pub const FRAME_HEADER_SIZE: usize = 4;

/// Largest payload a frame can declare.
pub const MAX_FRAME_PAYLOAD: usize = 0xFFFF_FFFF;

/// The four big-endian bytes of `x`.
pub open spec fn spec_u32_be(x: u32) -> Seq<u8> {
    seq![
        ((x >> 24) & 0xff) as u8,
        ((x >> 16) & 0xff) as u8,
        ((x >> 8) & 0xff) as u8,
        (x & 0xff) as u8,
    ]
}

/// The value read back from four big-endian bytes.
pub open spec fn spec_u32_from_be(b0: u8, b1: u8, b2: u8, b3: u8) -> u32 {
    (((b0 as u32) << 24) | ((b1 as u32) << 16) | ((b2 as u32) << 8) | (b3 as u32)) as u32
}

/// The frame that carries `payload`: its length, then the payload itself.
pub open spec fn spec_frame(payload: Seq<u8>) -> Seq<u8>
    recommends
        payload.len() <= MAX_FRAME_PAYLOAD,
{
    spec_u32_be(payload.len() as u32) + payload
}

/// What decoding sees at the head of `b`: `None` when fewer bytes than one
/// whole frame are available, else the framed payload and the number of
/// bytes the frame occupies.
pub open spec fn spec_decode_frame(b: Seq<u8>) -> Option<(Seq<u8>, int)> {
    if b.len() < FRAME_HEADER_SIZE {
        None
    } else {
        let n = spec_u32_from_be(b[0], b[1], b[2], b[3]) as int;
        if b.len() < FRAME_HEADER_SIZE + n {
            None
        } else {
            Some((b.subrange(FRAME_HEADER_SIZE as int, FRAME_HEADER_SIZE + n), FRAME_HEADER_SIZE + n))
        }
    }
}

/// Result of one decoding step over a byte buffer.
#[derive(Debug, PartialEq, Eq)]
pub enum DecodedFrame {
    /// Fewer bytes than one whole frame are available; no byte consumed.
    Incomplete,
    /// One whole frame was read: its payload, and how many bytes of the
    /// buffer it occupied.
    Frame { payload: Vec<u8>, consumed: usize },
}

/// Encodes one payload as one frame.
pub fn encode_frame(payload: &Vec<u8>) -> (r: Vec<u8>)
    requires
        payload.len() <= MAX_FRAME_PAYLOAD,
    ensures
        r@ == spec_frame(payload@),
        r@.len() == FRAME_HEADER_SIZE + payload@.len(),
{
    let n: u32 = payload.len() as u32;
    let mut out: Vec<u8> = Vec::new();
    out.push(((n >> 24) & 0xff) as u8);
    out.push(((n >> 16) & 0xff) as u8);
    out.push(((n >> 8) & 0xff) as u8);
    out.push((n & 0xff) as u8);
    let mut i: usize = 0;
    while i < payload.len()
        invariant
            i <= payload@.len(),
            payload@.len() <= MAX_FRAME_PAYLOAD,
            out@ == spec_u32_be(payload@.len() as u32) + payload@.subrange(0, i as int),
        decreases payload@.len() - i,
    {
        out.push(payload[i]);
        i = i + 1;
        proof {
            assert(payload@.subrange(0, i as int) =~= payload@.subrange(0, i - 1) + seq![
                payload@[i - 1],
            ]);
        }
    }
    proof {
        assert(payload@.subrange(0, payload@.len() as int) =~= payload@);
        assert(out@ =~= spec_frame(payload@));
    }
    out
}

/// Decodes at most one frame from the head of `buf`.
pub fn decode_frame(buf: &Vec<u8>) -> (r: DecodedFrame)
    ensures
        match r {
            DecodedFrame::Incomplete => spec_decode_frame(buf@) is None,
            DecodedFrame::Frame { payload, consumed } => {
                &&& spec_decode_frame(buf@) == Some((payload@, consumed as int))
                &&& consumed <= buf@.len()
            },
        },
{
    if buf.len() < FRAME_HEADER_SIZE {
        return DecodedFrame::Incomplete;
    }
    let n32: u32 = ((buf[0] as u32) << 24) | ((buf[1] as u32) << 16) | ((buf[2] as u32) << 8) | (
    buf[3] as u32);
    let n: usize = n32 as usize;
    if buf.len() - FRAME_HEADER_SIZE < n {
        return DecodedFrame::Incomplete;
    }
    let mut payload: Vec<u8> = Vec::new();
    let mut i: usize = 0;
    while i < n
        invariant
            i <= n,
            n + FRAME_HEADER_SIZE <= buf@.len() <= usize::MAX,
            payload@ == buf@.subrange(FRAME_HEADER_SIZE as int, FRAME_HEADER_SIZE + i),
        decreases n - i,
    {
        proof {
            assert(FRAME_HEADER_SIZE + i < buf@.len());
        }
        payload.push(buf[FRAME_HEADER_SIZE + i]);
        i = i + 1;
        proof {
            assert(buf@.subrange(FRAME_HEADER_SIZE as int, FRAME_HEADER_SIZE + i)
                =~= buf@.subrange(FRAME_HEADER_SIZE as int, FRAME_HEADER_SIZE + i - 1) + seq![
                buf@[FRAME_HEADER_SIZE + i - 1],
            ]);
        }
    }
    DecodedFrame::Frame { payload, consumed: FRAME_HEADER_SIZE + n }
}

/// Reading four big-endian bytes gives back the value they encode.
pub proof fn lemma_u32_be_roundtrip(x: u32)
    ensures
        spec_u32_from_be(
            ((x >> 24) & 0xff) as u8,
            ((x >> 16) & 0xff) as u8,
            ((x >> 8) & 0xff) as u8,
            (x & 0xff) as u8,
        ) == x,
{
    assert((((((x >> 24) & 0xff) as u8) as u32) << 24) | (((((x >> 16) & 0xff) as u8) as u32)
        << 16) | (((((x >> 8) & 0xff) as u8) as u32) << 8) | (((x & 0xff) as u8) as u32) == x)
        by (bit_vector);
}

/// A frame boundary is exactly one message: decoding a stream that starts
/// with the frame of `payload` yields that payload whole, consumes exactly
/// the frame, and leaves the rest of the stream untouched.
pub proof fn lemma_frame_roundtrip(payload: Seq<u8>, rest: Seq<u8>)
    requires
        payload.len() <= MAX_FRAME_PAYLOAD,
    ensures
        spec_decode_frame(spec_frame(payload) + rest) == Some(
            (payload, FRAME_HEADER_SIZE + payload.len()),
        ),
{
    let b = spec_frame(payload) + rest;
    let x = payload.len() as u32;
    lemma_u32_be_roundtrip(x);
    assert(b[0] == ((x >> 24) & 0xff) as u8);
    assert(b[1] == ((x >> 16) & 0xff) as u8);
    assert(b[2] == ((x >> 8) & 0xff) as u8);
    assert(b[3] == (x & 0xff) as u8);
    assert(spec_u32_from_be(b[0], b[1], b[2], b[3]) == payload.len());
    assert(b.subrange(FRAME_HEADER_SIZE as int, FRAME_HEADER_SIZE + payload.len()) =~= payload);
}

/// Decoding never invents bytes: a decoded payload is exactly the framed
/// slice of the buffer, and an incomplete signal consumes nothing.
pub proof fn lemma_decode_exact(b: Seq<u8>)
    ensures
        spec_decode_frame(b) matches Some((payload, consumed)) ==> {
            &&& FRAME_HEADER_SIZE <= consumed <= b.len()
            &&& payload =~= b.subrange(FRAME_HEADER_SIZE as int, consumed)
            &&& spec_frame(payload) =~= b.subrange(0, consumed)
        },
{
    if spec_decode_frame(b) is Some {
        let n = spec_u32_from_be(b[0], b[1], b[2], b[3]) as int;
        let payload = b.subrange(FRAME_HEADER_SIZE as int, FRAME_HEADER_SIZE + n);
        let x = payload.len() as u32;
        assert(payload.len() == n);
        assert(spec_u32_from_be(b[0], b[1], b[2], b[3]) == x);
        lemma_u32_be_inverse(b[0], b[1], b[2], b[3]);
        assert(spec_frame(payload) =~= b.subrange(0, FRAME_HEADER_SIZE + n));
    }
}

/// The eight big-endian bytes of `x`.
pub open spec fn spec_u64_be(x: u64) -> Seq<u8> {
    seq![
        ((x >> 56) & 0xff) as u8,
        ((x >> 48) & 0xff) as u8,
        ((x >> 40) & 0xff) as u8,
        ((x >> 32) & 0xff) as u8,
        ((x >> 24) & 0xff) as u8,
        ((x >> 16) & 0xff) as u8,
        ((x >> 8) & 0xff) as u8,
        (x & 0xff) as u8,
    ]
}

/// The value read back from eight big-endian bytes.
pub open spec fn spec_u64_from_be(b: Seq<u8>, off: int) -> u64
    recommends
        0 <= off,
        off + 8 <= b.len(),
{
    (((b[off] as u64) << 56) | ((b[off + 1] as u64) << 48) | ((b[off + 2] as u64) << 40) | ((b[off
        + 3] as u64) << 32) | ((b[off + 4] as u64) << 24) | ((b[off + 5] as u64) << 16) | ((b[off
        + 6] as u64) << 8) | (b[off + 7] as u64)) as u64
}

/// Reading eight big-endian bytes gives back the value they encode.
pub proof fn lemma_u64_be_roundtrip(x: u64)
    ensures
        spec_u64_from_be(spec_u64_be(x), 0) == x,
{
    let b = spec_u64_be(x);
    assert(((((((x >> 56) & 0xff) as u8) as u64) << 56) | (((((x >> 48) & 0xff) as u8) as u64)
        << 48) | (((((x >> 40) & 0xff) as u8) as u64) << 40) | (((((x >> 32) & 0xff) as u8) as u64)
        << 32) | (((((x >> 24) & 0xff) as u8) as u64) << 24) | (((((x >> 16) & 0xff) as u8) as u64)
        << 16) | (((((x >> 8) & 0xff) as u8) as u64) << 8) | (((x & 0xff) as u8) as u64)) == x)
        by (bit_vector);
}

/// Appends the eight big-endian bytes of `x`.
pub fn push_u64_be(out: &mut Vec<u8>, x: u64)
    ensures
        final(out)@ =~= old(out)@ + spec_u64_be(x),
{
    out.push(((x >> 56) & 0xff) as u8);
    out.push(((x >> 48) & 0xff) as u8);
    out.push(((x >> 40) & 0xff) as u8);
    out.push(((x >> 32) & 0xff) as u8);
    out.push(((x >> 24) & 0xff) as u8);
    out.push(((x >> 16) & 0xff) as u8);
    out.push(((x >> 8) & 0xff) as u8);
    out.push((x & 0xff) as u8);
}

/// Reads the eight big-endian bytes at `off`.
pub fn read_u64_be(b: &Vec<u8>, off: usize) -> (r: u64)
    requires
        off + 8 <= b@.len(),
    ensures
        r == spec_u64_from_be(b@, off as int),
{
    let n = b.len();
    proof {
        assert(off + 8 <= n);
    }
    ((b[off] as u64) << 56) | ((b[off + 1] as u64) << 48) | ((b[off + 2] as u64) << 40) | ((b[off
        + 3] as u64) << 32) | ((b[off + 4] as u64) << 24) | ((b[off + 5] as u64) << 16) | ((b[off
        + 6] as u64) << 8) | (b[off + 7] as u64)
}

/// Four bytes are recovered from the value they encode.
proof fn lemma_u32_be_inverse(b0: u8, b1: u8, b2: u8, b3: u8)
    ensures
        spec_u32_be(spec_u32_from_be(b0, b1, b2, b3)) == seq![b0, b1, b2, b3],
{
    let x = spec_u32_from_be(b0, b1, b2, b3);
    assert(((((((b0 as u32) << 24) | ((b1 as u32) << 16) | ((b2 as u32) << 8) | (b3 as u32)) as u32)
        >> 24) & 0xff) as u8 == b0) by (bit_vector);
    assert(((((((b0 as u32) << 24) | ((b1 as u32) << 16) | ((b2 as u32) << 8) | (b3 as u32)) as u32)
        >> 16) & 0xff) as u8 == b1) by (bit_vector);
    assert(((((((b0 as u32) << 24) | ((b1 as u32) << 16) | ((b2 as u32) << 8) | (b3 as u32)) as u32)
        >> 8) & 0xff) as u8 == b2) by (bit_vector);
    assert((((((b0 as u32) << 24) | ((b1 as u32) << 16) | ((b2 as u32) << 8) | (b3 as u32)) as u32)
        & 0xff) as u8 == b3) by (bit_vector);
    assert(spec_u32_be(x) =~= seq![b0, b1, b2, b3]);
}

/// Payload tag of a data event or reply.
pub const TAG_DATA: u8 = 0;

/// Payload tag of a state event or reply.
pub const TAG_STATE: u8 = 1;

/// Payload tag of a device-change event or reply.
pub const TAG_DEVICE_CHANGE: u8 = 2;

/// Payload tag of a shared-memory event or reply.
pub const TAG_SHARED_MEM: u8 = 3;

/// The payload bytes of one callback-connection event. A carried handle
/// travels as its 64-bit wire value; the real descriptor accompanies the
/// frame as the transport's ancillary data.
pub open spec fn spec_encode_callback_req(m: CallbackReq) -> Seq<u8> {
    match m {
        CallbackReq::Data { nframes, input_frame_size, output_frame_size } => seq![TAG_DATA]
            + spec_u64_be((nframes as i64) as u64) + spec_u64_be(input_frame_size as u64)
            + spec_u64_be(output_frame_size as u64),
        CallbackReq::State(code) => seq![TAG_STATE] + spec_u32_be(code),
        CallbackReq::DeviceChange => seq![TAG_DEVICE_CHANGE],
        CallbackReq::SharedMem(h) => seq![TAG_SHARED_MEM] + spec_u64_be(
            h.spec_wire_value() as u64,
        ),
    }
}

/// The event one payload decodes to, or `None` when the payload is
/// malformed: a malformed payload is fatal to the connection.
pub open spec fn spec_decode_callback_req(b: Seq<u8>) -> Option<CallbackReq> {
    if b.len() == 0 {
        None
    } else if b[0] == TAG_DATA {
        if b.len() == 25 {
            let nframes = spec_u64_from_be(b, 1) as i64;
            let ifs = spec_u64_from_be(b, 9);
            let ofs = spec_u64_from_be(b, 17);
            if isize::MIN <= nframes <= isize::MAX && ifs <= usize::MAX && ofs <= usize::MAX {
                Some(
                    CallbackReq::Data {
                        nframes: nframes as isize,
                        input_frame_size: ifs as usize,
                        output_frame_size: ofs as usize,
                    },
                )
            } else {
                None
            }
        } else {
            None
        }
    } else if b[0] == TAG_STATE {
        if b.len() == 5 {
            Some(CallbackReq::State(spec_u32_from_be(b[1], b[2], b[3], b[4])))
        } else {
            None
        }
    } else if b[0] == TAG_DEVICE_CHANGE {
        if b.len() == 1 {
            Some(CallbackReq::DeviceChange)
        } else {
            None
        }
    } else if b[0] == TAG_SHARED_MEM {
        if b.len() == 9 {
            let v = spec_u64_from_be(b, 1) as i64;
            if i32::MIN <= v <= i32::MAX {
                Some(CallbackReq::SharedMem(RemoteHandle::spec_new_remote(v as i32)))
            } else {
                None
            }
        } else {
            None
        }
    } else {
        None
    }
}

/// Encodes one callback-connection event.
pub fn encode_callback_req(m: &CallbackReq) -> (r: Vec<u8>)
    ensures
        r@ =~= spec_encode_callback_req(*m),
{
    let mut out: Vec<u8> = Vec::new();
    match m {
        CallbackReq::Data { nframes, input_frame_size, output_frame_size } => {
            out.push(TAG_DATA);
            push_u64_be(&mut out, (*nframes as i64) as u64);
            push_u64_be(&mut out, *input_frame_size as u64);
            push_u64_be(&mut out, *output_frame_size as u64);
        },
        CallbackReq::State(code) => {
            out.push(TAG_STATE);
            out.push(((*code >> 24) & 0xff) as u8);
            out.push(((*code >> 16) & 0xff) as u8);
            out.push(((*code >> 8) & 0xff) as u8);
            out.push((*code & 0xff) as u8);
        },
        CallbackReq::DeviceChange => {
            out.push(TAG_DEVICE_CHANGE);
        },
        CallbackReq::SharedMem(h) => {
            out.push(TAG_SHARED_MEM);
            push_u64_be(&mut out, h.wire_value() as u64);
        },
    }
    out
}

/// Decodes one callback-connection event.
pub fn decode_callback_req(b: &Vec<u8>) -> (r: Option<CallbackReq>)
    ensures
        r == spec_decode_callback_req(b@),
{
    if b.len() == 0 {
        return None;
    }
    let tag = b[0];
    if tag == TAG_DATA {
        if b.len() != 25 {
            return None;
        }
        let nframes_bits = read_u64_be(b, 1);
        let nframes = nframes_bits as i64;
        let ifs = read_u64_be(b, 9);
        let ofs = read_u64_be(b, 17);
        if nframes < isize::MIN as i64 || nframes > isize::MAX as i64 || ifs > usize::MAX as u64
            || ofs > usize::MAX as u64 {
            return None;
        }
        Some(
            CallbackReq::Data {
                nframes: nframes as isize,
                input_frame_size: ifs as usize,
                output_frame_size: ofs as usize,
            },
        )
    } else if tag == TAG_STATE {
        if b.len() != 5 {
            return None;
        }
        let code = ((b[1] as u32) << 24) | ((b[2] as u32) << 16) | ((b[3] as u32) << 8) | (
        b[4] as u32);
        Some(CallbackReq::State(code))
    } else if tag == TAG_DEVICE_CHANGE {
        if b.len() != 1 {
            return None;
        }
        Some(CallbackReq::DeviceChange)
    } else if tag == TAG_SHARED_MEM {
        if b.len() != 9 {
            return None;
        }
        let bits = read_u64_be(b, 1);
        let v = bits as i64;
        if v < i32::MIN as i64 || v > i32::MAX as i64 {
            return None;
        }
        Some(CallbackReq::SharedMem(RemoteHandle::new_remote(v as i32)))
    } else {
        None
    }
}

/// The payload bytes of one callback-connection reply.
pub open spec fn spec_encode_callback_resp(m: CallbackResp) -> Seq<u8> {
    match m {
        CallbackResp::Data(frames) => seq![TAG_DATA] + spec_u64_be((frames as i64) as u64),
        CallbackResp::State => seq![TAG_STATE],
        CallbackResp::DeviceChange => seq![TAG_DEVICE_CHANGE],
        CallbackResp::SharedMem => seq![TAG_SHARED_MEM],
    }
}

/// The reply one payload decodes to, or `None` when it is malformed.
pub open spec fn spec_decode_callback_resp(b: Seq<u8>) -> Option<CallbackResp> {
    if b.len() == 0 {
        None
    } else if b[0] == TAG_DATA {
        if b.len() == 9 {
            let frames = spec_u64_from_be(b, 1) as i64;
            if isize::MIN <= frames <= isize::MAX {
                Some(CallbackResp::Data(frames as isize))
            } else {
                None
            }
        } else {
            None
        }
    } else if b[0] == TAG_STATE {
        if b.len() == 1 {
            Some(CallbackResp::State)
        } else {
            None
        }
    } else if b[0] == TAG_DEVICE_CHANGE {
        if b.len() == 1 {
            Some(CallbackResp::DeviceChange)
        } else {
            None
        }
    } else if b[0] == TAG_SHARED_MEM {
        if b.len() == 1 {
            Some(CallbackResp::SharedMem)
        } else {
            None
        }
    } else {
        None
    }
}

/// Encodes one callback-connection reply.
pub fn encode_callback_resp(m: &CallbackResp) -> (r: Vec<u8>)
    ensures
        r@ =~= spec_encode_callback_resp(*m),
{
    let mut out: Vec<u8> = Vec::new();
    match m {
        CallbackResp::Data(frames) => {
            out.push(TAG_DATA);
            push_u64_be(&mut out, (*frames as i64) as u64);
        },
        CallbackResp::State => {
            out.push(TAG_STATE);
        },
        CallbackResp::DeviceChange => {
            out.push(TAG_DEVICE_CHANGE);
        },
        CallbackResp::SharedMem => {
            out.push(TAG_SHARED_MEM);
        },
    }
    out
}

/// Decodes one callback-connection reply.
pub fn decode_callback_resp(b: &Vec<u8>) -> (r: Option<CallbackResp>)
    ensures
        r == spec_decode_callback_resp(b@),
{
    if b.len() == 0 {
        return None;
    }
    let tag = b[0];
    if tag == TAG_DATA {
        if b.len() != 9 {
            return None;
        }
        let bits = read_u64_be(b, 1);
        let frames = bits as i64;
        if frames < isize::MIN as i64 || frames > isize::MAX as i64 {
            return None;
        }
        Some(CallbackResp::Data(frames as isize))
    } else if tag == TAG_STATE {
        if b.len() != 1 {
            return None;
        }
        Some(CallbackResp::State)
    } else if tag == TAG_DEVICE_CHANGE {
        if b.len() != 1 {
            return None;
        }
        Some(CallbackResp::DeviceChange)
    } else if tag == TAG_SHARED_MEM {
        if b.len() != 1 {
            return None;
        }
        Some(CallbackResp::SharedMem)
    } else {
        None
    }
}

/// The payload bytes of one device-collection event: the device type
/// whose collection changed.
pub open spec fn spec_encode_device_collection_req(m: DeviceCollectionReq) -> Seq<u8> {
    match m {
        DeviceCollectionReq::DeviceChange(device_type) => seq![TAG_DEVICE_CHANGE] + spec_u32_be(
            device_type,
        ),
    }
}

/// The device-collection event one payload decodes to.
pub open spec fn spec_decode_device_collection_req(b: Seq<u8>) -> Option<DeviceCollectionReq> {
    if b.len() == 5 && b[0] == TAG_DEVICE_CHANGE {
        Some(DeviceCollectionReq::DeviceChange(spec_u32_from_be(b[1], b[2], b[3], b[4])))
    } else {
        None
    }
}

/// Encodes one device-collection event.
pub fn encode_device_collection_req(m: &DeviceCollectionReq) -> (r: Vec<u8>)
    ensures
        r@ =~= spec_encode_device_collection_req(*m),
{
    let mut out: Vec<u8> = Vec::new();
    match m {
        DeviceCollectionReq::DeviceChange(device_type) => {
            out.push(TAG_DEVICE_CHANGE);
            out.push(((*device_type >> 24) & 0xff) as u8);
            out.push(((*device_type >> 16) & 0xff) as u8);
            out.push(((*device_type >> 8) & 0xff) as u8);
            out.push((*device_type & 0xff) as u8);
        },
    }
    out
}

/// Decodes one device-collection event.
pub fn decode_device_collection_req(b: &Vec<u8>) -> (r: Option<DeviceCollectionReq>)
    ensures
        r == spec_decode_device_collection_req(b@),
{
    if b.len() == 5 && b[0] == TAG_DEVICE_CHANGE {
        let device_type = ((b[1] as u32) << 24) | ((b[2] as u32) << 16) | ((b[3] as u32) << 8) | (
        b[4] as u32);
        Some(DeviceCollectionReq::DeviceChange(device_type))
    } else {
        None
    }
}

/// The payload byte of one device-collection reply.
pub open spec fn spec_encode_device_collection_resp(m: DeviceCollectionResp) -> Seq<u8> {
    match m {
        DeviceCollectionResp::DeviceChange => seq![TAG_DEVICE_CHANGE],
    }
}

/// The device-collection reply one payload decodes to.
pub open spec fn spec_decode_device_collection_resp(b: Seq<u8>) -> Option<DeviceCollectionResp> {
    if b.len() == 1 && b[0] == TAG_DEVICE_CHANGE {
        Some(DeviceCollectionResp::DeviceChange)
    } else {
        None
    }
}

/// Encodes one device-collection reply.
pub fn encode_device_collection_resp(m: &DeviceCollectionResp) -> (r: Vec<u8>)
    ensures
        r@ =~= spec_encode_device_collection_resp(*m),
{
    let mut out: Vec<u8> = Vec::new();
    match m {
        DeviceCollectionResp::DeviceChange => {
            out.push(TAG_DEVICE_CHANGE);
        },
    }
    out
}

/// Decodes one device-collection reply.
pub fn decode_device_collection_resp(b: &Vec<u8>) -> (r: Option<DeviceCollectionResp>)
    ensures
        r == spec_decode_device_collection_resp(b@),
{
    if b.len() == 1 && b[0] == TAG_DEVICE_CHANGE {
        Some(DeviceCollectionResp::DeviceChange)
    } else {
        None
    }
}

/// Decoding an encoded device-collection event or reply gives it back.
pub proof fn lemma_device_collection_roundtrip(m: DeviceCollectionReq, p: DeviceCollectionResp)
    ensures
        spec_decode_device_collection_req(spec_encode_device_collection_req(m)) == Some(m),
        spec_decode_device_collection_resp(spec_encode_device_collection_resp(p)) == Some(p),
{
    match m {
        DeviceCollectionReq::DeviceChange(device_type) => {
            lemma_u32_be_roundtrip(device_type);
        },
    }
}

/// Decoding an encoded event gives it back. The one transformation is
/// deliberate: a carried handle leaves as its wire value and arrives in
/// raw remote form, to be completed by the transport's handle delivery.
pub proof fn lemma_callback_req_roundtrip(m: CallbackReq)
    ensures
        spec_decode_callback_req(spec_encode_callback_req(m)) == Some(
            match m {
                CallbackReq::SharedMem(h) => CallbackReq::SharedMem(
                    RemoteHandle::spec_new_remote(h.spec_wire_value() as i32),
                ),
                _ => m,
            },
        ),
{
    match m {
        CallbackReq::Data { nframes, input_frame_size, output_frame_size } => {
            lemma_u64_from_be_at(spec_encode_callback_req(m), 1, (nframes as i64) as u64);
            lemma_u64_from_be_at(spec_encode_callback_req(m), 9, input_frame_size as u64);
            lemma_u64_from_be_at(spec_encode_callback_req(m), 17, output_frame_size as u64);
            lemma_i64_u64_roundtrip(nframes as i64);
        },
        CallbackReq::State(code) => {
            lemma_u32_be_roundtrip(code);
        },
        CallbackReq::DeviceChange => {},
        CallbackReq::SharedMem(h) => {
            lemma_u64_from_be_at(spec_encode_callback_req(m), 1, h.spec_wire_value() as u64);
            lemma_i64_u64_roundtrip(h.spec_wire_value());
        },
    }
}

/// Decoding an encoded reply gives it back unchanged.
pub proof fn lemma_callback_resp_roundtrip(m: CallbackResp)
    ensures
        spec_decode_callback_resp(spec_encode_callback_resp(m)) == Some(m),
{
    match m {
        CallbackResp::Data(frames) => {
            lemma_u64_from_be_at(spec_encode_callback_resp(m), 1, (frames as i64) as u64);
            lemma_i64_u64_roundtrip(frames as i64);
        },
        _ => {},
    }
}

/// A 64-bit value survives reinterpretation as unsigned and back.
proof fn lemma_i64_u64_roundtrip(a: i64)
    ensures
        ((a as u64) as i64) == a,
{
    assert(((a as u64) as i64) == a) by (bit_vector);
}

/// When the eight bytes of `x` sit at `off` in `b`, reading there gives
/// `x` back.
proof fn lemma_u64_from_be_at(b: Seq<u8>, off: int, x: u64)
    requires
        0 <= off,
        off + 8 <= b.len(),
        b.subrange(off, off + 8) =~= spec_u64_be(x),
    ensures
        spec_u64_from_be(b, off) == x,
{
    lemma_u64_be_roundtrip(x);
    assert forall|k: int| 0 <= k < 8 implies b[off + k] == spec_u64_be(x)[k] by {
        assert(b.subrange(off, off + 8)[k] == b[off + k]);
    }
}

} // verus!
