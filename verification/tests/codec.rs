use audioipc::codec::DecodedFrame;
use audioipc::codec::decode_device_collection_req;
use audioipc::codec::decode_device_collection_resp;
use audioipc::codec::encode_device_collection_req;
use audioipc::codec::encode_device_collection_resp;
use audioipc::messages::DeviceCollectionReq;
use audioipc::messages::DeviceCollectionResp;
use audioipc::codec::decode_callback_req;
use audioipc::codec::decode_callback_resp;
use audioipc::codec::decode_frame;
use audioipc::codec::encode_callback_req;
use audioipc::codec::encode_callback_resp;
use audioipc::codec::encode_frame;
use audioipc::messages::CallbackReq;
use audioipc::messages::CallbackResp;
use audioipc::RemoteHandle;

#[test]
fn frame_roundtrip() {
    let payload = vec![1u8, 2, 3];
    let framed = encode_frame(&payload);
    assert_eq!(framed, vec![0u8, 0, 0, 3, 1, 2, 3]);
    match decode_frame(&framed) {
        DecodedFrame::Frame { payload: p, consumed } => {
            assert_eq!(p, payload);
            assert_eq!(consumed, 7);
        }
        DecodedFrame::Incomplete => panic!("whole frame must decode"),
    }
}

#[test]
fn frame_roundtrip_empty_payload() {
    let payload: Vec<u8> = Vec::new();
    let framed = encode_frame(&payload);
    assert_eq!(framed, vec![0u8, 0, 0, 0]);
    match decode_frame(&framed) {
        DecodedFrame::Frame { payload: p, consumed } => {
            assert_eq!(p, payload);
            assert_eq!(consumed, 4);
        }
        DecodedFrame::Incomplete => panic!("whole frame must decode"),
    }
}

#[test]
fn frame_incomplete_header() {
    let buf = vec![0u8, 0, 0];
    assert!(matches!(decode_frame(&buf), DecodedFrame::Incomplete));
}

#[test]
fn frame_incomplete_payload() {
    let buf = vec![0u8, 0, 0, 5, 1, 2];
    assert!(matches!(decode_frame(&buf), DecodedFrame::Incomplete));
}

#[test]
fn frame_leaves_rest_of_stream() {
    let payload = vec![7u8];
    let mut stream = encode_frame(&payload);
    stream.push(0xAA);
    stream.push(0xBB);
    match decode_frame(&stream) {
        DecodedFrame::Frame { payload: p, consumed } => {
            assert_eq!(p, vec![7u8]);
            assert_eq!(consumed, 5);
            assert_eq!(&stream[consumed..], &[0xAA, 0xBB]);
        }
        DecodedFrame::Incomplete => panic!("whole frame must decode"),
    }
}

#[test]
fn callback_req_data_roundtrip() {
    let req = CallbackReq::Data { nframes: 480, input_frame_size: 0, output_frame_size: 4 };
    let bytes = encode_callback_req(&req);
    assert_eq!(
        bytes,
        vec![
            0u8, 0, 0, 0, 0, 0, 0, 0x01, 0xE0, 0, 0, 0, 0, 0, 0, 0, 0, 0, 0, 0, 0, 0, 0, 0, 4
        ]
    );
    match decode_callback_req(&bytes) {
        Some(CallbackReq::Data { nframes, input_frame_size, output_frame_size }) => {
            assert_eq!(nframes, 480);
            assert_eq!(input_frame_size, 0);
            assert_eq!(output_frame_size, 4);
        }
        _ => panic!("data event must decode"),
    }
}

#[test]
fn callback_req_state_roundtrip() {
    let req = CallbackReq::State(2);
    let bytes = encode_callback_req(&req);
    assert_eq!(bytes, vec![1u8, 0, 0, 0, 2]);
    assert!(matches!(decode_callback_req(&bytes), Some(CallbackReq::State(2))));
}

#[test]
fn callback_req_device_change_roundtrip() {
    let bytes = encode_callback_req(&CallbackReq::DeviceChange);
    assert_eq!(bytes, vec![2u8]);
    assert!(matches!(decode_callback_req(&bytes), Some(CallbackReq::DeviceChange)));
}

#[test]
fn callback_req_shared_mem_wire_form() {
    // A handle owned locally leaves as the sentinel; the descriptor itself
    // travels as the transport's ancillary data.
    let req = CallbackReq::SharedMem(RemoteHandle::new_local(5));
    let bytes = encode_callback_req(&req);
    assert_eq!(bytes[0], 3u8);
    assert_eq!(&bytes[1..], &[0xFF; 8]);
    match decode_callback_req(&bytes) {
        Some(CallbackReq::SharedMem(h)) => {
            assert!(h.local_handle.is_none());
            assert_eq!(h.remote_handle, Some(-1));
            assert_eq!(h.target_pid, None);
        }
        _ => panic!("shared-mem event must decode"),
    }
}

#[test]
fn callback_req_malformed_rejected() {
    assert!(decode_callback_req(&Vec::new()).is_none());
    assert!(decode_callback_req(&vec![9u8]).is_none());
    assert!(decode_callback_req(&vec![0u8, 1, 2]).is_none());
    assert!(decode_callback_req(&vec![1u8, 0, 0, 0]).is_none());
}

#[test]
fn callback_resp_roundtrip() {
    let resp = CallbackResp::Data(480);
    let bytes = encode_callback_resp(&resp);
    assert_eq!(bytes, vec![0u8, 0, 0, 0, 0, 0, 0, 0x01, 0xE0]);
    assert!(matches!(decode_callback_resp(&bytes), Some(CallbackResp::Data(480))));

    assert!(matches!(
        decode_callback_resp(&encode_callback_resp(&CallbackResp::State)),
        Some(CallbackResp::State)
    ));
    assert!(matches!(
        decode_callback_resp(&encode_callback_resp(&CallbackResp::DeviceChange)),
        Some(CallbackResp::DeviceChange)
    ));
    assert!(matches!(
        decode_callback_resp(&encode_callback_resp(&CallbackResp::SharedMem)),
        Some(CallbackResp::SharedMem)
    ));
}

#[test]
fn callback_resp_negative_frames_roundtrip() {
    // A callback may report an error as a negative frame count.
    let resp = CallbackResp::Data(-1);
    let bytes = encode_callback_resp(&resp);
    assert!(matches!(decode_callback_resp(&bytes), Some(CallbackResp::Data(-1))));
}

#[test]
fn device_collection_roundtrip() {
    let req = DeviceCollectionReq::DeviceChange(3);
    let bytes = encode_device_collection_req(&req);
    assert_eq!(bytes, vec![2u8, 0, 0, 0, 3]);
    assert_eq!(decode_device_collection_req(&bytes), Some(req));
    assert_eq!(decode_device_collection_req(&vec![2u8]), None);

    let resp = DeviceCollectionResp::DeviceChange;
    let bytes = encode_device_collection_resp(&resp);
    assert_eq!(bytes, vec![2u8]);
    assert_eq!(decode_device_collection_resp(&bytes), Some(resp));
    assert_eq!(decode_device_collection_resp(&Vec::new()), None);
}

#[test]
fn callback_resp_malformed_rejected() {
    assert!(decode_callback_resp(&Vec::new()).is_none());
    assert!(decode_callback_resp(&vec![7u8]).is_none());
    assert!(decode_callback_resp(&vec![0u8, 1]).is_none());
}
