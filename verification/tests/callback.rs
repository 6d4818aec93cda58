use audioipc::Error;
use audioipc::RemoteHandle;
use audioipc::callback::CallbackAction;
use audioipc::callback::CallbackServer;
use audioipc::messages::CallbackReq;
use audioipc::messages::CallbackResp;
use audioipc::shm::SharedMem;
use audioipc::shm::data_ranges;

#[test]
fn data_ranges_partition_the_region() {
    let r = data_ranges(480, 2, 4).expect("a small working set fits");
    assert_eq!(r.input_bytes, 960);
    assert_eq!(r.output_bytes, 1920);
    assert!(data_ranges(1 << 20, 4, 0).is_none());
    assert!(data_ranges(usize::MAX, 2, 2).is_none());
}

#[test]
fn shared_memory_pattern_roundtrip() {
    // The producer writes a known pattern into the input sub-range and
    // issues a data event with matching counts; the consumer's callback
    // receives exactly that pattern.
    let pattern: Vec<u8> = (0u8..8).collect();
    let mut server = CallbackServer::new(true);
    server.install_shm(SharedMem::new());
    server.region_write(0, &pattern);

    match server.process(CallbackReq::Data {
        nframes: 4,
        input_frame_size: 2,
        output_frame_size: 4,
    }) {
        Ok(CallbackAction::InvokeData { input, ranges }) => {
            assert_eq!(input, pattern);
            assert_eq!(ranges.input_bytes, 8);
            assert_eq!(ranges.output_bytes, 16);

            // The callback fills its output; the response carries the
            // produced frame count, and the peer reads the output bytes
            // back unchanged, with the input sub-range untouched.
            let output: Vec<u8> = (100u8..116).collect();
            let resp = server.complete_data(ranges, &output, 4);
            assert_eq!(resp, CallbackResp::Data(4));
            assert_eq!(server.region_read(8, 16), output);
            assert_eq!(server.region_read(0, 8), pattern);
        }
        _ => panic!("a fitting data event must dispatch"),
    }
}

#[test]
fn output_only_stream_copies_no_input() {
    let mut server = CallbackServer::new(false);
    server.install_shm(SharedMem::new());
    match server.process(CallbackReq::Data {
        nframes: 480,
        input_frame_size: 0,
        output_frame_size: 4,
    }) {
        Ok(CallbackAction::InvokeData { input, ranges }) => {
            assert!(input.is_empty());
            assert_eq!(ranges.input_bytes, 0);
            assert_eq!(ranges.output_bytes, 1920);
            let output = vec![0u8; 1920];
            assert_eq!(server.complete_data(ranges, &output, 480), CallbackResp::Data(480));
        }
        _ => panic!("a fitting data event must dispatch"),
    }
}

#[test]
fn oversized_working_set_fails_loudly() {
    let mut server = CallbackServer::new(false);
    server.install_shm(SharedMem::new());
    let r = server.process(CallbackReq::Data {
        nframes: 1 << 20,
        input_frame_size: 0,
        output_frame_size: 4,
    });
    assert_eq!(r, Err(Error::RegionOverflow));
}

#[test]
fn state_and_device_change_dispatch_directly() {
    let mut server = CallbackServer::new(false);
    server.install_shm(SharedMem::new());
    assert_eq!(server.process(CallbackReq::State(2)), Ok(CallbackAction::InvokeState(2)));
    assert_eq!(server.complete_state(), CallbackResp::State);
    assert_eq!(server.process(CallbackReq::DeviceChange), Ok(CallbackAction::InvokeDeviceChange));
    assert_eq!(server.complete_device_change(), CallbackResp::DeviceChange);
}

#[test]
fn shared_mem_event_hands_handle_out_for_mapping() {
    let mut server = CallbackServer::new(false);
    let handle = RemoteHandle::new_local(3);
    match server.process(CallbackReq::SharedMem(handle)) {
        Ok(CallbackAction::MapSharedMem(h)) => {
            assert_eq!(h, RemoteHandle::new_local(3));
        }
        _ => panic!("a shared-mem event hands its handle out"),
    }
    server.install_shm(SharedMem::new());
    assert_eq!(server.complete_shared_mem(), CallbackResp::SharedMem);
}
