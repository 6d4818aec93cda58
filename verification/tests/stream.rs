use audioipc::Error;
use audioipc::callback::CallbackServer;
use audioipc::messages::ClientMessage;
use audioipc::messages::Device;
use audioipc::messages::ServerMessage;
use audioipc::messages::StreamInitParams;
use audioipc::messages::StreamParams;
use audioipc::stream::ClientStream;
use audioipc::stream::PositionOutcome;
use audioipc::stream::TeardownPhase;
use audioipc::RemoteHandle;
use audioipc::callback::CallbackAction;
use audioipc::messages::StreamCreate;
use audioipc::messages::cstring_compatible;
use audioipc::shm::SharedMem;
use audioipc::stream::make_create_params;
use audioipc::stream::output_rate_of;
use audioipc::stream::stream_created;
use audioipc::stream::stream_initialized;

fn pcm_params(rate: u32) -> StreamParams {
    StreamParams { format: 1, rate, channels: 2, layout: 0, prefs: 0 }
}

#[test]
fn position_cache_extrapolates_within_window() {
    let mut s = ClientStream::new(1, Some(48000));
    assert_eq!(s.position_query(100), PositionOutcome::NeedRoundTrip);
    s.position_update(1000, 100);
    // 5 ms at 48 kHz advances 240 frames.
    assert_eq!(s.position_query(105), PositionOutcome::Cached(1240));
    assert_eq!(s.cached_call_counts(), (1, 2));
}

#[test]
fn position_cache_misses_outside_window() {
    let mut s = ClientStream::new(1, Some(48000));
    s.position_update(1000, 100);
    assert_eq!(s.position_query(110), PositionOutcome::NeedRoundTrip);
    s.position_update(2000, 110);
    assert_eq!(s.cached_call_counts(), (0, 2));
}

#[test]
fn position_cache_values_monotone_and_bounded() {
    let mut s = ClientStream::new(1, Some(48000));
    s.position_update(1000, 100);
    let mut last: u64 = 0;
    for t in 100..110u64 {
        match s.position_query(t) {
            PositionOutcome::Cached(v) => {
                assert!(v >= last);
                assert!(v <= 1000 + 10 * 48000 / 1000);
                last = v;
            }
            PositionOutcome::NeedRoundTrip => panic!("inside the freshness window"),
        }
    }
}

#[test]
fn start_stop_pair_exactly() {
    let s = ClientStream::new(4, None);
    assert_eq!(s.start_request(), ServerMessage::StreamStart(4));
    assert_eq!(s.start(&ClientMessage::StreamStarted), Ok(()));
    assert_eq!(s.start(&ClientMessage::Error(5)), Err(Error::Backend(5)));
    assert_eq!(s.start(&ClientMessage::StreamStopped), Err(Error::Format));

    assert_eq!(s.stop_request(), ServerMessage::StreamStop(4));
    assert_eq!(s.stop(&ClientMessage::StreamStopped), Ok(()));
    assert_eq!(s.stop(&ClientMessage::Error(2)), Err(Error::Backend(2)));
    assert_eq!(s.stop(&ClientMessage::StreamStarted), Err(Error::Format));
}

#[test]
fn queries_extract_their_payloads() {
    let s = ClientStream::new(4, None);
    assert_eq!(s.position_response(&ClientMessage::StreamPosition((960, 55))), Ok((960, 55)));
    assert_eq!(s.latency(&ClientMessage::StreamLatency(128)), Ok(128));
    assert_eq!(s.input_latency(&ClientMessage::StreamInputLatency(64)), Ok(64));
    assert_eq!(s.latency(&ClientMessage::StreamInputLatency(64)), Err(Error::Format));
    let device = Device { output_name: Some(b"out".to_vec()), input_name: None };
    assert_eq!(
        s.current_device(ClientMessage::StreamCurrentDevice(device.clone())),
        Ok(device)
    );
    assert_eq!(s.current_device(ClientMessage::Error(9)), Err(Error::Backend(9)));
}

#[test]
fn volume_and_name_round_trips() {
    let s = ClientStream::new(6, None);
    let bits = 0x3F000000u32;
    assert_eq!(s.set_volume_request(bits), ServerMessage::StreamSetVolume(6, bits));
    assert_eq!(s.set_volume(&ClientMessage::StreamVolumeSet), Ok(()));
    assert_eq!(
        s.set_name_request(b"music".to_vec()),
        ServerMessage::StreamSetName(6, b"music".to_vec())
    );
    assert_eq!(s.set_name(&ClientMessage::StreamNameSet), Ok(()));
    assert_eq!(s.set_name(&ClientMessage::StreamVolumeSet), Err(Error::Format));
}

#[test]
fn device_change_registration_tracks_state() {
    let mut s = ClientStream::new(2, None);
    let req = s.register_device_changed_callback(true);
    assert_eq!(req, ServerMessage::StreamRegisterDeviceChangeCallback(2, true));
    assert_eq!(s.device_change_registered(&ClientMessage::StreamRegisterDeviceChangeCallback), Ok(()));
    let req = s.register_device_changed_callback(false);
    assert_eq!(req, ServerMessage::StreamRegisterDeviceChangeCallback(2, false));
}

#[test]
fn teardown_waits_for_bridge() {
    let mut s = ClientStream::new(9, None);
    assert_eq!(s.teardown_phase(), TeardownPhase::Live);
    assert_eq!(s.destroy_request(), ServerMessage::StreamDestroy(9));
    assert_eq!(s.destroy_acked(&ClientMessage::StreamDestroyed), Ok(()));
    assert_eq!(s.teardown_phase(), TeardownPhase::DestroyAcked);
    let bridge = CallbackServer::new(false);
    let witness = bridge.shutdown();
    s.finish_destroy(witness);
    assert_eq!(s.teardown_phase(), TeardownPhase::Complete);
}

#[test]
fn teardown_proceeds_on_server_error() {
    let mut s = ClientStream::new(9, None);
    assert_eq!(s.destroy_acked(&ClientMessage::Error(3)), Err(Error::Backend(3)));
    assert_eq!(s.teardown_phase(), TeardownPhase::DestroyAcked);
}

#[test]
fn create_params_carry_both_directions() {
    let init = StreamInitParams {
        stream_name: Some(b"s".to_vec()),
        input_device: 0,
        input_stream_params: None,
        output_device: 3,
        output_stream_params: Some(pcm_params(48000)),
        latency_frames: 256,
    };
    let create = make_create_params(&init);
    assert_eq!(create.input_stream_params, None);
    assert_eq!(create.output_stream_params, Some(pcm_params(48000)));
    assert_eq!(output_rate_of(&init), Some(48000));

    let no_output = StreamInitParams { output_stream_params: None, ..init };
    assert_eq!(output_rate_of(&no_output), None);
}

#[test]
fn stream_lifecycle_scenario() {
    // Client asks for a stream with no input and 16-bit PCM output.
    let init = StreamInitParams {
        stream_name: None,
        input_device: 0,
        input_stream_params: None,
        output_device: 0,
        output_stream_params: Some(StreamParams {
            format: 1,
            rate: 48000,
            channels: 2,
            layout: 0,
            prefs: 0,
        }),
        latency_frames: 0,
    };
    let create = make_create_params(&init);
    assert!(create.input_stream_params.is_none());

    // Server answers with token 1 and the callback-connection handle.
    let created = stream_created(ClientMessage::StreamCreated(StreamCreate {
        token: 1,
        platform_handle: RemoteHandle::new_local(10),
    }))
    .expect("a created response completes the call");
    assert_eq!(created.token, 1);

    // Init and start complete against their matching responses.
    assert_eq!(stream_initialized(&ClientMessage::StreamInitialized), Ok(()));
    let mut stream = ClientStream::new(created.token, output_rate_of(&init));
    assert_eq!(stream.start_request(), ServerMessage::StreamStart(1));
    assert_eq!(stream.start(&ClientMessage::StreamStarted), Ok(()));

    // A 480-frame data event with 4-byte output frames: the callback
    // fills 1920 bytes and the reply reports 480 frames produced.
    let mut bridge = CallbackServer::new(init.input_stream_params.is_some());
    bridge.install_shm(SharedMem::new());
    match bridge.process(audioipc::messages::CallbackReq::Data {
        nframes: 480,
        input_frame_size: 0,
        output_frame_size: 4,
    }) {
        Ok(CallbackAction::InvokeData { input, ranges }) => {
            assert!(input.is_empty());
            assert_eq!(ranges.output_bytes, 480 * 4);
            let filled = vec![0x55u8; 480 * 4];
            assert_eq!(
                bridge.complete_data(ranges, &filled, 480),
                audioipc::messages::CallbackResp::Data(480)
            );
        }
        _ => panic!("the data event must dispatch"),
    }
    assert_eq!(stream.stream_token(), 1);
}

#[test]
fn name_bytes_must_be_cstring_compatible() {
    assert!(cstring_compatible(&b"music".to_vec()));
    assert!(cstring_compatible(&Vec::new()));
    assert!(!cstring_compatible(&vec![b'a', 0, b'b']));
}

#[test]
fn create_and_init_responses_pair_exactly() {
    match stream_created(ClientMessage::StreamInitialized) {
        Err(Error::Format) => {}
        _ => panic!("a mismatched response is a format error"),
    }
    assert_eq!(stream_initialized(&ClientMessage::StreamInitialized), Ok(()));
    assert_eq!(stream_initialized(&ClientMessage::Error(1)), Err(Error::Backend(1)));
}
