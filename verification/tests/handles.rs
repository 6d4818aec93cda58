use audioipc::Error;
use audioipc::PlatformHandle;
use audioipc::RemoteHandle;
use audioipc::messages::AssocRawPlatformHandle;
use audioipc::messages::CallbackReq;
use audioipc::messages::ClientMessage;
use audioipc::messages::ServerMessage;
use audioipc::messages::StreamCreate;
use audioipc::valid_handle;

#[test]
fn handle_validity() {
    assert!(valid_handle(0));
    assert!(valid_handle(17));
    assert!(!valid_handle(-1));
}

#[test]
fn platform_handle_owns_raw() {
    let h = PlatformHandle::new(5);
    assert_eq!(h.into_raw(), 5);
}

#[test]
fn duplicate_failure_is_call_fatal() {
    assert_eq!(PlatformHandle::duplicate(-1).err(), Some(Error::HandleDuplication));
}

#[test]
fn duplicate_success_owns_new_descriptor() {
    let dup = PlatformHandle::duplicate(9).expect("non-negative result is a success");
    assert_eq!(dup.into_raw(), 9);
}

#[test]
fn remote_handle_forms_are_exclusive() {
    let local = RemoteHandle::new_local_with_target(PlatformHandle::new(4), 1234);
    assert!(local.local_handle.is_some());
    assert_eq!(local.remote_handle, None);
    assert_eq!(local.target_pid, Some(1234));

    let remote = RemoteHandle::new_remote(7);
    assert!(remote.local_handle.is_none());
    assert_eq!(remote.remote_handle, Some(7));
    assert_eq!(remote.target_pid, None);
}

#[test]
fn wire_value_uses_sentinel_for_local() {
    let local = RemoteHandle::new_local(4);
    assert_eq!(local.wire_value(), -1);
    let remote = RemoteHandle::new_remote(7);
    assert_eq!(remote.wire_value(), 7);
    let reread = RemoteHandle::from_wire(42);
    assert_eq!(reread.remote_handle, Some(42));
    assert!(reread.local_handle.is_none());
}

#[test]
fn take_local_relinquishes_ownership() {
    let mut h = RemoteHandle::new_local(6);
    let owned = h.take_local();
    assert_eq!(owned.into_raw(), 6);
    assert!(h.local_handle.is_none());
}

#[test]
fn stream_created_surrenders_its_handle() {
    let handle = RemoteHandle::new_local_with_target(PlatformHandle::new(8), 4321);
    let mut msg = ClientMessage::StreamCreated(StreamCreate { token: 1, platform_handle: handle });
    let taken = msg.platform_handle();
    assert_eq!(taken, Some((8, 4321)));
    match msg {
        ClientMessage::StreamCreated(data) => {
            assert!(data.platform_handle.local_handle.is_none());
        }
        _ => panic!("the message kind does not change"),
    }
}

#[test]
fn stream_created_installs_exactly_one_handle() {
    let placeholder = RemoteHandle::new_remote(-1);
    let mut msg =
        ClientMessage::StreamCreated(StreamCreate { token: 3, platform_handle: placeholder });
    msg.take_platform_handle(Some(11));
    match msg {
        ClientMessage::StreamCreated(data) => {
            let owned = data.platform_handle.local_handle.expect("one local handle installed");
            assert_eq!(owned.into_raw(), 11);
            assert_eq!(data.platform_handle.remote_handle, None);
            assert_eq!(data.token, 3);
        }
        _ => panic!("the message kind does not change"),
    }
}

#[test]
fn shared_mem_surrenders_and_installs() {
    let handle = RemoteHandle::new_local_with_target(PlatformHandle::new(9), 77);
    let mut req = CallbackReq::SharedMem(handle);
    assert_eq!(req.platform_handle(), Some((9, 77)));
    match &req {
        CallbackReq::SharedMem(h) => assert!(h.local_handle.is_none()),
        _ => panic!("the message kind does not change"),
    }

    let mut incoming = CallbackReq::SharedMem(RemoteHandle::new_remote(-1));
    incoming.take_platform_handle(Some(12));
    match incoming {
        CallbackReq::SharedMem(h) => {
            let owned = h.local_handle.expect("one local handle installed");
            assert_eq!(owned.into_raw(), 12);
            assert_eq!(h.remote_handle, None);
        }
        _ => panic!("the message kind does not change"),
    }
}

#[test]
fn non_carrying_messages_carry_nothing() {
    let mut req = ServerMessage::ClientDisconnect;
    assert_eq!(req.platform_handle(), None);
    req.take_platform_handle(None);
    assert!(matches!(req, ServerMessage::ClientDisconnect));

    let mut resp = ClientMessage::StreamStarted;
    assert_eq!(resp.platform_handle(), None);
    resp.take_platform_handle(None);
    assert!(matches!(resp, ClientMessage::StreamStarted));
}
