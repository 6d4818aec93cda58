use audioipc::messages::matches_response;
use audioipc::messages::ClientMessage;
use audioipc::messages::ServerMessage;
use audioipc::rpc::RpcCaller;
use audioipc::rpc::RpcServer;

#[test]
fn caller_alternates_send_and_receive() {
    let mut caller: RpcCaller<ServerMessage, ClientMessage> = RpcCaller::new();
    assert!(!caller.awaiting());
    caller.send_request(&ServerMessage::StreamStart(1));
    assert!(caller.awaiting());
    caller.recv_response(&ClientMessage::StreamStarted);
    assert!(!caller.awaiting());
    caller.send_request(&ServerMessage::StreamStop(1));
    assert!(caller.awaiting());
    caller.recv_response(&ClientMessage::StreamStopped);
    assert!(!caller.awaiting());
}

#[test]
fn caller_cancel_clears_outstanding_call() {
    let mut caller: RpcCaller<ServerMessage, ClientMessage> = RpcCaller::new();
    caller.send_request(&ServerMessage::StreamGetPosition(1));
    caller.cancel();
    assert!(!caller.awaiting());
}

#[test]
fn each_request_kind_pairs_with_one_response_kind() {
    assert!(matches_response(&ServerMessage::StreamStart(1), &ClientMessage::StreamStarted));
    assert!(matches_response(
        &ServerMessage::StreamGetPosition(1),
        &ClientMessage::StreamPosition((0, 0))
    ));
    assert!(matches_response(&ServerMessage::ClientConnect(9), &ClientMessage::ClientConnected));
    // A response of another kind does not pair.
    assert!(!matches_response(&ServerMessage::StreamStart(1), &ClientMessage::StreamStopped));
    // An error code pairs with nothing: it is the failure answer.
    assert!(!matches_response(&ServerMessage::StreamStart(1), &ClientMessage::Error(3)));
}

#[test]
fn server_answers_in_arrival_order() {
    let mut server: RpcServer<u32, u32> = RpcServer::new();
    server.on_request(10);
    server.on_request(20);
    server.on_request(30);
    assert_eq!(server.in_flight_count(), 3);
    // Whatever order the handlers finish in, responses pair with requests
    // oldest first.
    assert_eq!(server.respond_next(&100), 10);
    assert_eq!(server.respond_next(&200), 20);
    assert_eq!(server.respond_next(&300), 30);
    assert_eq!(server.in_flight_count(), 0);
}
