use ws_echo::{Msg, MsgKind, Phase, RecvEvent, Worker, WorkerError, WorkerExit};

fn text(bytes: &[u8]) -> Msg {
    Msg { kind: MsgKind::Text, payload: bytes.to_vec() }
}

fn binary(bytes: &[u8]) -> Msg {
    Msg { kind: MsgKind::Binary, payload: bytes.to_vec() }
}

fn open_worker() -> Worker {
    let mut w = Worker::new(false);
    w.on_handshake(true);
    assert_eq!(w.phase(), Phase::Open);
    w
}

#[test]
fn echo_text_verbatim() {
    let mut w = open_worker();
    let reply = w.on_receive(RecvEvent::Received(text(b"hello")));
    let m = reply.expect("a text message must be echoed");
    assert_eq!(m.kind, MsgKind::Text);
    assert_eq!(m.payload, b"hello".to_vec());
    w.on_send_result(true);
    assert_eq!(w.phase(), Phase::Open);
}

#[test]
fn echo_binary_verbatim() {
    let mut w = open_worker();
    let reply = w.on_receive(RecvEvent::Received(binary(&[0, 255, 7, 42])));
    let m = reply.expect("a binary message must be echoed");
    assert_eq!(m.kind, MsgKind::Binary);
    assert_eq!(m.payload, vec![0, 255, 7, 42]);
    w.on_send_result(true);
    assert_eq!(w.phase(), Phase::Open);
}

#[test]
fn echo_preserves_order() {
    let mut w = open_worker();
    let sent: Vec<Msg> = vec![
        text(b"one"),
        Msg { kind: MsgKind::Ping, payload: vec![1] },
        binary(b"two"),
        Msg { kind: MsgKind::Pong, payload: vec![2] },
        text(b"three"),
    ];
    let mut echoed: Vec<Msg> = vec![];
    for m in sent {
        if let Some(reply) = w.on_receive(RecvEvent::Received(m)) {
            echoed.push(reply);
            w.on_send_result(true);
        }
    }
    let expected: Vec<(MsgKind, &[u8])> =
        vec![(MsgKind::Text, b"one"), (MsgKind::Binary, b"two"), (MsgKind::Text, b"three")];
    assert_eq!(echoed.len(), expected.len());
    for (m, (kind, payload)) in echoed.iter().zip(expected.iter()) {
        assert_eq!(m.kind, *kind);
        assert_eq!(m.payload, payload.to_vec());
    }
}

#[test]
fn ping_and_pong_are_not_echoed() {
    let mut w = open_worker();
    let reply = w.on_receive(RecvEvent::Received(Msg { kind: MsgKind::Ping, payload: vec![9] }));
    assert!(reply.is_none());
    let reply = w.on_receive(RecvEvent::Received(Msg { kind: MsgKind::Pong, payload: vec![9] }));
    assert!(reply.is_none());
    assert_eq!(w.phase(), Phase::Open);
}

#[test]
fn close_frame_as_message_is_not_echoed() {
    let mut w = open_worker();
    let reply = w.on_receive(RecvEvent::Received(Msg { kind: MsgKind::Close, payload: vec![] }));
    assert!(reply.is_none());
    assert_eq!(w.phase(), Phase::Open);
}

#[test]
fn clean_close_after_messages_is_silent() {
    let mut w = open_worker();
    for i in 0..5u8 {
        let reply = w.on_receive(RecvEvent::Received(binary(&[i])));
        assert!(reply.is_some());
        w.on_send_result(true);
    }
    let reply = w.on_receive(RecvEvent::PeerClosed);
    assert!(reply.is_none());
    assert_eq!(w.phase(), Phase::Closed);
    let exit = w.exit().expect("a closed worker records its exit");
    assert_eq!(exit, WorkerExit::CleanClose);
    assert!(!exit.is_error());
}

#[test]
fn concurrent_peers_get_only_their_own_echoes() {
    let mut w1 = open_worker();
    let mut w2 = open_worker();
    let r1 = w1.on_receive(RecvEvent::Received(text(b"from peer one")));
    let r2 = w2.on_receive(RecvEvent::Received(text(b"from peer two")));
    let m1 = r1.expect("peer one gets an echo");
    let m2 = r2.expect("peer two gets an echo");
    assert_eq!(m1.payload, b"from peer one".to_vec());
    assert_eq!(m2.payload, b"from peer two".to_vec());
    w1.on_send_result(true);
    let reply = w1.on_receive(RecvEvent::PeerClosed);
    assert!(reply.is_none());
    assert_eq!(w1.phase(), Phase::Closed);
    // peer two is untouched by peer one's close
    w2.on_send_result(true);
    assert_eq!(w2.phase(), Phase::Open);
    let r2 = w2.on_receive(RecvEvent::Received(binary(b"still mine")));
    assert_eq!(r2.expect("peer two still echoes").payload, b"still mine".to_vec());
}

#[test]
fn malformed_handshake_is_refused() {
    let mut w = Worker::new(false);
    assert_eq!(w.phase(), Phase::Handshaking);
    w.on_handshake(false);
    assert_eq!(w.phase(), Phase::Closed);
    let exit = w.exit().expect("a refused connection records its exit");
    assert_eq!(exit, WorkerExit::Failed(WorkerError::WebSocketAccept));
    assert!(exit.is_error());
}

#[test]
fn tls_protocol_failure_comes_from_protocol_layer() {
    let mut w = Worker::new(true);
    assert_eq!(w.phase(), Phase::Negotiating);
    w.on_negotiation(true);
    assert_eq!(w.phase(), Phase::Handshaking);
    w.on_handshake(false);
    assert_eq!(w.phase(), Phase::Closed);
    assert_eq!(w.exit(), Some(WorkerExit::Failed(WorkerError::WebSocketAccept)));
    assert_ne!(w.exit(), Some(WorkerExit::Failed(WorkerError::Negotiation)));
}

#[test]
fn tls_failed_negotiation_never_reaches_handshake() {
    let mut w = Worker::new(true);
    assert_eq!(w.phase(), Phase::Negotiating);
    w.on_negotiation(false);
    assert_eq!(w.phase(), Phase::Closed);
    assert_eq!(w.exit(), Some(WorkerExit::Failed(WorkerError::Negotiation)));
}

#[test]
fn read_failure_closes_with_read_error() {
    let mut w = open_worker();
    let reply = w.on_receive(RecvEvent::Failed);
    assert!(reply.is_none());
    assert_eq!(w.phase(), Phase::Closed);
    assert_eq!(w.exit(), Some(WorkerExit::Failed(WorkerError::ReadMessage)));
}

#[test]
fn write_failure_closes_with_write_error() {
    let mut w = open_worker();
    let reply = w.on_receive(RecvEvent::Received(text(b"doomed")));
    assert!(reply.is_some());
    w.on_send_result(false);
    assert_eq!(w.phase(), Phase::Closed);
    assert_eq!(w.exit(), Some(WorkerExit::Failed(WorkerError::WriteMessage)));
}

#[test]
fn message_classification() {
    assert!(text(b"a").is_text());
    assert!(!text(b"a").is_binary());
    assert!(text(b"a").should_echo());
    assert!(binary(b"a").should_echo());
    assert!(!Msg { kind: MsgKind::Ping, payload: vec![] }.should_echo());
    assert!(!Msg { kind: MsgKind::Pong, payload: vec![] }.should_echo());
    assert!(!Msg { kind: MsgKind::Close, payload: vec![] }.should_echo());
}
