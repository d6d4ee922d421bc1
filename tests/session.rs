use buzzer::frames::{FrameKind, FrameRead, HandshakeVerdict};
use buzzer::session::{frame_step, handshake_step};
use buzzer::{ConnectionState, SessionOutput, StatusMessage, WebsocketEvent, WebsocketSession};
use embedded_websocket::{WebSocketKey, WebSocketSendMessageType, WebSocketServer};

const MAC: [u8; 6] = [0xAA, 0xBB, 0xCC, 0xDD, 0xEE, 0xFF];

fn handshake_key(request: &str) -> WebSocketKey {
    let line = request
        .split("\r\n")
        .find(|l| l.starts_with("Sec-WebSocket-Key: "))
        .expect("request carries a key");
    WebSocketKey::from(&line["Sec-WebSocket-Key: ".len()..])
}

/// Drives a session through TCP connect and the opening handshake, with the
/// server side played by embedded-websocket.
fn open_session() -> (WebsocketSession, WebSocketServer) {
    let mut session = WebsocketSession::new([7; 32]);
    assert!(session.begin_connect());
    let n = session.on_tcp_connect(true).expect("handshake request");
    let request = std::str::from_utf8(&session.outgoing()[..n]).unwrap().to_string();
    let mut server = WebSocketServer::new_server();
    let mut response = [0u8; 512];
    let len = server.server_accept(&handshake_key(&request), None, &mut response).unwrap();
    assert_eq!(session.on_read(&response[..len]), SessionOutput::Emit(WebsocketEvent::Connected));
    assert_eq!(session.state(), ConnectionState::Open);
    (session, server)
}

#[test]
fn new_session_is_disconnected() {
    let session = WebsocketSession::new([0; 32]);
    assert_eq!(session.state(), ConnectionState::Disconnected);
}

#[test]
fn handshake_request_targets_ws_path() {
    let mut session = WebsocketSession::new([1; 32]);
    assert!(session.begin_connect());
    assert_eq!(session.state(), ConnectionState::TcpConnecting);
    assert!(!session.begin_connect());
    let n = session.on_tcp_connect(true).unwrap();
    assert_eq!(session.state(), ConnectionState::HandshakeSent);
    let request = std::str::from_utf8(&session.outgoing()[..n]).unwrap();
    assert!(request.starts_with("GET /ws HTTP/1.1\r\nHost: 192.168.66.1\r\n"));
    assert!(request.contains("\r\nOrigin: http://localhost:1337\r\n"));
    assert!(request.ends_with("Sec-WebSocket-Version: 13\r\n\r\n"));
    assert_eq!(n, 184);
    let key = handshake_key(request);
    assert_eq!(key.len(), 24);
    let expected = format!(
        "GET /ws HTTP/1.1\r\nHost: 192.168.66.1\r\nUpgrade: websocket\r\nConnection: Upgrade\r\nSec-WebSocket-Key: {}\r\nOrigin: http://localhost:1337\r\nSec-WebSocket-Version: 13\r\n\r\n",
        key.as_str()
    );
    assert_eq!(request, expected);
}

#[test]
fn partial_handshake_response_keeps_waiting() {
    let mut session = WebsocketSession::new([9; 32]);
    session.begin_connect();
    session.on_tcp_connect(true).unwrap();
    assert_eq!(session.on_read(b"HTTP/1.1 101 Switching"), SessionOutput::Nothing);
    assert_eq!(session.state(), ConnectionState::HandshakeSent);
}

#[test]
fn handshake_step_maps_each_verdict() {
    assert_eq!(
        handshake_step(HandshakeVerdict::Accepted(129)),
        (ConnectionState::Open, SessionOutput::Emit(WebsocketEvent::Connected))
    );
    assert_eq!(
        handshake_step(HandshakeVerdict::Incomplete),
        (ConnectionState::HandshakeSent, SessionOutput::Nothing)
    );
    assert_eq!(
        handshake_step(HandshakeVerdict::Refused),
        (ConnectionState::Disconnected, SessionOutput::Reconnect)
    );
}

#[test]
fn frame_step_hands_out_complete_data_only() {
    let frame = |kind, complete| Some(FrameRead { consumed: 12, len: 10, complete, kind });
    assert_eq!(frame_step(frame(FrameKind::Text, true)), SessionOutput::Payload(10));
    assert_eq!(frame_step(frame(FrameKind::Binary, true)), SessionOutput::Payload(10));
    assert_eq!(frame_step(frame(FrameKind::Text, false)), SessionOutput::Nothing);
    assert_eq!(frame_step(frame(FrameKind::Ping, true)), SessionOutput::Nothing);
    assert_eq!(frame_step(frame(FrameKind::CloseMustReply, true)), SessionOutput::Nothing);
    assert_eq!(frame_step(None), SessionOutput::Nothing);
}

#[test]
fn failed_tcp_connect_goes_back_to_disconnected() {
    let mut session = WebsocketSession::new([2; 32]);
    assert!(session.begin_connect());
    assert_eq!(session.on_tcp_connect(false), None);
    assert_eq!(session.state(), ConnectionState::Disconnected);
    assert!(session.begin_connect());
}

#[test]
fn tcp_connect_outside_attempt_is_ignored() {
    let mut session = WebsocketSession::new([2; 32]);
    assert_eq!(session.on_tcp_connect(true), None);
    assert_eq!(session.state(), ConnectionState::Disconnected);
}

#[test]
fn handshake_completes_with_valid_accept_key() {
    let (session, _) = open_session();
    assert_eq!(session.state(), ConnectionState::Open);
}

#[test]
fn wrong_accept_key_drops_connection() {
    let mut session = WebsocketSession::new([3; 32]);
    session.begin_connect();
    session.on_tcp_connect(true).unwrap();
    let response = "HTTP/1.1 101 Switching Protocols\r\nConnection: Upgrade\r\nUpgrade: websocket\r\nSec-WebSocket-Accept: ptPnPeDOTo6khJlzmLhOZSh2tAY=\r\n\r\n";
    assert_eq!(session.on_read(response.as_bytes()), SessionOutput::Reconnect);
    assert_eq!(session.state(), ConnectionState::Disconnected);
    assert!(session.begin_connect());
    assert!(session.on_tcp_connect(true).is_some());
}

#[test]
fn response_naming_a_subprotocol_is_refused() {
    let mut session = WebsocketSession::new([4; 32]);
    session.begin_connect();
    let n = session.on_tcp_connect(true).unwrap();
    let request = std::str::from_utf8(&session.outgoing()[..n]).unwrap().to_string();
    let mut server = WebSocketServer::new_server();
    let mut response = [0u8; 512];
    let protocol = WebSocketKey::from("chat");
    let len = server.server_accept(&handshake_key(&request), Some(&protocol), &mut response).unwrap();
    assert_eq!(session.on_read(&response[..len]), SessionOutput::Reconnect);
    assert_eq!(session.state(), ConnectionState::Disconnected);
}

#[test]
fn text_frame_is_handed_out() {
    let (mut session, mut server) = open_session();
    let text = r#"{"pattern":{"type":"off"}}"#;
    let mut frame = [0u8; 512];
    let len = server.write(WebSocketSendMessageType::Text, true, text.as_bytes(), &mut frame).unwrap();
    let out = session.on_read(&frame[..len]);
    assert_eq!(out, SessionOutput::Payload(text.len()));
    assert_eq!(&session.received()[..text.len()], text.as_bytes());
}

#[test]
fn undecodable_bytes_are_ignored() {
    let (mut session, _) = open_session();
    assert_eq!(session.on_read(&[0x8f]), SessionOutput::Nothing);
    assert_eq!(session.on_read(&[0x83, 0x00]), SessionOutput::Nothing);
    assert_eq!(session.state(), ConnectionState::Open);
}

#[test]
fn short_unmasked_frame_is_copied_out() {
    let (mut session, _) = open_session();
    let frame = [0x82, 3, 7, 8, 9];
    assert_eq!(session.on_read(&frame), SessionOutput::Payload(3));
    assert_eq!(&session.received()[..3], &[7, 8, 9]);
}

#[test]
fn ping_is_not_handed_out() {
    let (mut session, _) = open_session();
    assert_eq!(session.on_read(&[0x89, 0x00]), SessionOutput::Nothing);
    assert_eq!(session.state(), ConnectionState::Open);
}

#[test]
fn status_after_server_close_frame_is_still_framed() {
    let (mut session, _) = open_session();
    assert_eq!(session.on_read(&[0x88, 0x02, 0x03, 0xe8]), SessionOutput::Nothing);
    assert!(session.send_status(StatusMessage::Identification, &MAC).is_some());
    let (out, close) = session.on_read_failed();
    assert_eq!(out, SessionOutput::Emit(WebsocketEvent::Disconnected));
    assert_eq!(close, None);
}

#[test]
fn status_is_sent_as_masked_text_frame() {
    let (mut session, mut server) = open_session();
    let n = session.send_status(StatusMessage::Buzz, &MAC).unwrap();
    let frame = session.outgoing()[..n].to_vec();
    let mut payload = [0u8; 512];
    let text = br#"{"type":"buzz","id":"aabbccddeeff"}"#;
    assert_eq!(n, text.len() + 6);
    assert_eq!(frame[0], 0x81);
    assert_eq!(frame[1] as usize, 0x80 + text.len());
    let unmasked: Vec<u8> = (0..text.len()).map(|i| frame[6 + i] ^ frame[2 + i % 4]).collect();
    assert_eq!(&unmasked[..], &text[..]);
    let read = server.read(&frame, &mut payload).unwrap();
    assert!(read.end_of_message);
    assert_eq!(&payload[..read.len_to], text);
}

#[test]
fn status_is_not_sent_before_open() {
    let mut session = WebsocketSession::new([5; 32]);
    assert_eq!(session.send_status(StatusMessage::Identification, &MAC), None);
    session.begin_connect();
    session.on_tcp_connect(true).unwrap();
    assert_eq!(session.send_status(StatusMessage::Identification, &MAC), None);
}

#[test]
fn remote_close_disconnects_once_then_reconnects() {
    let (mut session, _) = open_session();
    assert_eq!(session.on_read(&[]), SessionOutput::Emit(WebsocketEvent::Disconnected));
    assert_eq!(session.state(), ConnectionState::Disconnected);
    // A second empty read on the dead connection reports nothing more.
    assert_eq!(session.on_read(&[]), SessionOutput::Nothing);
    assert!(session.begin_connect());
    assert_eq!(session.state(), ConnectionState::TcpConnecting);
    // The new attempt can run a fresh handshake.
    assert!(session.on_tcp_connect(true).is_some());
    assert_eq!(session.state(), ConnectionState::HandshakeSent);
}

#[test]
fn remote_close_during_handshake_disconnects() {
    let mut session = WebsocketSession::new([6; 32]);
    session.begin_connect();
    session.on_tcp_connect(true).unwrap();
    assert_eq!(session.on_read(&[]), SessionOutput::Emit(WebsocketEvent::Disconnected));
    assert_eq!(session.state(), ConnectionState::Disconnected);
}

#[test]
fn read_error_sends_close_frame_and_disconnects() {
    let (mut session, mut server) = open_session();
    let (out, close) = session.on_read_failed();
    assert_eq!(out, SessionOutput::Emit(WebsocketEvent::Disconnected));
    let n = close.expect("close frame");
    assert_eq!(n, 8);
    let frame = session.outgoing()[..n].to_vec();
    assert_eq!(&frame[..2], &[0x88, 0x82]);
    assert_eq!([frame[6] ^ frame[2], frame[7] ^ frame[3]], [0x03, 0xe8]);
    let mut payload = [0u8; 64];
    let read = server.read(&frame, &mut payload).unwrap();
    assert_eq!(read.message_type, embedded_websocket::WebSocketReceiveMessageType::CloseMustReply);
    assert_eq!(session.state(), ConnectionState::Disconnected);
    assert!(session.begin_connect());
    assert!(session.on_tcp_connect(true).is_some());
}

#[test]
fn abort_during_handshake_allows_retry() {
    let mut session = WebsocketSession::new([8; 32]);
    session.begin_connect();
    session.on_tcp_connect(true).unwrap();
    session.abort();
    assert_eq!(session.state(), ConnectionState::Disconnected);
    assert!(session.begin_connect());
    assert!(session.on_tcp_connect(true).is_some());
}
