use vstd::prelude::*;
use vstd::string::StringSliceAdditionalSpecFns;

use crate::dispatcher::WebsocketEvent;
use crate::frames::{
    client_accept, client_connect, close_normal, handshake_verdict, is_handshake_key,
    is_short_data_frame, mentions_subprotocol, names_subprotocol, new_client, read_frame,
    seeded_rng, unmasked_payload, upgrade_request, write_text, ws_mid_frame, ws_state, FrameKind,
    FrameRead, HandshakeVerdict, WsClient, WsState, HANDSHAKE_FIXED_LEN,
};
use crate::status::{encode_status, lemma_status_json_ascii, status_json, StatusMessage};

verus! {

/// Size of each scratch buffer of the session.
pub const BUF_SIZE: usize = 512;

/// Where a WebSocket session stands.
#[derive(Debug, Clone, Copy, PartialEq, Eq, Structural)]
pub enum ConnectionState {
    /// No TCP connection; the next step is to open one.
    Disconnected,
    /// A TCP connection is being opened.
    TcpConnecting,
    /// The upgrade request was sent; the server's answer is awaited.
    HandshakeSent,
    /// Frames flow both ways.
    Open,
}

/// What the session asks of the task that runs it after an inbound read.
#[derive(Debug, Clone, Copy, PartialEq, Eq, Structural)]
pub enum SessionOutput {
    /// Nothing to do; keep reading.
    Nothing,
    /// Hand this event to the dispatcher. `Disconnected` also means that the
    /// socket is to be dropped and a new connection opened.
    Emit(WebsocketEvent),
    /// A complete text or binary message of this many bytes is at the front
    /// of [`WebsocketSession::received`].
    Payload(usize),
    /// The server refused the handshake: drop the socket and open a new
    /// connection, with nothing to tell the dispatcher.
    Reconnect,
}

/// State and output after the server closes the connection (an inbound read
/// of no bytes) in state `s`.
pub open spec fn after_remote_close(s: ConnectionState) -> (ConnectionState, SessionOutput) {
    match s {
        ConnectionState::HandshakeSent | ConnectionState::Open => (
            ConnectionState::Disconnected,
            SessionOutput::Emit(WebsocketEvent::Disconnected),
        ),
        _ => (s, SessionOutput::Nothing),
    }
}

/// State after a new connection attempt is started in state `s`.
pub open spec fn after_begin_connect(s: ConnectionState) -> ConnectionState {
    match s {
        ConnectionState::Disconnected => ConnectionState::TcpConnecting,
        _ => s,
    }
}

/// State and output once the server's handshake response has been judged:
/// an accepted response opens the session and says `Connected`, an
/// incomplete one keeps waiting, a refused one drops the connection.
pub open spec fn handshake_outcome(v: HandshakeVerdict) -> (ConnectionState, SessionOutput) {
    match v {
        HandshakeVerdict::Accepted(_) => (
            ConnectionState::Open,
            SessionOutput::Emit(WebsocketEvent::Connected),
        ),
        HandshakeVerdict::Incomplete => (ConnectionState::HandshakeSent, SessionOutput::Nothing),
        HandshakeVerdict::Refused => (ConnectionState::Disconnected, SessionOutput::Reconnect),
    }
}

/// What an open session hands out for a decoded frame (`None`: the bytes
/// did not decode): the payload of a complete text or binary message, and
/// nothing for anything else.
pub open spec fn frame_output(f: Option<FrameRead>) -> SessionOutput {
    match f {
        Some(frame) => if frame.complete && (frame.kind is Text || frame.kind is Binary) {
            SessionOutput::Payload(frame.len)
        } else {
            SessionOutput::Nothing
        },
        None => SessionOutput::Nothing,
    }
}

/// The upgrade request of this device: path `/ws`, host `192.168.66.1`,
/// origin `http://localhost:1337`.
pub open spec fn session_request(key: Seq<u8>) -> Seq<u8> {
    upgrade_request(
        "/ws".spec_bytes(),
        "192.168.66.1".spec_bytes(),
        "http://localhost:1337".spec_bytes(),
        key,
    )
}

/// Length of the upgrade request of this device.
pub open spec fn session_request_len() -> int {
    HANDSHAKE_FIXED_LEN + "/ws".spec_bytes().len() + "192.168.66.1".spec_bytes().len()
        + "http://localhost:1337".spec_bytes().len()
}

proof fn lemma_request_fits()
    ensures
        session_request_len() == HANDSHAKE_FIXED_LEN + 36,
{
    reveal_strlit("/ws");
    reveal_strlit("192.168.66.1");
    reveal_strlit("http://localhost:1337");
    vstd::string::is_ascii_spec_bytes("/ws");
    vstd::string::is_ascii_spec_bytes("192.168.66.1");
    vstd::string::is_ascii_spec_bytes("http://localhost:1337");
}

/// Maps the verdict on a handshake response to the session's next state
/// and output, by [`handshake_outcome`].
pub fn handshake_step(v: HandshakeVerdict) -> (r: (ConnectionState, SessionOutput))
    ensures
        r == handshake_outcome(v),
{
    match v {
        HandshakeVerdict::Accepted(_) => (
            ConnectionState::Open,
            SessionOutput::Emit(WebsocketEvent::Connected),
        ),
        HandshakeVerdict::Incomplete => (ConnectionState::HandshakeSent, SessionOutput::Nothing),
        HandshakeVerdict::Refused => (ConnectionState::Disconnected, SessionOutput::Reconnect),
    }
}

/// Maps the result of decoding one frame to what the session hands out, by
/// [`frame_output`].
pub fn frame_step(f: Option<FrameRead>) -> (r: SessionOutput)
    ensures
        r == frame_output(f),
{
    match f {
        Some(frame) => {
            let data = match frame.kind {
                FrameKind::Text | FrameKind::Binary => true,
                _ => false,
            };
            if frame.complete && data {
                SessionOutput::Payload(frame.len)
            } else {
                SessionOutput::Nothing
            }
        },
        None => SessionOutput::Nothing,
    }
}

/// A client's WebSocket session over one TCP connection at a time, with
/// reconnection. It owns the protocol state and two fixed scratch buffers:
/// one for outbound bytes (handshake, frames) and one for decoded payloads.
/// The task that runs it owns the socket, performs what it asks and reports
/// back what happened.
pub struct WebsocketSession {
    client: WsClient,
    key: Option<Vec<u8>>,
    state: ConnectionState,
    outgoing: Vec<u8>,
    payload: Vec<u8>,
    decoded: Ghost<Option<FrameRead>>,
}

fn zeroed_buffer() -> (r: Vec<u8>)
    ensures
        r@.len() == BUF_SIZE,
{
    let mut v: Vec<u8> = Vec::new();
    let mut i: usize = 0;
    while i < BUF_SIZE
        invariant
            i <= BUF_SIZE,
            v@.len() == i,
        decreases BUF_SIZE - i,
    {
        v.push(0);
        i = i + 1;
    }
    v
}

impl WebsocketSession {
    /// The state of the session.
    pub closed spec fn conn(&self) -> ConnectionState {
        self.state
    }

    /// The outbound scratch buffer.
    pub closed spec fn outbound(&self) -> Seq<u8> {
        self.outgoing@
    }

    /// The buffer that inbound payloads are decoded into.
    pub closed spec fn inbound(&self) -> Seq<u8> {
        self.payload@
    }

    /// The key of the pending opening handshake.
    pub closed spec fn handshake_key(&self) -> Seq<u8> {
        self.key->Some_0@
    }

    /// Whether the protocol client is between frames (no partly read frame
    /// to continue).
    pub closed spec fn between_frames(&self) -> bool {
        !ws_mid_frame(self.client)
    }

    /// Whether the server has sent a close frame on the open session.
    pub closed spec fn peer_closed(&self) -> bool {
        ws_state(self.client) == WsState::CloseReceived
    }

    /// The frame decoded by the last inbound read of an open session, if
    /// the bytes decoded.
    pub closed spec fn last_frame(&self) -> Option<FrameRead> {
        self.decoded@
    }

    pub closed spec fn wf(&self) -> bool {
        &&& self.outgoing@.len() == BUF_SIZE
        &&& self.payload@.len() == BUF_SIZE
        &&& self.state is HandshakeSent ==> {
            &&& self.key is Some
            &&& is_handshake_key(self.key->Some_0@)
            &&& ws_state(self.client) == WsState::Connecting
        }
        &&& self.state is Open ==> (ws_state(self.client) is Open || ws_state(
            self.client,
        ) is CloseReceived)
        &&& (self.state is Disconnected || self.state is TcpConnecting) ==> ws_state(self.client)
            != WsState::Open
    }

    /// A disconnected session whose keys and masks come from a generator
    /// seeded with `seed`.
    pub fn new(seed: [u8; 32]) -> (r: WebsocketSession)
        ensures
            r.wf(),
            r.conn() == ConnectionState::Disconnected,
            r.between_frames(),
    {
        WebsocketSession {
            client: new_client(seeded_rng(seed)),
            key: None,
            state: ConnectionState::Disconnected,
            outgoing: zeroed_buffer(),
            payload: zeroed_buffer(),
            decoded: Ghost(None),
        }
    }

    /// The state of the session.
    pub fn state(&self) -> (r: ConnectionState)
        ensures
            r == self.conn(),
    {
        self.state
    }

    /// The outbound scratch buffer; a length that the session hands out
    /// names a prefix of it.
    pub fn outgoing(&self) -> (r: &[u8])
        requires
            self.wf(),
        ensures
            r@ == self.outbound(),
            r@.len() == BUF_SIZE,
    {
        self.outgoing.as_slice()
    }

    /// The buffer that inbound payloads are decoded into.
    pub fn received(&self) -> (r: &[u8])
        requires
            self.wf(),
        ensures
            r@ == self.inbound(),
            r@.len() == BUF_SIZE,
    {
        self.payload.as_slice()
    }

    /// Starts a new connection attempt when there is none. Returns whether
    /// the task is to open a TCP connection now.
    pub fn begin_connect(&mut self) -> (r: bool)
        requires
            old(self).wf(),
        ensures
            final(self).wf(),
            r == (old(self).conn() == ConnectionState::Disconnected),
            final(self).conn() == after_begin_connect(old(self).conn()),
    {
        if self.state == ConnectionState::Disconnected {
            self.state = ConnectionState::TcpConnecting;
            true
        } else {
            false
        }
    }

    /// Ends the current connection from any state, closing the protocol
    /// state so that a new handshake can start. The close frame, if one was
    /// written, is not sent.
    pub fn abort(&mut self)
        requires
            old(self).wf(),
        ensures
            final(self).wf(),
            final(self).conn() == ConnectionState::Disconnected,
    {
        if self.state == ConnectionState::Open {
            let _ = close_normal(&mut self.client, &mut self.outgoing);
        }
        self.key = None;
        self.state = ConnectionState::Disconnected;
    }

    /// The TCP connection attempt ended; `connected` says whether it
    /// succeeded. On success the upgrade request to `/ws` is written to the
    /// front of the outbound buffer and its length returned, for the task to
    /// send; otherwise the attempt is over and the session is disconnected,
    /// to be retried. Outside an attempt nothing happens.
    pub fn on_tcp_connect(&mut self, connected: bool) -> (r: Option<usize>)
        requires
            old(self).wf(),
        ensures
            final(self).wf(),
            old(self).conn() != ConnectionState::TcpConnecting ==> r is None && final(self).conn()
                == old(self).conn(),
            old(self).conn() == ConnectionState::TcpConnecting && !connected ==> r is None && final(self).conn() == ConnectionState::Disconnected,
            old(self).conn() == ConnectionState::TcpConnecting && connected ==> {
                &&& r == Some(session_request_len() as usize)
                &&& final(self).conn() == ConnectionState::HandshakeSent
                &&& is_handshake_key(final(self).handshake_key())
                &&& final(self).outbound().take(session_request_len()) == session_request(
                    final(self).handshake_key(),
                )
            },
            session_request_len() <= BUF_SIZE,
    {
        proof {
            lemma_request_fits();
        }
        if self.state != ConnectionState::TcpConnecting {
            return None;
        }
        if !connected {
            self.state = ConnectionState::Disconnected;
            return None;
        }
        match client_connect(
            &mut self.client,
            "/ws",
            "192.168.66.1",
            "http://localhost:1337",
            &mut self.outgoing,
        ) {
            Ok((len, key)) => {
                self.key = Some(key);
                self.state = ConnectionState::HandshakeSent;
                Some(len)
            },
            Err(_) => {
                self.state = ConnectionState::Disconnected;
                None
            },
        }
    }

    /// Bytes came in from the server; an empty read means that it closed
    /// the connection, and the session ends with exactly one `Disconnected`.
    ///
    /// While the handshake is pending, the response is judged against the
    /// key that was sent ([`handshake_outcome`]); a response that names a
    /// sub-protocol, which was never requested, is refused. Once open, the
    /// first frame is decoded and handed out by [`frame_output`]: a complete
    /// text or binary message, and nothing for other frames or bytes that do
    /// not decode. Once the server has sent a close frame, nothing more
    /// decodes.
    pub fn on_read(&mut self, data: &[u8]) -> (r: SessionOutput)
        requires
            old(self).wf(),
        ensures
            final(self).wf(),
            data@.len() == 0 ==> (final(self).conn(), r) == after_remote_close(old(self).conn()),
            data@.len() > 0 && old(self).conn() is HandshakeSent ==> {
                if names_subprotocol(data@) {
                    final(self).conn() == ConnectionState::Disconnected && r
                        == SessionOutput::Reconnect
                } else {
                    (final(self).conn(), r) == handshake_outcome(
                        handshake_verdict(old(self).handshake_key(), data@),
                    )
                }
            },
            data@.len() > 0 && old(self).conn() is Open ==> {
                &&& final(self).conn() == ConnectionState::Open
                &&& r == frame_output(final(self).last_frame())
                &&& final(self).last_frame() is Some ==> final(self).last_frame()->Some_0.len
                    <= BUF_SIZE
                &&& old(self).between_frames() && !old(self).peer_closed() && is_short_data_frame(
                    data@,
                ) ==> {
                    let len = data@[1] as int;
                    &&& final(self).last_frame() == Some(
                        FrameRead {
                            consumed: (2 + len) as usize,
                            len: len as usize,
                            complete: true,
                            kind: if data@[0] == 0x81 {
                                FrameKind::Text
                            } else {
                                FrameKind::Binary
                            },
                        },
                    )
                    &&& r == SessionOutput::Payload(len as usize)
                    &&& final(self).inbound().take(len) == data@.subrange(2, 2 + len)
                    &&& final(self).between_frames()
                }
            },
            data@.len() > 0 && (old(self).conn() is Disconnected || old(self).conn() is TcpConnecting)
                ==> final(self).conn() == old(self).conn() && r == SessionOutput::Nothing,
    {
        match self.state {
            ConnectionState::Disconnected | ConnectionState::TcpConnecting => {
                return SessionOutput::Nothing;
            },
            _ => {},
        }
        if data.len() == 0 {
            self.abort();
            return SessionOutput::Emit(WebsocketEvent::Disconnected);
        }
        if self.state == ConnectionState::HandshakeSent {
            if mentions_subprotocol(data) {
                self.abort();
                return SessionOutput::Reconnect;
            }
            let verdict = match &self.key {
                Some(key) => client_accept(&mut self.client, key.as_slice(), data),
                None => HandshakeVerdict::Refused,
            };
            let (next, out) = handshake_step(verdict);
            match next {
                ConnectionState::Open => {
                    self.key = None;
                    self.state = ConnectionState::Open;
                },
                ConnectionState::HandshakeSent => {},
                _ => {
                    self.key = None;
                    self.state = ConnectionState::Disconnected;
                },
            }
            return out;
        }
        let result = read_frame(&mut self.client, data, &mut self.payload);
        let frame = match result {
            Ok(f) => Some(f),
            Err(_) => None,
        };
        self.decoded = Ghost(frame);
        frame_step(frame)
    }

    /// Reading from the socket failed. The connection is over and the
    /// dispatcher is told `Disconnected`. An open session whose server has
    /// not started closing writes a normal-closure frame (eight bytes at the
    /// front of the outbound buffer) to be sent on a best-effort basis.
    pub fn on_read_failed(&mut self) -> (r: (SessionOutput, Option<usize>))
        requires
            old(self).wf(),
        ensures
            final(self).wf(),
            old(self).conn() is HandshakeSent ==> {
                &&& final(self).conn() == ConnectionState::Disconnected
                &&& r == (SessionOutput::Emit(WebsocketEvent::Disconnected), None::<usize>)
            },
            old(self).conn() is Open ==> {
                &&& final(self).conn() == ConnectionState::Disconnected
                &&& r.0 == SessionOutput::Emit(WebsocketEvent::Disconnected)
                &&& r.1 == if old(self).peer_closed() {
                    None
                } else {
                    Some(8usize)
                }
                &&& r.1 is Some ==> {
                    &&& final(self).outbound()[0] == 0x88
                    &&& final(self).outbound()[1] == 0x82
                    &&& unmasked_payload(final(self).outbound(), 2) == seq![0x03u8, 0xe8]
                }
            },
            old(self).conn() is Disconnected || old(self).conn() is TcpConnecting ==> {
                &&& final(self).conn() == old(self).conn()
                &&& r == (SessionOutput::Nothing, None::<usize>)
            },
    {
        match self.state {
            ConnectionState::Disconnected | ConnectionState::TcpConnecting => {
                return (SessionOutput::Nothing, None);
            },
            ConnectionState::HandshakeSent => {
                self.abort();
                return (SessionOutput::Emit(WebsocketEvent::Disconnected), None);
            },
            ConnectionState::Open => {},
        }
        let close = close_normal(&mut self.client, &mut self.outgoing);
        self.key = None;
        self.state = ConnectionState::Disconnected;
        let frame = match close {
            Ok(len) => Some(len),
            Err(_) => None,
        };
        (SessionOutput::Emit(WebsocketEvent::Disconnected), frame)
    }

    /// Frames a status message for the device with hardware address `mac` as
    /// one final text message whose payload is the message's compact JSON
    /// ([`status_json`], by [`encode_status`]). An open session always
    /// frames it, at the front of the outbound buffer, and returns the
    /// frame's length; otherwise there is nothing to send.
    pub fn send_status(&mut self, msg: StatusMessage, mac: &[u8; 6]) -> (r: Option<usize>)
        requires
            old(self).wf(),
        ensures
            final(self).wf(),
            final(self).conn() == old(self).conn(),
            old(self).conn() != ConnectionState::Open ==> r is None,
            old(self).conn() == ConnectionState::Open ==> {
                let payload = vstd::utf8::encode_utf8(status_json(msg, mac@));
                &&& payload.len() < 126
                &&& r == Some((payload.len() + 6) as usize)
                &&& final(self).outbound()[0] == 0x81
                &&& final(self).outbound()[1] == 0x80 + payload.len()
                &&& unmasked_payload(final(self).outbound(), payload.len() as int) == payload
            },
    {
        if self.state != ConnectionState::Open {
            return None;
        }
        let text = encode_status(msg, mac);
        proof {
            lemma_status_json_ascii(msg, mac@);
            vstd::utf8::is_ascii_chars_encode_utf8(text@);
        }
        let bytes = text.as_str().as_bytes();
        match write_text(&mut self.client, bytes, &mut self.outgoing) {
            Ok(len) => Some(len),
            Err(_) => None,
        }
    }
}

/// After the server closes an open or opening session, the session reports
/// exactly one `Disconnected` and, with nothing else done, its next step is
/// a new TCP connection.
pub proof fn lemma_remote_close_reconnects(s: ConnectionState)
    requires
        s is HandshakeSent || s is Open,
    ensures
        after_remote_close(s).1 == SessionOutput::Emit(WebsocketEvent::Disconnected),
        after_begin_connect(after_remote_close(s).0) == ConnectionState::TcpConnecting,
{
}

} // verus!
