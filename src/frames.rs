use vstd::prelude::*;
use vstd::string::StringSliceAdditionalSpecFns;

use embedded_websocket::{
    Client, Error, WebSocket, WebSocketClient, WebSocketCloseStatusCode, WebSocketKey,
    WebSocketOptions, WebSocketReceiveMessageType, WebSocketSendMessageType,
};
use rand_chacha::ChaCha20Rng;

verus! {

/// rand_chacha's ChaCha20 generator, carried opaque from seeding to the
/// client that draws from it.
#[verifier::external_type_specification]
#[verifier::external_body]
pub struct ExChaCha20Rng(ChaCha20Rng);

/// embedded-websocket's error; the wrappers report what their callers need
/// in their own results.
#[verifier::external_type_specification]
#[verifier::external_body]
pub struct ExWsError(Error);

/// The WebSocket client of embedded-websocket, drawing its keys and masks
/// from a ChaCha20 generator. Its type is generic over `rand_core::RngCore`,
/// a bound that cannot be declared here, so it is held opaque; the wrappers
/// below are the only code that touches it.
#[verifier::external_body]
pub struct WsClient {
    inner: WebSocket<ChaCha20Rng, Client>,
}

/// The protocol state of a client, as embedded-websocket's `WebSocketState`.
#[derive(Debug, Clone, Copy, PartialEq, Eq, Structural)]
pub enum WsState {
    /// Created, no handshake yet.
    Idle,
    /// The opening handshake request was built.
    Connecting,
    /// The handshake completed; frames flow both ways.
    Open,
    /// A close frame was written.
    CloseSent,
    /// The server sent a close frame.
    CloseReceived,
    /// The close handshake completed.
    Closed,
    /// The server's handshake response was refused.
    Aborted,
}

/// The protocol state of `c` (embedded-websocket's public `state` field).
pub uninterp spec fn ws_state(c: WsClient) -> WsState;

/// Whether `c` is in the middle of a frame whose payload did not fit one
/// read (embedded-websocket's `continuation_read`); its next read continues
/// that frame.
pub uninterp spec fn ws_mid_frame(c: WsClient) -> bool;

/// How embedded-websocket judges a server's handshake response to the
/// request that carried `key`.
#[derive(Debug, Clone, Copy, PartialEq, Eq, Structural)]
pub enum HandshakeVerdict {
    /// A complete `101` response with the right accept string, taking this
    /// many bytes.
    Accepted(usize),
    /// The response is not complete yet.
    Incomplete,
    /// The response is malformed, has another status or a wrong accept
    /// string.
    Refused,
}

/// The verdict of embedded-websocket's `client_accept` on `response` for a
/// request that carried `key`: a SHA-1 and base64 check of the accept
/// string, and an HTTP parse.
pub uninterp spec fn handshake_verdict(key: Seq<u8>, response: Seq<u8>) -> HandshakeVerdict;

/// Bytes of an opening handshake request besides the path, host and origin.
pub const HANDSHAKE_FIXED_LEN: usize = 148;

/// Longest opening handshake request that embedded-websocket builds.
pub const HANDSHAKE_MAX_LEN: usize = 1024;

/// The opening handshake request for `path` on `host` from `origin`, with
/// key `key` and no sub-protocols or further headers.
pub open spec fn upgrade_request(path: Seq<u8>, host: Seq<u8>, origin: Seq<u8>, key: Seq<u8>) -> Seq<
    u8,
> {
    "GET ".spec_bytes() + path + " HTTP/1.1\r\nHost: ".spec_bytes() + host
        + "\r\nUpgrade: websocket\r\nConnection: Upgrade\r\nSec-WebSocket-Key: ".spec_bytes() + key
        + "\r\nOrigin: ".spec_bytes() + origin + "\r\n".spec_bytes()
        + "Sec-WebSocket-Version: 13\r\n\r\n".spec_bytes()
}

/// A character of the standard base64 alphabet, padding included.
pub open spec fn is_base64_char(b: u8) -> bool {
    (65 <= b <= 90) || (97 <= b <= 122) || (48 <= b <= 57) || b == 43 || b == 47 || b == 61
}

/// A handshake key: 24 base64 characters.
pub open spec fn is_handshake_key(key: Seq<u8>) -> bool {
    key.len() == 24 && forall|i: int| 0 <= i < 24 ==> is_base64_char(#[trigger] key[i])
}

/// Whether `from` starts with a whole unmasked, unfragmented text (`0x81`)
/// or binary (`0x82`) frame of fewer than 126 payload bytes.
pub open spec fn is_short_data_frame(from: Seq<u8>) -> bool {
    &&& from.len() >= 2
    &&& (from[0] == 0x81 || from[0] == 0x82)
    &&& from[1] < 126
    &&& 2 + from[1] <= from.len()
}

/// The payload of a masked frame with a two-byte header: byte `i` is
/// `frame[6 + i]` under the mask in `frame[2..6]`.
pub open spec fn unmasked_payload(frame: Seq<u8>, len: int) -> Seq<u8> {
    Seq::new(len as nat, |i: int| frame[6 + i] ^ frame[2 + i % 4])
}

/// The kind of a frame read from the server.
#[derive(Debug, Clone, Copy, PartialEq, Eq, Structural)]
pub enum FrameKind {
    Text,
    Binary,
    CloseMustReply,
    CloseCompleted,
    Ping,
    Pong,
}

/// What reading one frame gave: `consumed` bytes of the input were used,
/// `len` payload bytes were written out, and `complete` says whether that is
/// the whole payload.
#[derive(Debug, Clone, Copy, PartialEq, Eq, Structural)]
pub struct FrameRead {
    pub consumed: usize,
    pub len: usize,
    pub complete: bool,
    pub kind: FrameKind,
}

/// The header name `sec-websocket-protocol`, in ASCII lowercase.
pub open spec fn subprotocol_header() -> Seq<u8> {
    seq![
        115u8, 101, 99, 45, 119, 101, 98, 115, 111, 99, 107, 101, 116, 45, 112, 114, 111, 116, 111,
        99, 111, 108,
    ]
}

/// An ASCII letter in lower case; other bytes as they are.
pub open spec fn ascii_lower(b: u8) -> u8 {
    if 65 <= b <= 90 {
        (b + 32) as u8
    } else {
        b
    }
}

/// Whether `pat` stands in `s` at `i`, ignoring ASCII case in `s`.
pub open spec fn occurs_at(s: Seq<u8>, i: int, pat: Seq<u8>) -> bool {
    &&& 0 <= i
    &&& i + pat.len() <= s.len()
    &&& forall|j: int| 0 <= j < pat.len() ==> ascii_lower(#[trigger] s[i + j]) == pat[j]
}

/// Whether the bytes name a `Sec-WebSocket-Protocol` header anywhere, in
/// any case.
pub open spec fn names_subprotocol(s: Seq<u8>) -> bool {
    exists|i: int| occurs_at(s, i, subprotocol_header())
}

fn subprotocol_header_bytes() -> (r: Vec<u8>)
    ensures
        r@ == subprotocol_header(),
{
    let r: Vec<u8> = vec![
        115, 101, 99, 45, 119, 101, 98, 115, 111, 99, 107, 101, 116, 45, 112, 114, 111, 116, 111,
        99, 111, 108,
    ];
    assert(r@ =~= subprotocol_header());
    r
}

fn lower_byte(b: u8) -> (r: u8)
    ensures
        r == ascii_lower(b),
{
    if 65 <= b && b <= 90 {
        b + 32
    } else {
        b
    }
}

fn occurs_at_exec(s: &[u8], i: usize, pat: &Vec<u8>) -> (r: bool)
    requires
        i + pat@.len() <= s@.len(),
        s@.len() <= usize::MAX,
    ensures
        r == occurs_at(s@, i as int, pat@),
{
    let mut j: usize = 0;
    while j < pat.len()
        invariant
            i + pat@.len() <= s@.len(),
            s@.len() <= usize::MAX,
            j <= pat@.len(),
            forall|k: int| 0 <= k < j ==> ascii_lower(#[trigger] s@[i + k]) == pat@[k],
        decreases pat@.len() - j,
    {
        if lower_byte(s[i + j]) != pat[j] {
            assert(ascii_lower(s@[i + j]) != pat@[j as int]);
            return false;
        }
        j = j + 1;
    }
    true
}

/// Whether a handshake response names a `Sec-WebSocket-Protocol` header. No
/// sub-protocol is ever requested, so a response that names one is refused.
pub fn mentions_subprotocol(s: &[u8]) -> (r: bool)
    ensures
        r == names_subprotocol(s@),
{
    let pat = subprotocol_header_bytes();
    if s.len() < pat.len() {
        assert forall|i: int| !occurs_at(s@, i, subprotocol_header()) by {}
        return false;
    }
    let last: usize = s.len() - pat.len();
    let mut i: usize = 0;
    while i <= last
        invariant
            last + pat@.len() == s@.len(),
            s@.len() <= usize::MAX,
            pat@.len() == 22,
            pat@ == subprotocol_header(),
            forall|k: int| 0 <= k < i ==> !occurs_at(s@, k, subprotocol_header()),
        decreases last + 1 - i,
    {
        if occurs_at_exec(s, i, &pat) {
            return true;
        }
        i = i + 1;
    }
    assert forall|k: int| !occurs_at(s@, k, subprotocol_header()) by {
        if 0 <= k < i {
        }
    }
    false
}

/// Relies on rand_core's `SeedableRng::from_seed` for `ChaCha20Rng`: a
/// generator whose output is fixed by the 32 seed bytes.
#[verifier::external_body]
pub(crate) fn seeded_rng(seed: [u8; 32]) -> ChaCha20Rng {
    <ChaCha20Rng as rand_core::SeedableRng>::from_seed(seed)
}

/// Relies on `WebSocketClient::new_client`: a client in state `None`, not in
/// the middle of a frame.
#[verifier::external_body]
pub(crate) fn new_client(rng: ChaCha20Rng) -> (r: WsClient)
    ensures
        ws_state(r) == WsState::Idle,
        !ws_mid_frame(r),
{
    WsClient { inner: WebSocketClient::new_client(rng) }
}

/// Relies on `WebSocket::client_connect` (and `build_connect_handshake_request`):
/// unless the client is open, it draws a 24-character base64 key, builds the
/// request in a 1024-byte string and copies it to the front of `to`, moving
/// to `Connecting`. A request over 1024 bytes fails and changes nothing. It
/// slices `to` to the request's length, so `to` must be long enough.
#[verifier::external_body]
pub(crate) fn client_connect(
    client: &mut WsClient,
    path: &str,
    host: &str,
    origin: &str,
    to: &mut Vec<u8>,
) -> (r: Result<(usize, Vec<u8>), Error>)
    requires
        HANDSHAKE_FIXED_LEN + path.spec_bytes().len() + host.spec_bytes().len()
            + origin.spec_bytes().len() <= old(to)@.len(),
    ensures
        final(to)@.len() == old(to)@.len(),
        ws_mid_frame(*final(client)) == ws_mid_frame(*old(client)),
        ({
            let total = HANDSHAKE_FIXED_LEN + path.spec_bytes().len() + host.spec_bytes().len()
                + origin.spec_bytes().len();
            r is Ok <==> (ws_state(*old(client)) != WsState::Open && total <= HANDSHAKE_MAX_LEN)
        }),
        r is Ok ==> {
            let (len, key) = r->Ok_0;
            &&& len == HANDSHAKE_FIXED_LEN + path.spec_bytes().len() + host.spec_bytes().len()
                + origin.spec_bytes().len()
            &&& is_handshake_key(key@)
            &&& final(to)@.take(len as int) == upgrade_request(
                path.spec_bytes(),
                host.spec_bytes(),
                origin.spec_bytes(),
                key@,
            )
            &&& ws_state(*final(client)) == WsState::Connecting
        },
        r is Err ==> final(to)@ == old(to)@ && ws_state(*final(client)) == ws_state(*old(client)),
{
    let options = WebSocketOptions {
        path,
        host,
        origin,
        sub_protocols: None,
        additional_headers: None,
    };
    let result = client.inner.client_connect(&options, to.as_mut_slice());
    result.map(|(len, key)| (len, key.as_bytes().to_vec()))
}

/// Relies on `WebSocket::client_accept` (and
/// `read_server_connect_handshake_response`): an open client refuses at
/// once; otherwise the verdict depends on the key and the response alone. An
/// accepted response opens the client, an incomplete one changes nothing and
/// any other aborts it. It panics on a `Sec-WebSocket-Protocol` header whose
/// value does not fit a 24-byte string, so `from` must not name that header.
#[verifier::external_body]
pub(crate) fn client_accept(client: &mut WsClient, key: &[u8], from: &[u8]) -> (r:
    HandshakeVerdict)
    requires
        is_handshake_key(key@),
        !names_subprotocol(from@),
    ensures
        ws_mid_frame(*final(client)) == ws_mid_frame(*old(client)),
        ws_state(*old(client)) == WsState::Open ==> r == HandshakeVerdict::Refused && ws_state(
            *final(client),
        ) == WsState::Open,
        ws_state(*old(client)) != WsState::Open ==> {
            &&& r == handshake_verdict(key@, from@)
            &&& r is Accepted ==> ws_state(*final(client)) == WsState::Open
            &&& r is Incomplete ==> ws_state(*final(client)) == ws_state(*old(client))
            &&& r is Refused ==> ws_state(*final(client)) == WsState::Aborted
        },
        r is Accepted ==> r->Accepted_0 <= from@.len(),
{
    let key = WebSocketKey::from(core::str::from_utf8(key).unwrap());
    match client.inner.client_accept(&key, from) {
        Ok((len, _)) => HandshakeVerdict::Accepted(len),
        Err(Error::HttpHeaderIncomplete) => HandshakeVerdict::Incomplete,
        Err(_) => HandshakeVerdict::Refused,
    }
}

/// Relies on `WebSocket::read`: a client that is neither open nor closing
/// fails and changes nothing. Otherwise it decodes the first frame in
/// `from` into `to`, writing at most `to`'s length and using at most
/// `from`'s; an open client stays open unless the frame is a close. A whole
/// short unmasked text or binary frame that fits `to`, read between frames,
/// is copied out as it stands.
#[verifier::external_body]
pub(crate) fn read_frame(client: &mut WsClient, from: &[u8], to: &mut Vec<u8>) -> (r: Result<
    FrameRead,
    Error,
>)
    ensures
        final(to)@.len() == old(to)@.len(),
        r is Ok ==> r->Ok_0.len <= old(to)@.len() && r->Ok_0.consumed <= from@.len(),
        !(ws_state(*old(client)) is Open || ws_state(*old(client)) is CloseSent) ==> {
            &&& r is Err
            &&& *final(client) == *old(client)
            &&& final(to)@ == old(to)@
        },
        ws_state(*old(client)) is Open ==> (ws_state(*final(client)) is Open || ws_state(
            *final(client),
        ) is CloseReceived),
        ({
            let len = from@[1] as int;
            &&& (ws_state(*old(client)) is Open || ws_state(*old(client)) is CloseSent)
            &&& !ws_mid_frame(*old(client))
            &&& is_short_data_frame(from@)
            &&& len <= old(to)@.len()
        }) ==> {
            let len = from@[1] as usize;
            &&& r == Ok::<FrameRead, Error>(
                FrameRead {
                    consumed: (2 + len) as usize,
                    len,
                    complete: true,
                    kind: if from@[0] == 0x81 {
                        FrameKind::Text
                    } else {
                        FrameKind::Binary
                    },
                },
            )
            &&& final(to)@.take(len as int) == from@.subrange(2, 2 + len)
            &&& ws_state(*final(client)) == ws_state(*old(client))
            &&& !ws_mid_frame(*final(client))
        },
{
    client.inner.read(from, to.as_mut_slice()).map(|f| FrameRead {
        consumed: f.len_from,
        len: f.len_to,
        complete: f.end_of_message,
        kind: match f.message_type {
            WebSocketReceiveMessageType::Text => FrameKind::Text,
            WebSocketReceiveMessageType::Binary => FrameKind::Binary,
            WebSocketReceiveMessageType::CloseMustReply => FrameKind::CloseMustReply,
            WebSocketReceiveMessageType::CloseCompleted => FrameKind::CloseCompleted,
            WebSocketReceiveMessageType::Ping => FrameKind::Ping,
            WebSocketReceiveMessageType::Pong => FrameKind::Pong,
        },
    })
}

/// Relies on `WebSocket::write` (and `write_frame`): an open client, or one
/// whose peer is closing, frames `payload` as one final text frame; others
/// fail. A payload under 126 bytes gets header `0x81`, `0x80 | length`, a
/// four-byte mask and the masked payload, when `to` has room for them.
/// Every write here ends its message, so no frame continues an earlier one.
#[verifier::external_body]
pub(crate) fn write_text(client: &mut WsClient, payload: &[u8], to: &mut Vec<u8>) -> (r: Result<
    usize,
    Error,
>)
    ensures
        final(to)@.len() == old(to)@.len(),
        ws_state(*final(client)) == ws_state(*old(client)),
        ws_mid_frame(*final(client)) == ws_mid_frame(*old(client)),
        r is Ok ==> r->Ok_0 <= old(to)@.len(),
        !(ws_state(*old(client)) is Open || ws_state(*old(client)) is CloseReceived) ==> r is Err,
        (ws_state(*old(client)) is Open || ws_state(*old(client)) is CloseReceived)
            && payload@.len() < 126 ==> {
            &&& r is Ok <==> payload@.len() + 6 <= old(to)@.len()
            &&& r is Ok ==> {
                &&& r->Ok_0 == payload@.len() + 6
                &&& final(to)@[0] == 0x81
                &&& final(to)@[1] == 0x80 + payload@.len()
                &&& unmasked_payload(final(to)@, payload@.len() as int) == payload@
            }
        },
{
    client.inner.write(WebSocketSendMessageType::Text, true, payload, to.as_mut_slice())
}

/// Relies on `WebSocket::close`: an open client moves to `CloseSent` and
/// writes a masked close frame with status 1000 (normal closure), eight
/// bytes when `to` has room; a client that is not open fails and changes
/// nothing.
#[verifier::external_body]
pub(crate) fn close_normal(client: &mut WsClient, to: &mut Vec<u8>) -> (r: Result<usize, Error>)
    ensures
        final(to)@.len() == old(to)@.len(),
        ws_mid_frame(*final(client)) == ws_mid_frame(*old(client)),
        r is Ok ==> r->Ok_0 <= old(to)@.len(),
        ws_state(*old(client)) == WsState::Open ==> {
            &&& ws_state(*final(client)) == WsState::CloseSent
            &&& old(to)@.len() >= 8 ==> {
                &&& r == Ok::<usize, Error>(8)
                &&& final(to)@[0] == 0x88
                &&& final(to)@[1] == 0x82
                &&& unmasked_payload(final(to)@, 2) == seq![0x03u8, 0xe8]
            }
        },
        ws_state(*old(client)) != WsState::Open ==> r is Err && ws_state(*final(client)) == ws_state(
            *old(client),
        ),
{
    client.inner.close(WebSocketCloseStatusCode::NormalClosure, None, to.as_mut_slice())
}

} // verus!
