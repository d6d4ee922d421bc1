use vstd::prelude::*;
use vstd::string::{StrSliceExecFns, StringExecFns};

verus! {

/// A status report sent to the server, tagged with the device's identity.
#[derive(Debug, Clone, Copy, PartialEq, Eq, Structural)]
pub enum StatusMessage {
    /// Sent once a session is open, to say which device this is.
    Identification,
    /// The button was pressed.
    Buzz,
}

/// The lowercase hexadecimal digit of `d` (0 to 15).
pub open spec fn hex_digit(d: int) -> char {
    "0123456789abcdef"@[d]
}

/// A hardware address written as two lowercase hex digits per byte, high
/// digit first, with no separators.
pub open spec fn mac_hex(mac: Seq<u8>) -> Seq<char> {
    Seq::new(
        2 * mac.len(),
        |i: int|
            if i % 2 == 0 {
                hex_digit(mac[i / 2] as int / 16)
            } else {
                hex_digit(mac[i / 2] as int % 16)
            },
    )
}

/// The value of the `type` field for each message.
pub open spec fn kind_text(msg: StatusMessage) -> Seq<char> {
    match msg {
        StatusMessage::Identification => "identification"@,
        StatusMessage::Buzz => "buzz"@,
    }
}

/// The compact JSON text of a status message:
/// `{"type":"<type>","id":"<mac in hex>"}`.
pub open spec fn status_json(msg: StatusMessage, mac: Seq<u8>) -> Seq<char> {
    "{\"type\":\""@ + kind_text(msg) + "\",\"id\":\""@ + mac_hex(mac) + "\"}"@
}

/// The JSON of a status message is plain ASCII, at most 45 characters.
pub proof fn lemma_status_json_ascii(msg: StatusMessage, mac: Seq<u8>)
    requires
        mac.len() == 6,
    ensures
        vstd::utf8::is_ascii_chars(status_json(msg, mac)),
        status_json(msg, mac).len() <= 45,
{
    reveal_strlit("{\"type\":\"");
    reveal_strlit("identification");
    reveal_strlit("buzz");
    reveal_strlit("\",\"id\":\"");
    reveal_strlit("\"}");
    reveal_strlit("0123456789abcdef");
    let hex = mac_hex(mac);
    assert forall|i: int| 0 <= i < hex.len() implies '\0' <= #[trigger] hex[i] <= '\u{7f}' by {
        let d = if i % 2 == 0 {
            mac[i / 2] as int / 16
        } else {
            mac[i / 2] as int % 16
        };
        assert(0 <= d < 16);
        assert(hex[i] == "0123456789abcdef"@[d]);
    }
    let s = status_json(msg, mac);
    let a = "{\"type\":\""@ + kind_text(msg) + "\",\"id\":\""@;
    assert(s == a + hex + "\"}"@);
    assert forall|i: int| 0 <= i < s.len() implies '\0' <= #[trigger] s[i] <= '\u{7f}' by {
        if i < a.len() {
            assert(s[i] == a[i]);
        } else if i < a.len() + hex.len() {
            assert(s[i] == hex[i - a.len()]);
        } else {
            assert(s[i] == "\"}"@[i - a.len() - hex.len()]);
        }
    }
}

fn push_hex_digit(s: &mut String, d: u8)
    requires
        d < 16,
    ensures
        final(s)@ == old(s)@.push(hex_digit(d as int)),
{
    let digits = "0123456789abcdef";
    proof {
        reveal_strlit("0123456789abcdef");
    }
    let one = digits.substring_char(d as usize, d as usize + 1);
    assert(one@ =~= seq![hex_digit(d as int)]);
    s.append(one);
}

/// Writes the identity of a device as twelve lowercase hex digits.
pub fn format_mac(mac: &[u8; 6]) -> (r: String)
    ensures
        r@ == mac_hex(mac@),
{
    let mut s = String::new();
    let mut i: usize = 0;
    while i < 6
        invariant
            i <= 6,
            mac@.len() == 6,
            s@ =~= mac_hex(mac@).take(2 * i as int),
        decreases 6 - i,
    {
        let b = mac[i];
        push_hex_digit(&mut s, b / 16);
        push_hex_digit(&mut s, b % 16);
        i = i + 1;
    }
    assert(mac_hex(mac@).take(12) =~= mac_hex(mac@));
    s
}

/// Serialises a status message for the device with hardware address `mac`
/// as compact JSON, `{"type":"identification"|"buzz","id":"<12 hex digits>"}`.
pub fn encode_status(msg: StatusMessage, mac: &[u8; 6]) -> (r: String)
    ensures
        r@ == status_json(msg, mac@),
{
    let mut s = String::from_str("{\"type\":\"");
    match msg {
        StatusMessage::Identification => s.append("identification"),
        StatusMessage::Buzz => s.append("buzz"),
    }
    s.append("\",\"id\":\"");
    let hex = format_mac(mac);
    s.append(hex.as_str());
    s.append("\"}");
    s
}

} // verus!
