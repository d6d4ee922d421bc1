use vstd::prelude::*;

use crate::command::LedCmd;
use crate::status::StatusMessage;

verus! {

/// What the WebSocket session reports to the dispatcher.
#[derive(Debug, Clone, Copy, PartialEq, Eq, Structural)]
pub enum WebsocketEvent {
    /// The opening handshake completed.
    Connected,
    /// The session ended; a new one is being set up.
    Disconnected,
    /// The server sent a valid LED command.
    Command(LedCmd),
}

/// One event taken by the dispatcher from either of its sources.
#[derive(Debug, Clone, Copy, PartialEq, Eq, Structural)]
pub enum DispatchEvent {
    Websocket(WebsocketEvent),
    /// The debounced button source; `true` for a press.
    Button(bool),
}

/// What the dispatcher does about an event.
#[derive(Debug, Clone, Copy, PartialEq, Eq, Structural)]
pub enum DispatchAction {
    /// Queue a status message for the server.
    SendStatus(StatusMessage),
    /// Hand a command to the LED renderer.
    SetLed(LedCmd),
    /// Nothing to do.
    Ignore,
}

/// The routing rule: a new session identifies the device, a press buzzes,
/// server commands go to the LED, and a lost session changes nothing (the
/// pattern on show keeps running).
pub open spec fn route(event: DispatchEvent) -> DispatchAction {
    match event {
        DispatchEvent::Websocket(WebsocketEvent::Connected) => DispatchAction::SendStatus(
            StatusMessage::Identification,
        ),
        DispatchEvent::Websocket(WebsocketEvent::Disconnected) => DispatchAction::Ignore,
        DispatchEvent::Websocket(WebsocketEvent::Command(cmd)) => DispatchAction::SetLed(cmd),
        DispatchEvent::Button(pressed) => if pressed {
            DispatchAction::SendStatus(StatusMessage::Buzz)
        } else {
            DispatchAction::Ignore
        },
    }
}

/// Decides what to do about one event, by [`route`].
pub fn dispatch(event: DispatchEvent) -> (r: DispatchAction)
    ensures
        r == route(event),
{
    match event {
        DispatchEvent::Websocket(WebsocketEvent::Connected) => DispatchAction::SendStatus(
            StatusMessage::Identification,
        ),
        DispatchEvent::Websocket(WebsocketEvent::Disconnected) => DispatchAction::Ignore,
        DispatchEvent::Websocket(WebsocketEvent::Command(cmd)) => DispatchAction::SetLed(cmd),
        DispatchEvent::Button(pressed) => {
            if pressed {
                DispatchAction::SendStatus(StatusMessage::Buzz)
            } else {
                DispatchAction::Ignore
            }
        },
    }
}

} // verus!
