//! Firmware logic of a network-attached buzzer: LED pattern compilation and
//! rendering, status messages, event dispatch and the WebSocket session.
//!
//! Each module states its behaviour as contracts over spec functions; the
//! laws that relate several functions are public proof functions next to
//! them.
pub mod color;
pub mod command;
pub mod dispatcher;
pub mod error;
pub mod fault;
pub mod frames;
pub mod pattern;
pub mod renderer;
pub mod session;
pub mod status;

pub use color::{hsv_to_rgb, Rgb};
pub use command::{LedCmd, MessageLedColor, MessageLedDetails, MessageLedPattern, MessageLedType};
pub use dispatcher::{dispatch, DispatchAction, DispatchEvent, WebsocketEvent};
pub use error::PatternError;
pub use pattern::{
    compile, PatternStep, PatternTable, MAX_BRIGHTNESS, MIN_WAVE_PERIOD_MS, WAVE_STEPS, WAVE_TICK_MS,
};
pub use renderer::{LedOutput, LedRenderer, RendererState};
pub use session::{ConnectionState, SessionOutput, WebsocketSession, BUF_SIZE};
pub use status::{encode_status, format_mac, StatusMessage};
