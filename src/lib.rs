//! Session core of a live chat view: the wire codec, the session state, the
//! reducer that folds inbound events into it, and the dispatcher that turns user
//! intents into outbound events.

mod json;
pub mod laws;
pub mod session;
pub mod theme;
pub mod wire;

pub use session::{Chat, Msg, UserProfile};
pub use theme::Theme;
pub use wire::{InboundEvent, MessageData, MsgTypes, WebSocketMessage};
