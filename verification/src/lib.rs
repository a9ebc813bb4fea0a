//! WebSocket upgrade negotiation and the life cycle of the message channel
//! that follows it, with every rule stated as a contract and proved.
//!
//! The crate holds no I/O. A caller hands in what it read from the HTTP
//! layer, gets back what to write, and drives the frame codec itself,
//! reporting each outcome to the channel so that the channel can decide the
//! next step.

pub mod accept;
pub mod channel;
pub mod headers;
pub mod protocol;
pub mod rejection;
pub mod text;
pub mod upgrade;

pub use crate::channel::{Message, WebSocket};
pub use crate::rejection::WebSocketUpgradeRejection;
pub use crate::upgrade::WebSocketUpgrade;
