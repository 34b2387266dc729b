//! The native websocket client: a Fluvio handle reached through the
//! websocket proxy.

pub mod client;
pub mod net;
