//! The browser client: a Fluvio handle reached through the websocket proxy
//! from a web page.


pub mod browser;
pub mod net;
pub mod routing;
