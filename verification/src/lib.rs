//! Verified core of a Fluvio websocket client, its websocket proxy and a
//! counter widget: URL routing, connector addressing, proxy frame handling
//! and the widget's display rules.

pub mod address;
pub mod text;
pub mod connector;
pub mod ws;
pub mod web;
pub mod cluster;
pub mod proxy;
pub mod counter;
