//! The websocket proxy: which cluster it opens for a client, how it treats
//! the client's frames, and how it pumps bytes between the two.

pub mod endpoint;


pub mod session;
pub mod stream;
