//! How the proxy treats the frames a websocket client sends.

use vstd::prelude::*;

verus! {

/// The websocket close code for a frame whose data the endpoint cannot
/// accept ("invalid frame payload data").
pub const CLOSE_INVALID: u16 = 1007;

/// Why a websocket is closed: a close code and an optional description.
pub struct CloseReason {
    pub code: u16,
    pub description: Option<String>,
}

/// A frame received from the websocket client, or the protocol error that
/// came in its place.
pub enum ClientFrame {
    Text(String),
    Binary(Vec<u8>),
    Continuation,
    Ping(Vec<u8>),
    Pong(Vec<u8>),
    Close(Option<CloseReason>),
    Nop,
    ProtocolError(String),
}

/// What the proxy does with a client frame.
pub enum StreamAction {
    /// Queue these bytes for the cluster.
    Forward(Vec<u8>),
    /// Nothing (a pong answers the proxy's own ping).
    Ignore,
    /// Close the websocket with this reason.
    Close(Option<CloseReason>),
}

/// The description of the close that refuses a frame that is not binary.
pub open spec fn binary_only_text() -> Seq<char> {
    "Fluvio websocket proxy only supports binary messages"@
}

/// The close reason that refuses every frame the proxy does not carry.
pub open spec fn is_binary_only_close(reason: Option<CloseReason>) -> bool {
    &&& reason matches Some(cr)
    &&& cr.code == CLOSE_INVALID
    &&& cr.description matches Some(d)
    &&& d@ == binary_only_text()
}

/// The reason given when a frame that is not binary is refused.
pub fn binary_only_close() -> (r: CloseReason)
    ensures
        is_binary_only_close(Some(r)),
{
    CloseReason {
        code: CLOSE_INVALID,
        description: Some(String::from_str("Fluvio websocket proxy only supports binary messages")),
    }
}

/// The proxy's answer to a client frame: binary data goes to the cluster
/// unchanged, a pong is ignored, a close is echoed with the client's reason,
/// and anything else closes the socket as carrying invalid data.
pub fn handle_frame(frame: ClientFrame) -> (r: StreamAction)
    ensures
        match frame {
            ClientFrame::Binary(b) => r matches StreamAction::Forward(out) && out@ == b@,
            ClientFrame::Pong(_) => r is Ignore,
            ClientFrame::Close(reason) => r == StreamAction::Close(reason),
            _ => r matches StreamAction::Close(reason) && is_binary_only_close(reason),
        },
{
    match frame {
        ClientFrame::Binary(b) => StreamAction::Forward(b),
        ClientFrame::Pong(_) => StreamAction::Ignore,
        ClientFrame::Close(reason) => StreamAction::Close(reason),
        _ => StreamAction::Close(Some(binary_only_close())),
    }
}

} // verus!
