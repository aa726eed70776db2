use vstd::prelude::*;

use crate::error::AuthError;
use crate::models::{Id, Message, Server};

verus! {

/// An intent sent by the client to the gateway.
#[derive(Debug, Clone, PartialEq, Eq)]
pub enum ClientEvent {
    Authenticate { token: String },
    BeginTyping { channel: Id },
    EndTyping { channel: Id },
    Ping { data: usize },
}

/// An event sent by the gateway to the client.
#[derive(Clone, Debug)]
pub enum GatewayEvent {
    Authenticated,
    Error { error: AuthError },
    Pong,
    Ready,
    Message(Message),
    ServerCreate(Server),
    ChannelStartTyping,
    ChannelStopTyping,
    /// Any event whose tag this library does not know.
    Unknown,
}

} // verus!
