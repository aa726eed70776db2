use vstd::prelude::*;

use crate::models::Id;

verus! {

/// A channel.
#[derive(Clone, Debug, PartialEq, Eq)]
pub enum Channel {
    DirectMessage(DirectMessageChannel),
}

/// The fields that can be removed from a channel.
#[derive(Clone, Copy, Debug, PartialEq, Eq, Structural)]
pub enum ChannelFields {
    DefaultPermissions,
    Description,
    Icon,
}

/// A request to create a new channel in a server.
#[derive(Clone, Debug)]
pub struct ChannelCreate {
    pub name: String,
    pub channel_type: ChannelType,
    pub description: Option<String>,
    pub nsfw: Option<bool>,
}

/// The type of a channel.
#[derive(Clone, Copy, Debug, PartialEq, Eq, Structural)]
pub enum ChannelType {
    Text,
    Voice,
}

/// A request to update an existing channel.
#[derive(Clone, Debug)]
pub struct ChannelUpdate {
    pub archived: Option<bool>,
    pub description: Option<String>,
    pub icon: Option<Id>,
    pub name: Option<String>,
    pub nsfw: Option<bool>,
    pub owner: Option<Id>,
    pub remove: Option<ChannelFields>,
}

/// A direct message channel between two users.
#[derive(Clone, Debug, PartialEq, Eq)]
pub struct DirectMessageChannel {
    /// Whether the direct message is active.
    pub active: bool,
    /// The ID of the channel.
    pub id: Id,
    /// The ID of the last message in the channel.
    pub last_message_id: Option<Id>,
    /// The two recipients of the direct message.
    pub recipients: [Id; 2],
}

} // verus!
