use vstd::prelude::*;

use std::collections::HashMap;

use crate::models::attachment::Attachment;
use crate::models::permission::{OverrideField, Permission};
use crate::models::Id;

verus! {

/// A role in a server, which defines permissions and attributes for members.
#[derive(Clone, Debug)]
pub struct Role {
    /// The colour associated with the role.
    pub colour: Option<String>,
    /// Whether the role is displayed separately in the member list.
    pub hoist: Option<bool>,
    /// The name of the role.
    pub name: String,
    /// The permissions associated with the role.
    pub permissions: OverrideField,
    /// The rank of the role.
    pub rank: Option<i64>,
}

/// The fields that can be removed from a role.
#[derive(Clone, Copy, Debug, PartialEq, Eq, Structural)]
pub enum RoleFields {
    Colour,
}

/// The fields that can be removed from a server.
#[derive(Clone, Copy, Debug, PartialEq, Eq, Structural)]
pub enum ServerFields {
    Banner,
    Categories,
    Description,
    Icon,
    SystemMessages,
}

/// A category in a server, which can contain multiple channels.
#[derive(Clone, Debug, PartialEq, Eq)]
pub struct Category {
    /// Channels in this category.
    pub channels: Vec<Id>,
    /// The ID of the category.
    pub id: Id,
    /// The name of the category.
    pub title: String,
}

/// The channels that receive the automatic messages of member events.
#[derive(Debug, Clone, PartialEq, Eq, Default)]
pub struct SystemMessageChannels {
    /// Channel where a message is posted when someone is banned.
    pub user_banned: Option<Id>,
    /// Channel where a message is sent when someone joins the server.
    pub user_joined: Option<Id>,
    /// Channel where a message is posted when someone is kicked.
    pub user_kicked: Option<Id>,
    /// Channel where a message is sent when someone leaves the server.
    pub user_left: Option<Id>,
}

/// The flags of a server, as a bitfield: 1 verified, 2 official.
#[derive(Debug, Clone, Copy, PartialEq, Eq, Structural, Default)]
pub struct ServerFlags(pub u32);

/// A server.
#[derive(Clone, Debug, Default)]
pub struct Server {
    /// Whether the server has analytics enabled.
    pub analytics: Option<bool>,
    /// The banner of the server, if any.
    pub banner: Option<Attachment>,
    /// The categories in the server.
    pub categories: Vec<Category>,
    /// The channels within the server.
    pub channels: Vec<Id>,
    /// The default permissions for the server.
    pub default_permissions: Permission,
    /// The description of the server.
    pub description: String,
    /// Whether the server is discoverable.
    pub discoverable: Option<bool>,
    /// The flags associated with the server.
    pub flags: Option<ServerFlags>,
    /// The ID of the server.
    pub id: Id,
    /// The icon of the server, if any.
    pub icon: Option<Attachment>,
    /// The name of the server.
    pub name: String,
    /// Whether the server is not safe for work.
    pub nsfw: Option<bool>,
    /// The owner of the server.
    pub owner: Id,
    /// The roles of the server, by ID.
    pub roles: HashMap<Id, Role>,
    /// The system message channels for the server.
    pub system_messages: Option<SystemMessageChannels>,
}

/// A ban in a server.
#[derive(Clone, Debug)]
pub struct ServerBan {
    /// The ID of the user who is banned.
    pub user: Id,
    /// The reason for the ban, if provided.
    pub reason: Option<String>,
}

/// A request to create a new server.
#[derive(Clone, Debug, Default)]
pub struct ServerCreate {
    pub description: Option<String>,
    pub name: Option<String>,
    pub nsfw: Option<bool>,
}

/// A request to edit an existing server.
#[derive(Clone, Debug, Default)]
pub struct ServerEdit {
    pub analyrics: Option<bool>,
    pub banner: Option<Attachment>,
    pub categories: Option<Vec<Category>>,
    pub description: Option<String>,
    pub discoverable: Option<bool>,
    pub flags: Option<ServerFlags>,
    pub icon: Option<Attachment>,
    pub name: Option<String>,
    pub remove: Option<ServerFields>,
    pub system_messages: Option<SystemMessageChannels>,
}

} // verus!
