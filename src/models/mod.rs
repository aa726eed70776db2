pub mod attachment;
pub mod bot;
pub mod channel;
pub mod embed;
pub mod event;
pub mod member;
pub mod message;
pub mod permission;
pub mod server;
pub mod user;

pub use attachment::{Attachment, AttachmentMetadata, AttachmentTag};
pub use bot::PublicBot;
pub use channel::{Channel, ChannelCreate, ChannelFields, ChannelType, ChannelUpdate, DirectMessageChannel};
pub use embed::{
    BandcampType, Embed, EmbedCreate, Image, ImageSize, LightspeedType, Special, Text, TwitchType,
    Video, WebsiteMetadata,
};
pub use event::{ClientEvent, GatewayEvent};
pub use member::MemberFields;
pub use message::{
    Message, MessageEdit, MessageFlags, MessageInteractions, MessageMasquerade,
    MessageReplyIntent, MessageSend,
};
pub use permission::{
    Override, OverrideField, Permission, PermissionFlag, UserPermission, UserPermissionFlag,
};
pub use server::{
    Category, Role, RoleFields, Server, ServerBan, ServerCreate, ServerEdit, ServerFields,
    ServerFlags, SystemMessageChannels,
};
pub use user::{
    BotInformation, CheckRelationship, FlagResponse, MutualResponse, Presence,
    RelationshipStatus, SendFriendRequest, User, UserBadges, UserFields, UserFlags,
    UserProfileUpdate, UserRelationship, UserStatus, UserUpdate,
};

use vstd::prelude::*;

verus! {

/// Identifier of any stored object.
pub type Id = String;

} // verus!
