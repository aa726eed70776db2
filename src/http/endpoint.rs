use vstd::prelude::*;

verus! {

/// A route of the request/response API; the fields are the IDs that the route names.
#[derive(Debug, Clone)]
pub enum Endpoint {
    // Bot-related
    Bot(String),
    BotCreate(),
    BotInvite(String),

    // Channel-related
    Channel(String),
    ChannelCreate(),
    ChannelInvites(String),
    ChannelJoinCall(String),
    ChannelMembers(String),
    ChannelMessage(String, String),
    ChannelMessageAck(String, String),
    ChannelMessageBulk(String),
    ChannelMessagePin(String, String),
    ChannelMessageReaction(String, String, String),
    ChannelMessageReactions(String, String),
    ChannelMessageSearch(String),
    ChannelMessages(String),
    ChannelPermission(String, String),
    ChannelRecipient(String, String),
    ChannelWebhooks(String),

    // Emoji-related
    Emoji(String),

    // Invite-related
    Invite(String),

    // Relationship-related
    RelationshipBlock(String),
    RelationshipFriend(String),
    RelationshipFriends(),
    RelationshipMutual(String),

    // Server-related
    Server(String),
    ServerAck(String),
    ServerBan(String, String),
    ServerBans(String),
    ServerChannels(String),
    ServerCreate(),
    ServerInvites(String),
    ServerMember(String, String),
    ServerMemberExperimentalQuery(String),
    ServerMembers(String),
    ServerPermission(String, String),
    ServerRole(String, String),
    ServerRoles(String),

    // User-related
    User(String),
    UserDM(String),
    UserDMs(),
    UserDefaultAvatar(String),
    UserFlags(String),
    UserProfile(String),
    UserSafety(),
    UserUsername(String),
}

/// The path of an endpoint: its route with each ID put in its place.
pub open spec fn endpoint_path(e: Endpoint) -> Seq<char> {
    match e {
        Endpoint::Bot(a) => "/bots/"@ + a@,
        Endpoint::BotCreate() => "/bots/create"@,
        Endpoint::BotInvite(a) => "/bots/"@ + a@ + "/invite"@,
        Endpoint::Channel(a) => "/channels/"@ + a@,
        Endpoint::ChannelCreate() => "/channels/create"@,
        Endpoint::ChannelInvites(a) => "/channels/"@ + a@ + "/invites"@,
        Endpoint::ChannelJoinCall(a) => "/channels/"@ + a@ + "/join_call"@,
        Endpoint::ChannelMembers(a) => "/channels/"@ + a@ + "/members"@,
        Endpoint::ChannelMessage(a, b) => "/channels/"@ + a@ + "/messages/"@ + b@,
        Endpoint::ChannelMessageAck(a, b) => "/channels/"@ + a@ + "/ack/"@ + b@,
        Endpoint::ChannelMessageBulk(a) => "/channels/"@ + a@ + "/messages/bulk"@,
        Endpoint::ChannelMessagePin(a, b) => "/channels/"@ + a@ + "/messages/"@ + b@ + "/pin"@,
        Endpoint::ChannelMessageReaction(a, b, c) => "/channels/"@ + a@ + "/messages/"@ + b@ + "/reactions/"@ + c@,
        Endpoint::ChannelMessageReactions(a, b) => "/channels/"@ + a@ + "/messages/"@ + b@ + "/reactions"@,
        Endpoint::ChannelMessageSearch(a) => "/channels/"@ + a@ + "/search"@,
        Endpoint::ChannelMessages(a) => "/channels/"@ + a@ + "/messages"@,
        Endpoint::ChannelPermission(a, b) => "/channels/"@ + a@ + "/permissions/"@ + b@,
        Endpoint::ChannelRecipient(a, b) => "/channels/"@ + a@ + "/recipients/"@ + b@,
        Endpoint::ChannelWebhooks(a) => "/channels/"@ + a@ + "/webhooks"@,
        Endpoint::Emoji(a) => "/custom/emoji/"@ + a@,
        Endpoint::Invite(a) => "/invites/"@ + a@,
        Endpoint::RelationshipBlock(a) => "/users/"@ + a@ + "/block"@,
        Endpoint::RelationshipFriend(a) => "/users/"@ + a@ + "/friend"@,
        Endpoint::RelationshipFriends() => "/users/friend"@,
        Endpoint::RelationshipMutual(a) => "/users/"@ + a@ + "/mutual"@,
        Endpoint::Server(a) => "/servers/"@ + a@,
        Endpoint::ServerAck(a) => "/servers/"@ + a@ + "/ack"@,
        Endpoint::ServerBan(a, b) => "/servers/"@ + a@ + "/bans/"@ + b@,
        Endpoint::ServerBans(a) => "/servers/"@ + a@ + "/bans"@,
        Endpoint::ServerChannels(a) => "/servers/"@ + a@ + "/channels"@,
        Endpoint::ServerCreate() => "/servers/create"@,
        Endpoint::ServerInvites(a) => "/servers/"@ + a@ + "/invites"@,
        Endpoint::ServerMember(a, b) => "/servers/"@ + a@ + "/members/"@ + b@,
        Endpoint::ServerMemberExperimentalQuery(a) => "/servers/"@ + a@ + "/members_experimental_query"@,
        Endpoint::ServerMembers(a) => "/servers/"@ + a@ + "/members"@,
        Endpoint::ServerPermission(a, b) => "/server/"@ + a@ + "/permissions/"@ + b@,
        Endpoint::ServerRole(a, b) => "/servers/"@ + a@ + "/roles/"@ + b@,
        Endpoint::ServerRoles(a) => "/server/"@ + a@ + "/roles"@,
        Endpoint::User(a) => "/users/"@ + a@,
        Endpoint::UserDM(a) => "/users/"@ + a@ + "/dm"@,
        Endpoint::UserDMs() => "/users/dms"@,
        Endpoint::UserDefaultAvatar(a) => "/users/"@ + a@ + "/default_avatar"@,
        Endpoint::UserFlags(a) => "/users/"@ + a@ + "/flags"@,
        Endpoint::UserProfile(a) => "/users/"@ + a@ + "/profile"@,
        Endpoint::UserSafety() => "/safety/report"@,
        Endpoint::UserUsername(a) => "/users/"@ + a@ + "/username"@,
    }
}

impl Endpoint {
    /// The path component of the endpoint's URL.
    pub fn path(&self) -> (r: String)
        ensures
            r@ == endpoint_path(*self),
    {
        match self {
            Endpoint::Bot(a) => String::from_str("/bots/").concat(a.as_str()),
            Endpoint::BotCreate() => String::from_str("/bots/create"),
            Endpoint::BotInvite(a) => String::from_str("/bots/").concat(a.as_str()).concat("/invite"),
            Endpoint::Channel(a) => String::from_str("/channels/").concat(a.as_str()),
            Endpoint::ChannelCreate() => String::from_str("/channels/create"),
            Endpoint::ChannelInvites(a) => String::from_str("/channels/").concat(a.as_str()).concat("/invites"),
            Endpoint::ChannelJoinCall(a) => String::from_str("/channels/").concat(a.as_str()).concat("/join_call"),
            Endpoint::ChannelMembers(a) => String::from_str("/channels/").concat(a.as_str()).concat("/members"),
            Endpoint::ChannelMessage(a, b) => String::from_str("/channels/").concat(a.as_str()).concat("/messages/").concat(b.as_str()),
            Endpoint::ChannelMessageAck(a, b) => String::from_str("/channels/").concat(a.as_str()).concat("/ack/").concat(b.as_str()),
            Endpoint::ChannelMessageBulk(a) => String::from_str("/channels/").concat(a.as_str()).concat("/messages/bulk"),
            Endpoint::ChannelMessagePin(a, b) => String::from_str("/channels/").concat(a.as_str()).concat("/messages/").concat(b.as_str()).concat("/pin"),
            Endpoint::ChannelMessageReaction(a, b, c) => String::from_str("/channels/").concat(a.as_str()).concat("/messages/").concat(b.as_str()).concat("/reactions/").concat(c.as_str()),
            Endpoint::ChannelMessageReactions(a, b) => String::from_str("/channels/").concat(a.as_str()).concat("/messages/").concat(b.as_str()).concat("/reactions"),
            Endpoint::ChannelMessageSearch(a) => String::from_str("/channels/").concat(a.as_str()).concat("/search"),
            Endpoint::ChannelMessages(a) => String::from_str("/channels/").concat(a.as_str()).concat("/messages"),
            Endpoint::ChannelPermission(a, b) => String::from_str("/channels/").concat(a.as_str()).concat("/permissions/").concat(b.as_str()),
            Endpoint::ChannelRecipient(a, b) => String::from_str("/channels/").concat(a.as_str()).concat("/recipients/").concat(b.as_str()),
            Endpoint::ChannelWebhooks(a) => String::from_str("/channels/").concat(a.as_str()).concat("/webhooks"),
            Endpoint::Emoji(a) => String::from_str("/custom/emoji/").concat(a.as_str()),
            Endpoint::Invite(a) => String::from_str("/invites/").concat(a.as_str()),
            Endpoint::RelationshipBlock(a) => String::from_str("/users/").concat(a.as_str()).concat("/block"),
            Endpoint::RelationshipFriend(a) => String::from_str("/users/").concat(a.as_str()).concat("/friend"),
            Endpoint::RelationshipFriends() => String::from_str("/users/friend"),
            Endpoint::RelationshipMutual(a) => String::from_str("/users/").concat(a.as_str()).concat("/mutual"),
            Endpoint::Server(a) => String::from_str("/servers/").concat(a.as_str()),
            Endpoint::ServerAck(a) => String::from_str("/servers/").concat(a.as_str()).concat("/ack"),
            Endpoint::ServerBan(a, b) => String::from_str("/servers/").concat(a.as_str()).concat("/bans/").concat(b.as_str()),
            Endpoint::ServerBans(a) => String::from_str("/servers/").concat(a.as_str()).concat("/bans"),
            Endpoint::ServerChannels(a) => String::from_str("/servers/").concat(a.as_str()).concat("/channels"),
            Endpoint::ServerCreate() => String::from_str("/servers/create"),
            Endpoint::ServerInvites(a) => String::from_str("/servers/").concat(a.as_str()).concat("/invites"),
            Endpoint::ServerMember(a, b) => String::from_str("/servers/").concat(a.as_str()).concat("/members/").concat(b.as_str()),
            Endpoint::ServerMemberExperimentalQuery(a) => String::from_str("/servers/").concat(a.as_str()).concat("/members_experimental_query"),
            Endpoint::ServerMembers(a) => String::from_str("/servers/").concat(a.as_str()).concat("/members"),
            Endpoint::ServerPermission(a, b) => String::from_str("/server/").concat(a.as_str()).concat("/permissions/").concat(b.as_str()),
            Endpoint::ServerRole(a, b) => String::from_str("/servers/").concat(a.as_str()).concat("/roles/").concat(b.as_str()),
            Endpoint::ServerRoles(a) => String::from_str("/server/").concat(a.as_str()).concat("/roles"),
            Endpoint::User(a) => String::from_str("/users/").concat(a.as_str()),
            Endpoint::UserDM(a) => String::from_str("/users/").concat(a.as_str()).concat("/dm"),
            Endpoint::UserDMs() => String::from_str("/users/dms"),
            Endpoint::UserDefaultAvatar(a) => String::from_str("/users/").concat(a.as_str()).concat("/default_avatar"),
            Endpoint::UserFlags(a) => String::from_str("/users/").concat(a.as_str()).concat("/flags"),
            Endpoint::UserProfile(a) => String::from_str("/users/").concat(a.as_str()).concat("/profile"),
            Endpoint::UserSafety() => String::from_str("/safety/report"),
            Endpoint::UserUsername(a) => String::from_str("/users/").concat(a.as_str()).concat("/username"),
        }
    }
}

} // verus!
