use vstd::prelude::*;

use crate::models::{Attachment, Id};

verus! {

/// A user.
#[derive(Clone, Debug, PartialEq, Eq)]
pub struct User {
    /// The ID of the user.
    pub id: Id,
    /// The username.
    pub username: String,
    /// The avatar of the user.
    pub avatar: Option<Attachment>,
    /// The discriminator of the user.
    pub discriminator: String,
    /// The display name of the user.
    pub display_name: Option<String>,
    /// The status of the user.
    pub status: Option<UserStatus>,
    /// The user's relationships with other users.
    pub relations: Vec<UserRelationship>,
    /// Whether the user is online.
    pub online: bool,
    /// The badges of the user.
    pub badges: UserBadges,
    /// The flags of the user.
    pub flags: UserFlags,
}

/// A user's status.
#[derive(Clone, Debug, Default, PartialEq, Eq)]
pub struct UserStatus {
    pub text: Option<String>,
    pub presence: Option<Presence>,
}

/// A user's presence.
#[derive(Clone, Copy, Debug, PartialEq, Eq, Structural)]
pub enum Presence {
    Online,
    Invisible,
    Focus,
    Idle,
    Busy,
}

/// A request to edit a user.
#[derive(Clone, Debug, Default)]
pub struct UserUpdate {
    pub status: Option<UserStatus>,
    pub profile: Option<UserProfileUpdate>,
    pub avatar: Option<Id>,
    pub display_name: Option<String>,
    pub remove: Option<UserFields>,
    pub badges: Option<u32>,
    pub flags: Option<u32>,
}

/// A request to edit a user's profile.
#[derive(Clone, Debug, Default)]
pub struct UserProfileUpdate {
    pub content: Option<String>,
    pub background: Option<Id>,
}

/// A relationship with another user.
#[derive(Clone, Debug, Default, PartialEq, Eq)]
pub struct UserRelationship {
    pub id: Id,
    pub status: RelationshipStatus,
}

/// The kind of a relationship between two users.
#[derive(Clone, Copy, Debug, Default, PartialEq, Eq, Structural)]
pub enum RelationshipStatus {
    /// No relationship at all.
    #[default]
    Unrelated,
    User,
    Friend,
    Outgoing,
    Incoming,
    Blocked,
    BlockedOther,
}

/// The status of the first relationship in `relations` with the user `user`, or `Unrelated`
/// when there is none.
pub open spec fn relationship_in(relations: Seq<UserRelationship>, user: Seq<char>) -> RelationshipStatus
    decreases relations.len(),
{
    if relations.len() == 0 {
        RelationshipStatus::Unrelated
    } else if relations[0].id@ == user {
        relations[0].status
    } else {
        relationship_in(relations.drop_first(), user)
    }
}

/// The status of the first relationship in `relations` with the user `user`.
pub fn relationship_with(relations: &Vec<UserRelationship>, user: &str) -> (r: RelationshipStatus)
    ensures
        r == relationship_in(relations@, user@),
{
    let target = String::from_str(user);
    let mut i: usize = 0;
    assert(relations@.skip(0) =~= relations@);
    while i < relations.len()
        invariant
            0 <= i <= relations@.len(),
            target@ == user@,
            relationship_in(relations@, user@) == relationship_in(relations@.skip(i as int), user@),
        decreases relations@.len() - i,
    {
        assert(relations@.skip(i as int).drop_first() =~= relations@.skip(i + 1));
        if relations[i].id == target {
            return relations[i].status;
        }
        i += 1;
    }
    RelationshipStatus::Unrelated
}

/// Looking up the relationship with a user.
pub trait CheckRelationship {
    fn with(&self, user: &str) -> RelationshipStatus;
}

impl CheckRelationship for Vec<UserRelationship> {
    fn with(&self, user: &str) -> RelationshipStatus {
        relationship_with(self, user)
    }
}

/// The fields that can be removed from a user.
#[derive(Clone, Copy, Debug, PartialEq, Eq, Structural)]
pub enum UserFields {
    Avatar,
    StatusText,
    StatusPresence,
    ProfileContent,
    ProfileBackground,
    DisplayName,
}

/// The badges of a user, as a bitfield.
#[derive(Debug, Clone, Copy, PartialEq, Eq, Structural, Default)]
pub struct UserBadges(pub u32);

/// The flags of a user, as a bitfield: 1 suspended, 2 deleted, 4 banned, 8 spam.
#[derive(Debug, Clone, Copy, PartialEq, Eq, Structural, Default)]
pub struct UserFlags(pub u32);

/// The flags of a user, as the server reports them.
#[derive(Clone, Debug)]
pub struct FlagResponse {
    pub flags: i32,
}

/// The users and servers two users have in common.
pub struct MutualResponse {
    pub users: Vec<String>,
    pub servers: Vec<String>,
}

/// Information on a bot.
pub struct BotInformation {
    pub owner: String,
}

/// A request to send a friend request.
pub struct SendFriendRequest {
    pub username: String,
}

} // verus!
