use vstd::prelude::*;

verus! {

/// A single server or channel permission; each one owns one bit of a `Permission` set.
#[derive(Debug, Clone, Copy, PartialEq, Eq, Structural, PartialOrd, Ord, Hash)]
pub enum PermissionFlag {
    ManageChannel,
    ManageServer,
    ManagePermissions,
    ManageRole,
    ManageCustomisation,
    KickMembers,
    BanMembers,
    TimeoutMembers,
    AssignRoles,
    ChangeNickname,
    ManageNicknames,
    ChangeAvatar,
    RemoveAvatars,
    ViewChannel,
    ReadMessageHistory,
    SendMessage,
    ManageMessages,
    ManageWebhooks,
    InviteOthers,
    SendEmbeds,
    UploadFiles,
    Masquerade,
    React,
    Connect,
    Speak,
    Video,
    MuteMembers,
    DeafenMembers,
    MoveMembers,
}

/// The bit index that the wire format gives to each permission.
pub open spec fn permission_shift(flag: PermissionFlag) -> u64 {
    match flag {
        PermissionFlag::ManageChannel => 0,
        PermissionFlag::ManageServer => 1,
        PermissionFlag::ManagePermissions => 2,
        PermissionFlag::ManageRole => 3,
        PermissionFlag::ManageCustomisation => 4,
        PermissionFlag::KickMembers => 6,
        PermissionFlag::BanMembers => 7,
        PermissionFlag::TimeoutMembers => 8,
        PermissionFlag::AssignRoles => 9,
        PermissionFlag::ChangeNickname => 10,
        PermissionFlag::ManageNicknames => 11,
        PermissionFlag::ChangeAvatar => 12,
        PermissionFlag::RemoveAvatars => 13,
        PermissionFlag::ViewChannel => 20,
        PermissionFlag::ReadMessageHistory => 21,
        PermissionFlag::SendMessage => 22,
        PermissionFlag::ManageMessages => 23,
        PermissionFlag::ManageWebhooks => 24,
        PermissionFlag::InviteOthers => 25,
        PermissionFlag::SendEmbeds => 26,
        PermissionFlag::UploadFiles => 27,
        PermissionFlag::Masquerade => 28,
        PermissionFlag::React => 29,
        PermissionFlag::Connect => 30,
        PermissionFlag::Speak => 31,
        PermissionFlag::Video => 32,
        PermissionFlag::MuteMembers => 33,
        PermissionFlag::DeafenMembers => 34,
        PermissionFlag::MoveMembers => 35,
    }
}

/// Every permission's bit lies inside a `u64`.
pub proof fn lemma_permission_shift_bound(flag: PermissionFlag)
    ensures
        permission_shift(flag) < 64,
{
}

/// The mask of a permission: one bit, at `permission_shift(flag)`.
pub open spec fn permission_bits(flag: PermissionFlag) -> u64 {
    1u64 << permission_shift(flag)
}

impl PermissionFlag {
    /// The mask of this permission inside a `Permission` bitfield.
    pub fn bits(self) -> (r: u64)
        ensures
            r == permission_bits(self),
            permission_shift(self) < 64,
    {
        let shift: u64 = match self {
            PermissionFlag::ManageChannel => 0,
            PermissionFlag::ManageServer => 1,
            PermissionFlag::ManagePermissions => 2,
            PermissionFlag::ManageRole => 3,
            PermissionFlag::ManageCustomisation => 4,
            PermissionFlag::KickMembers => 6,
            PermissionFlag::BanMembers => 7,
            PermissionFlag::TimeoutMembers => 8,
            PermissionFlag::AssignRoles => 9,
            PermissionFlag::ChangeNickname => 10,
            PermissionFlag::ManageNicknames => 11,
            PermissionFlag::ChangeAvatar => 12,
            PermissionFlag::RemoveAvatars => 13,
            PermissionFlag::ViewChannel => 20,
            PermissionFlag::ReadMessageHistory => 21,
            PermissionFlag::SendMessage => 22,
            PermissionFlag::ManageMessages => 23,
            PermissionFlag::ManageWebhooks => 24,
            PermissionFlag::InviteOthers => 25,
            PermissionFlag::SendEmbeds => 26,
            PermissionFlag::UploadFiles => 27,
            PermissionFlag::Masquerade => 28,
            PermissionFlag::React => 29,
            PermissionFlag::Connect => 30,
            PermissionFlag::Speak => 31,
            PermissionFlag::Video => 32,
            PermissionFlag::MuteMembers => 33,
            PermissionFlag::DeafenMembers => 34,
            PermissionFlag::MoveMembers => 35,
        };
        1u64 << shift
    }
}

/// Whether bit `shift` is set in `word`.
pub open spec fn bit_set(word: u64, shift: u64) -> bool {
    word & (1u64 << shift) != 0
}

/// Setting one bit leaves it set and every other bit as it was.
pub proof fn lemma_set_bit(word: u64, shift: u64, other: u64)
    requires
        shift < 64,
        other < 64,
    ensures
        bit_set(word | (1u64 << shift), shift),
        other != shift ==> (bit_set(word | (1u64 << shift), other) == bit_set(word, other)),
{
    assert(bit_set(word | (1u64 << shift), shift)) by (bit_vector)
        requires
            shift < 64,
    ;
    assert(other != shift ==> (bit_set(word | (1u64 << shift), other) == bit_set(word, other)))
        by (bit_vector)
        requires
            shift < 64,
            other < 64,
    ;
}

/// Clearing one bit leaves it clear and every other bit as it was.
pub proof fn lemma_clear_bit(word: u64, shift: u64, other: u64)
    requires
        shift < 64,
        other < 64,
    ensures
        !bit_set(word & !(1u64 << shift), shift),
        other != shift ==> (bit_set(word & !(1u64 << shift), other) == bit_set(word, other)),
{
    assert(!bit_set(word & !(1u64 << shift), shift)) by (bit_vector)
        requires
            shift < 64,
    ;
    assert(other != shift ==> (bit_set(word & !(1u64 << shift), other) == bit_set(word, other)))
        by (bit_vector)
        requires
            shift < 64,
            other < 64,
    ;
}

/// A set of permissions stored as a bitfield.
#[derive(Debug, Clone, Copy, PartialEq, Eq, Structural, PartialOrd, Ord, Hash, Default)]
pub struct Permission(pub u64);

impl Permission {
    /// Whether `flag` belongs to the set.
    pub open spec fn has(self, flag: PermissionFlag) -> bool {
        bit_set(self.0, permission_shift(flag))
    }

    pub fn contains(&self, flag: PermissionFlag) -> (r: bool)
        ensures
            r == self.has(flag),
    {
        self.0 & flag.bits() != 0
    }

    pub fn insert(&mut self, flag: PermissionFlag)
        ensures
            final(self).0 == old(self).0 | permission_bits(flag),
            final(self).has(flag),
            forall|other: PermissionFlag|
                #![trigger final(self).has(other)]
                other != flag ==> final(self).has(other) == old(self).has(other),
    {
        self.0 = self.0 | flag.bits();
        proof {
            assert forall|other: PermissionFlag|
                #![trigger self.has(other)]
                other != flag implies self.has(other) == old(self).has(other) by {
                lemma_permission_shift_bound(other);
                lemma_set_bit(old(self).0, permission_shift(flag), permission_shift(other));
            }
            lemma_set_bit(old(self).0, permission_shift(flag), 0);
        }
    }

    pub fn remove(&mut self, flag: PermissionFlag)
        ensures
            final(self).0 == old(self).0 & !permission_bits(flag),
            !final(self).has(flag),
            forall|other: PermissionFlag|
                #![trigger final(self).has(other)]
                other != flag ==> final(self).has(other) == old(self).has(other),
    {
        self.0 = self.0 & !flag.bits();
        proof {
            assert forall|other: PermissionFlag|
                #![trigger self.has(other)]
                other != flag implies self.has(other) == old(self).has(other) by {
                lemma_permission_shift_bound(other);
                lemma_clear_bit(old(self).0, permission_shift(flag), permission_shift(other));
            }
            lemma_clear_bit(old(self).0, permission_shift(flag), 0);
        }
    }

    pub fn is_empty(&self) -> (r: bool)
        ensures
            r == (self.0 == 0),
    {
        self.0 == 0
    }
}

/// A single user-to-user permission; each one owns one bit of a `UserPermission` set.
#[derive(Debug, Clone, Copy, PartialEq, Eq, Structural, PartialOrd, Ord, Hash)]
pub enum UserPermissionFlag {
    Access,
    ViewProfile,
    SendMessage,
    Invite,
}

/// The bit index that the wire format gives to each user permission.
pub open spec fn user_permission_shift(flag: UserPermissionFlag) -> u64 {
    match flag {
        UserPermissionFlag::Access => 0,
        UserPermissionFlag::ViewProfile => 1,
        UserPermissionFlag::SendMessage => 2,
        UserPermissionFlag::Invite => 3,
    }
}

/// Every user permission's bit lies inside a `u64`.
pub proof fn lemma_user_permission_shift_bound(flag: UserPermissionFlag)
    ensures
        user_permission_shift(flag) < 64,
{
}

/// The mask of a user permission: one bit, at `user_permission_shift(flag)`.
pub open spec fn user_permission_bits(flag: UserPermissionFlag) -> u64 {
    1u64 << user_permission_shift(flag)
}

impl UserPermissionFlag {
    /// The mask of this permission inside a `UserPermission` bitfield.
    pub fn bits(self) -> (r: u64)
        ensures
            r == user_permission_bits(self),
            user_permission_shift(self) < 64,
    {
        let shift: u64 = match self {
            UserPermissionFlag::Access => 0,
            UserPermissionFlag::ViewProfile => 1,
            UserPermissionFlag::SendMessage => 2,
            UserPermissionFlag::Invite => 3,
        };
        1u64 << shift
    }
}

/// User-specific permissions stored as a bitfield.
#[derive(Debug, Clone, Copy, PartialEq, Eq, Structural, PartialOrd, Ord, Hash, Default)]
pub struct UserPermission(pub u64);

impl UserPermission {
    /// Whether `flag` belongs to the set.
    pub open spec fn has(self, flag: UserPermissionFlag) -> bool {
        bit_set(self.0, user_permission_shift(flag))
    }

    pub fn contains(&self, flag: UserPermissionFlag) -> (r: bool)
        ensures
            r == self.has(flag),
    {
        self.0 & flag.bits() != 0
    }

    pub fn insert(&mut self, flag: UserPermissionFlag)
        ensures
            final(self).0 == old(self).0 | user_permission_bits(flag),
            final(self).has(flag),
            forall|other: UserPermissionFlag|
                #![trigger final(self).has(other)]
                other != flag ==> final(self).has(other) == old(self).has(other),
    {
        self.0 = self.0 | flag.bits();
        proof {
            assert forall|other: UserPermissionFlag|
                #![trigger self.has(other)]
                other != flag implies self.has(other) == old(self).has(other) by {
                lemma_user_permission_shift_bound(other);
                lemma_set_bit(old(self).0, user_permission_shift(flag), user_permission_shift(other));
            }
            lemma_set_bit(old(self).0, user_permission_shift(flag), 0);
        }
    }

    pub fn remove(&mut self, flag: UserPermissionFlag)
        ensures
            final(self).0 == old(self).0 & !user_permission_bits(flag),
            !final(self).has(flag),
            forall|other: UserPermissionFlag|
                #![trigger final(self).has(other)]
                other != flag ==> final(self).has(other) == old(self).has(other),
    {
        self.0 = self.0 & !flag.bits();
        proof {
            assert forall|other: UserPermissionFlag|
                #![trigger self.has(other)]
                other != flag implies self.has(other) == old(self).has(other) by {
                lemma_user_permission_shift_bound(other);
                lemma_clear_bit(old(self).0, user_permission_shift(flag), user_permission_shift(other));
            }
            lemma_clear_bit(old(self).0, user_permission_shift(flag), 0);
        }
    }

    pub fn is_empty(&self) -> (r: bool)
        ensures
            r == (self.0 == 0),
    {
        self.0 == 0
    }
}

/// Raw representation of permission overrides used in storage.
#[derive(Debug, Clone, Copy, PartialEq, Eq, Structural, Default)]
pub struct OverrideField {
    /// Bits for allowed permissions.
    pub a: Permission,
    /// Bits for denied permissions.
    pub d: Permission,
}

/// Processed permission override model.
#[derive(Debug, Clone, Copy, PartialEq, Eq, Structural, Default)]
pub struct Override {
    /// Permissions granted explicitly.
    pub allow: Permission,
    /// Permissions explicitly denied.
    pub deny: Permission,
}

} // verus!
