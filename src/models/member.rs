use vstd::prelude::*;

verus! {

/// The fields that can be removed from a member.
#[derive(Clone, Copy, Debug, PartialEq, Eq, Structural)]
pub enum MemberFields {
    Avatar,
    Nickname,
    Roles,
    Timeout,
}

} // verus!
