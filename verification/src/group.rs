//! Groups and their members.

use vstd::prelude::*;
use crate::clock::unix_now;
use crate::ids::fresh_uuid;
use crate::search::{first_index, lemma_first_index_is};

verus! {

/// Who may join a group and who may post to it.
#[derive(Clone, Copy, Debug, PartialEq, Eq)]
pub enum GroupType {
    Private,
    Channel,
    Public,
}

/// A group of users. Its id is a UUID, held as a 128-bit number.
#[derive(Clone, Debug, PartialEq, Eq)]
pub struct Group {
    pub id: u128,
    pub name: String,
    /// Seconds since the epoch at which the group was created.
    pub created_at: i64,
    /// The user ids of the members, in the order in which they joined.
    pub members: Vec<String>,
    pub group_type: GroupType,
}

/// An invitation to a group.
#[derive(Clone, Debug, PartialEq, Eq)]
pub struct GroupInvite {
    pub group_id: u128,
    pub invited_user_id: String,
    pub invited_by: String,
    /// Seconds since the epoch at which the invitation was made.
    pub created_at: i64,
}

/// The body of a request to create a group.
pub struct CreateGroupPayload {
    pub name: String,
}

/// The body of a request that names a user to invite or to remove.
pub struct InvitePayload {
    pub user_id: String,
}

/// Why a group operation was refused.
#[derive(Clone, Copy, Debug, PartialEq, Eq)]
pub enum GroupError {
    /// No group has the id.
    NotFound,
    /// The caller invites but is no member.
    InviterNotMember,
    /// The caller leaves but is no member.
    NotMember,
    /// The caller removes but is no member.
    RemoverNotMember,
    /// The user to remove is no member.
    TargetNotMember,
}

impl GroupError {
    /// The reason in words.
    pub fn message(&self) -> (text: String)
        ensures
            text@ == match self {
                GroupError::NotFound => "Group not found"@,
                GroupError::InviterNotMember => "Only group members can invite."@,
                GroupError::NotMember => "You are not a member of this group."@,
                GroupError::RemoverNotMember => "Only group members can remove."@,
                GroupError::TargetNotMember => "User is not a member of this group."@,
            },
    {
        match self {
            GroupError::NotFound => "Group not found".to_owned(),
            GroupError::InviterNotMember => "Only group members can invite.".to_owned(),
            GroupError::NotMember => "You are not a member of this group.".to_owned(),
            GroupError::RemoverNotMember => "Only group members can remove.".to_owned(),
            GroupError::TargetNotMember => "User is not a member of this group.".to_owned(),
        }
    }
}

/// The user ids equal to `user`.
pub open spec fn is_user(user: Seq<char>) -> spec_fn(String) -> bool {
    |m: String| m@ == user
}

/// The position of the first member equal to `user`; the number of members
/// where there is none.
pub open spec fn member_position(members: Seq<String>, user: Seq<char>) -> int {
    first_index(members, is_user(user))
}

/// Whether `user` is among `members`.
pub open spec fn is_member(members: Seq<String>, user: Seq<char>) -> bool {
    member_position(members, user) < members.len()
}

/// The members as plain values.
pub open spec fn names(members: Seq<String>) -> Seq<Seq<char>> {
    members.map_values(|m: String| m@)
}

/// Whether `after` is `before` with the members of the group at position `at`
/// replaced by `members`, and nothing else changed.
pub open spec fn members_replaced(before: Seq<Group>, after: Seq<Group>, at: int, members: Seq<Seq<char>>) -> bool {
    &&& 0 <= at < before.len()
    &&& after.len() == before.len()
    &&& forall|k: int| 0 <= k < before.len() && k != at ==> #[trigger] after[k] == before[k]
    &&& after[at].id == before[at].id
    &&& after[at].name == before[at].name
    &&& after[at].created_at == before[at].created_at
    &&& after[at].group_type == before[at].group_type
    &&& names(after[at].members@) == members
}

/// The groups with id `id`.
pub open spec fn with_id(id: u128) -> spec_fn(Group) -> bool {
    |g: Group| g.id == id
}

/// The position of the first group with id `id`; the number of groups where
/// there is none.
pub open spec fn group_position(groups: Seq<Group>, id: u128) -> int {
    first_index(groups, with_id(id))
}

/// Whether a group with id `id` is among `groups`.
pub open spec fn group_known(groups: Seq<Group>, id: u128) -> bool {
    group_position(groups, id) < groups.len()
}

/// Finds the first member equal to `user`.
pub fn find_member(members: &Vec<String>, user: &String) -> (at: Option<usize>)
    ensures
        match at {
            Some(i) => is_member(members@, user@) && i == member_position(members@, user@),
            None => !is_member(members@, user@),
        },
{
    let mut i: usize = 0;
    while i < members.len()
        invariant
            i <= members@.len(),
            forall|k: int| 0 <= k < i ==> (#[trigger] members@[k])@ != user@,
        decreases members@.len() - i,
    {
        if members[i] == *user {
            proof {
                lemma_first_index_is(members@, is_user(user@), i as int);
            }
            return Some(i);
        }
        i += 1;
    }
    proof {
        lemma_first_index_is(members@, is_user(user@), i as int);
    }
    None
}

/// Whether `user` is among `members`.
pub fn contains_member(members: &Vec<String>, user: &String) -> (found: bool)
    ensures
        found == is_member(members@, user@),
{
    find_member(members, user).is_some()
}

/// Finds the first group with id `id`.
pub fn find_group(groups: &Vec<Group>, id: u128) -> (at: Option<usize>)
    ensures
        match at {
            Some(i) => group_known(groups@, id) && i == group_position(groups@, id) && groups@[i as int].id == id,
            None => !group_known(groups@, id),
        },
{
    let mut i: usize = 0;
    while i < groups.len()
        invariant
            i <= groups@.len(),
            forall|k: int| 0 <= k < i ==> (#[trigger] groups@[k]).id != id,
        decreases groups@.len() - i,
    {
        if groups[i].id == id {
            proof {
                lemma_first_index_is(groups@, with_id(id), i as int);
            }
            return Some(i);
        }
        i += 1;
    }
    proof {
        lemma_first_index_is(groups@, with_id(id), i as int);
    }
    None
}

/// Adds a group with the given id, created at `now` by `user_id`, who is its
/// only member. Returns the position of the new group, which is the last.
pub fn create_group_with(groups: &mut Vec<Group>, id: u128, user_id: String, payload: CreateGroupPayload, now: i64) -> (at: usize)
    ensures
        at == old(groups)@.len(),
        final(groups)@.len() == old(groups)@.len() + 1,
        final(groups)@.drop_last() == old(groups)@,
        final(groups)@.last().id == id,
        final(groups)@.last().name@ == payload.name@,
        final(groups)@.last().created_at == now,
        final(groups)@.last().group_type == GroupType::Private,
        names(final(groups)@.last().members@) == seq![user_id@],
{
    let at = groups.len();
    let mut members: Vec<String> = Vec::new();
    members.push(user_id);
    assert(names(members@) =~= seq![user_id@]);
    groups.push(Group { id, name: payload.name, created_at: now, members, group_type: GroupType::Private });
    assert(groups@.drop_last() =~= old(groups)@);
    at
}

/// Adds a group with a fresh random id, created now by `user_id`, who is its
/// only member. Returns the position of the new group, which is the last.
pub fn create_group(groups: &mut Vec<Group>, user_id: String, payload: CreateGroupPayload) -> (at: usize)
    ensures
        at == old(groups)@.len(),
        final(groups)@.len() == old(groups)@.len() + 1,
        final(groups)@.drop_last() == old(groups)@,
        final(groups)@.last().name@ == payload.name@,
        final(groups)@.last().group_type == GroupType::Private,
        names(final(groups)@.last().members@) == seq![user_id@],
{
    let id = fresh_uuid();
    let now = unix_now();
    create_group_with(groups, id, user_id, payload, now)
}

/// The position of the group with id `group_id`.
pub fn get_group(groups: &Vec<Group>, group_id: u128) -> (found: Result<usize, GroupError>)
    ensures
        match found {
            Ok(i) => group_known(groups@, group_id) && i == group_position(groups@, group_id),
            Err(e) => !group_known(groups@, group_id) && e == GroupError::NotFound,
        },
{
    match find_group(groups, group_id) {
        Some(i) => Ok(i),
        None => Err(GroupError::NotFound),
    }
}

/// The members after `user` joined: as before where `user` is a member, else
/// with `user` at the end.
pub open spec fn joined(members: Seq<String>, user: Seq<char>) -> Seq<Seq<char>> {
    if is_member(members, user) {
        names(members)
    } else {
        names(members).push(user)
    }
}

/// The members after the first occurrence of `user` left.
pub open spec fn parted(members: Seq<String>, user: Seq<char>) -> Seq<Seq<char>> {
    names(members).remove(member_position(members, user))
}

/// Adds `user` to the members of the group at position `at`, unless `user` is
/// a member already.
fn add_member(groups: &mut Vec<Group>, at: usize, user: String)
    requires
        at < old(groups)@.len(),
    ensures
        members_replaced(old(groups)@, final(groups)@, at as int, joined(old(groups)@[at as int].members@, user@)),
{
    if !contains_member(&groups[at].members, &user) {
        groups[at].members.push(user);
        assert(names(groups@[at as int].members@) =~= names(old(groups)@[at as int].members@).push(user@));
    }
}

/// Takes the member at position `member` out of the group at position `at`.
fn drop_member(groups: &mut Vec<Group>, at: usize, member: usize)
    requires
        at < old(groups)@.len(),
        member < old(groups)@[at as int].members@.len(),
    ensures
        members_replaced(
            old(groups)@,
            final(groups)@,
            at as int,
            names(old(groups)@[at as int].members@).remove(member as int),
        ),
{
    let _ = groups[at].members.remove(member);
    assert(names(groups@[at as int].members@) =~= names(old(groups)@[at as int].members@).remove(member as int));
}

/// A member of a group adds another user to it. Inviting a user who is a
/// member already changes nothing. Returns the group's position.
pub fn invite_to_group(groups: &mut Vec<Group>, group_id: u128, user_id: &String, payload: InvitePayload) -> (outcome: Result<usize, GroupError>)
    ensures
        !group_known(old(groups)@, group_id) ==> outcome == Err::<usize, GroupError>(GroupError::NotFound),
        group_known(old(groups)@, group_id) && !is_member(
            old(groups)@[group_position(old(groups)@, group_id)].members@,
            user_id@,
        ) ==> outcome == Err::<usize, GroupError>(GroupError::InviterNotMember),
        group_known(old(groups)@, group_id) && is_member(
            old(groups)@[group_position(old(groups)@, group_id)].members@,
            user_id@,
        ) ==> outcome == Ok::<usize, GroupError>(group_position(old(groups)@, group_id) as usize),
        outcome.is_err() ==> final(groups)@ == old(groups)@,
        outcome matches Ok(at) ==> members_replaced(
            old(groups)@,
            final(groups)@,
            at as int,
            joined(old(groups)@[at as int].members@, payload.user_id@),
        ),
{
    match find_group(groups, group_id) {
        Some(at) => {
            if !contains_member(&groups[at].members, user_id) {
                return Err(GroupError::InviterNotMember);
            }
            add_member(groups, at, payload.user_id);
            Ok(at)
        },
        None => Err(GroupError::NotFound),
    }
}

/// A user joins a group. Joining a group of which the user is a member
/// already changes nothing. Returns the group's position.
pub fn join_group(groups: &mut Vec<Group>, group_id: u128, user_id: String) -> (outcome: Result<usize, GroupError>)
    ensures
        !group_known(old(groups)@, group_id) ==> outcome == Err::<usize, GroupError>(GroupError::NotFound),
        group_known(old(groups)@, group_id) ==> outcome == Ok::<usize, GroupError>(
            group_position(old(groups)@, group_id) as usize,
        ),
        outcome.is_err() ==> final(groups)@ == old(groups)@,
        outcome matches Ok(at) ==> members_replaced(
            old(groups)@,
            final(groups)@,
            at as int,
            joined(old(groups)@[at as int].members@, user_id@),
        ),
{
    match find_group(groups, group_id) {
        Some(at) => {
            add_member(groups, at, user_id);
            Ok(at)
        },
        None => Err(GroupError::NotFound),
    }
}

/// A member leaves a group. Returns the group's position.
pub fn leave_group(groups: &mut Vec<Group>, group_id: u128, user_id: &String) -> (outcome: Result<usize, GroupError>)
    ensures
        !group_known(old(groups)@, group_id) ==> outcome == Err::<usize, GroupError>(GroupError::NotFound),
        group_known(old(groups)@, group_id) && !is_member(
            old(groups)@[group_position(old(groups)@, group_id)].members@,
            user_id@,
        ) ==> outcome == Err::<usize, GroupError>(GroupError::NotMember),
        group_known(old(groups)@, group_id) && is_member(
            old(groups)@[group_position(old(groups)@, group_id)].members@,
            user_id@,
        ) ==> outcome == Ok::<usize, GroupError>(group_position(old(groups)@, group_id) as usize),
        outcome.is_err() ==> final(groups)@ == old(groups)@,
        outcome matches Ok(at) ==> members_replaced(
            old(groups)@,
            final(groups)@,
            at as int,
            parted(old(groups)@[at as int].members@, user_id@),
        ),
{
    match find_group(groups, group_id) {
        Some(at) => {
            match find_member(&groups[at].members, user_id) {
                Some(member) => {
                    drop_member(groups, at, member);
                    Ok(at)
                },
                None => Err(GroupError::NotMember),
            }
        },
        None => Err(GroupError::NotFound),
    }
}

/// A member of a group removes a member from it. Returns the group's
/// position.
pub fn remove_from_group(groups: &mut Vec<Group>, group_id: u128, user_id: &String, payload: InvitePayload) -> (outcome: Result<usize, GroupError>)
    ensures
        !group_known(old(groups)@, group_id) ==> outcome == Err::<usize, GroupError>(GroupError::NotFound),
        group_known(old(groups)@, group_id) && !is_member(
            old(groups)@[group_position(old(groups)@, group_id)].members@,
            user_id@,
        ) ==> outcome == Err::<usize, GroupError>(GroupError::RemoverNotMember),
        group_known(old(groups)@, group_id) && is_member(
            old(groups)@[group_position(old(groups)@, group_id)].members@,
            user_id@,
        ) && !is_member(old(groups)@[group_position(old(groups)@, group_id)].members@, payload.user_id@)
            ==> outcome == Err::<usize, GroupError>(GroupError::TargetNotMember),
        group_known(old(groups)@, group_id) && is_member(
            old(groups)@[group_position(old(groups)@, group_id)].members@,
            user_id@,
        ) && is_member(old(groups)@[group_position(old(groups)@, group_id)].members@, payload.user_id@)
            ==> outcome == Ok::<usize, GroupError>(group_position(old(groups)@, group_id) as usize),
        outcome.is_err() ==> final(groups)@ == old(groups)@,
        outcome matches Ok(at) ==> members_replaced(
            old(groups)@,
            final(groups)@,
            at as int,
            parted(old(groups)@[at as int].members@, payload.user_id@),
        ),
{
    match find_group(groups, group_id) {
        Some(at) => {
            if !contains_member(&groups[at].members, user_id) {
                return Err(GroupError::RemoverNotMember);
            }
            match find_member(&groups[at].members, &payload.user_id) {
                Some(member) => {
                    drop_member(groups, at, member);
                    Ok(at)
                },
                None => Err(GroupError::TargetNotMember),
            }
        },
        None => Err(GroupError::NotFound),
    }
}

} // verus!
