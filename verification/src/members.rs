//! The decisions of the membership requests: who may join, leave, list,
//! approve, remove and hand over, and which event each request queues.

use vstd::prelude::*;
use crate::errors::{AppError, DynamoDBError};
use crate::ids::{is_rfc3339_utc, now_rfc3339};
use crate::models::{GroupEvent, GroupMember, GroupType, RoleType, StatusType, StudyGroup};
use crate::worker::{
    active_members, count_delta, emitted_for, event_plan, lemma_member_count_tracks_active_members,
    roster_after,
};

verus! {

/// Turns the lookup of a membership into an optional membership: a missing
/// membership is no failure, any other storage failure is.
pub fn optional_membership(lookup: Result<GroupMember, DynamoDBError>) -> (res: Result<
    Option<GroupMember>,
    AppError,
>)
    ensures
        match lookup {
            Ok(m) => res == Ok::<Option<GroupMember>, AppError>(Some(m)),
            Err(DynamoDBError::NotFound(_)) => res == Ok::<Option<GroupMember>, AppError>(None),
            Err(e) => res == Err::<Option<GroupMember>, AppError>(AppError::Repository(e)),
        },
{
    match lookup {
        Ok(m) => Ok(Some(m)),
        Err(DynamoDBError::NotFound(_)) => Ok(None),
        Err(e) => Err(AppError::from(e)),
    }
}

pub open spec fn join_status(group_type: GroupType) -> StatusType {
    match group_type {
        GroupType::Public => StatusType::Active,
        GroupType::Private => StatusType::Pending,
    }
}

pub open spec fn join_count_delta(group_type: GroupType) -> i64 {
    match group_type {
        GroupType::Public => 1,
        GroupType::Private => 0,
    }
}

pub open spec fn join_message(group_type: GroupType) -> Seq<char> {
    match group_type {
        GroupType::Public => "Successfully joined the group."@,
        GroupType::Private => "Your request to join the group is pending approval."@,
    }
}

/// The event that a join request queues: a new plain member, active in a
/// public group and pending in a private one, and the change to the member
/// count that goes with it.
pub open spec fn join_event(
    group: StudyGroup,
    group_id: String,
    user_id: String,
    joined_at: String,
) -> GroupEvent {
    GroupEvent::JoinGroup {
        member: GroupMember {
            group_id: group_id,
            user_id: user_id,
            role: RoleType::Member,
            status: join_status(group.group_type),
            joined_at: joined_at,
        },
        group_id: group_id,
        owner_id: group.owner_id,
        count_delta: join_count_delta(group.group_type),
    }
}

pub open spec fn conflict_text() -> Seq<char> {
    "User is already a member of the group"@
}

/// Decides a join request for `user_id` on the group `group` (read under
/// `group_id`): a user who is already a member is refused; anyone else gets
/// the join event, stamped `joined_at`, and the answer text.
pub fn decide_join(
    group: &StudyGroup,
    group_id: String,
    user_id: String,
    already_member: bool,
    joined_at: String,
) -> (res: Result<(GroupEvent, String), AppError>)
    ensures
        already_member ==> (res matches Err(AppError::Conflict(m)) && m@ == conflict_text()),
        !already_member ==> (res matches Ok((event, msg)) && event == join_event(
            *group,
            group_id,
            user_id,
            joined_at,
        ) && msg@ == join_message(group.group_type)),
{
    if already_member {
        return Err(AppError::Conflict(String::from_str("User is already a member of the group")));
    }
    let (status, count_delta, msg) = match group.group_type {
        GroupType::Public => (StatusType::Active, 1i64, "Successfully joined the group."),
        GroupType::Private => (
            StatusType::Pending,
            0i64,
            "Your request to join the group is pending approval.",
        ),
    };
    let member = GroupMember {
        group_id: group_id.clone(),
        user_id,
        role: RoleType::Member,
        status,
        joined_at,
    };
    let event = GroupEvent::JoinGroup {
        member,
        group_id,
        owner_id: group.owner_id.clone(),
        count_delta,
    };
    Ok((event, String::from_str(msg)))
}

/// A join makes the user a plain member of the group named in the request:
/// active at once, and counted, in a public group; pending, and not yet
/// counted, in a private one; the event names the group's owner.
pub proof fn lemma_join_event_rules(
    group: StudyGroup,
    group_id: String,
    user_id: String,
    joined_at: String,
)
    ensures
        ({
            let event = join_event(group, group_id, user_id, joined_at);
            &&& event is JoinGroup
            &&& event->JoinGroup_member.user_id == user_id
            &&& event->JoinGroup_member.group_id == group_id
            &&& event->JoinGroup_group_id == group_id
            &&& event->JoinGroup_member.role == RoleType::Member
            &&& event->JoinGroup_member.joined_at == joined_at
            &&& event->JoinGroup_owner_id == group.owner_id
            &&& group.group_type == GroupType::Public ==> event->JoinGroup_member.status
                == StatusType::Active && event->JoinGroup_count_delta == 1
            &&& group.group_type == GroupType::Private ==> event->JoinGroup_member.status
                == StatusType::Pending && event->JoinGroup_count_delta == 0
        }),
{
}

/// Handles the decision of a join request, taking the join time from the
/// clock once the request is known to be admissible.
pub fn prepare_join(
    group: &StudyGroup,
    group_id: String,
    user_id: String,
    already_member: bool,
) -> (res: Result<(GroupEvent, String), AppError>)
    ensures
        already_member ==> (res matches Err(AppError::Conflict(m)) && m@ == conflict_text()),
        !already_member ==> (res matches Ok((event, msg)) && event == join_event(
            *group,
            group_id,
            user_id,
            event->member.joined_at,
        ) && msg@ == join_message(group.group_type) && is_rfc3339_utc(
            event->member.joined_at@,
        )),
{
    if already_member {
        return Err(AppError::Conflict(String::from_str("User is already a member of the group")));
    }
    let joined_at = now_rfc3339();
    decide_join(group, group_id, user_id, false, joined_at)
}

pub open spec fn owner_cannot_leave_text() -> Seq<char> {
    "Group owner cannot leave the group. Please transfer ownership or delete the group."@
}

pub open spec fn left_text() -> Seq<char> {
    "Successfully left the group."@
}

/// Decides a request of `user_id` to leave the group `group_id`, given the
/// user's membership: the owner may not leave; anyone else queues the leave
/// event, which records whether the membership was in force.
pub fn decide_leave(member: &GroupMember, group_id: String, user_id: String) -> (res: Result<
    (GroupEvent, String),
    AppError,
>)
    ensures
        member.role == RoleType::Owner ==> (res matches Err(AppError::BadRequest(m)) && m@
            == owner_cannot_leave_text()),
        member.role == RoleType::Member ==> (res matches Ok((event, msg)) && event
            == (GroupEvent::LeaveGroup {
            group_id: group_id,
            user_id: user_id,
            was_active: member.status == StatusType::Active,
        }) && msg@ == left_text()),
{
    if matches!(member.role, RoleType::Owner) {
        return Err(
            AppError::BadRequest(
                String::from_str(
                    "Group owner cannot leave the group. Please transfer ownership or delete the group.",
                ),
            ),
        );
    }
    let was_active = matches!(member.status, StatusType::Active);
    Ok(
        (
            GroupEvent::LeaveGroup { group_id, user_id, was_active },
            String::from_str("Successfully left the group."),
        ),
    )
}

pub open spec fn is_owner_of(requester: Option<GroupMember>) -> bool {
    match requester {
        Some(r) => r.role == RoleType::Owner,
        None => false,
    }
}

/// Whether a requester may list the members of a group.
pub open spec fn may_list_members(group_type: GroupType, requester: Option<GroupMember>) -> bool {
    match group_type {
        GroupType::Public => true,
        GroupType::Private => match requester {
            Some(r) => r.status == StatusType::Active || r.role == RoleType::Owner,
            None => false,
        },
    }
}

/// Decides whether a requester (with the membership `requester`, if any) may
/// list the members of a group of type `group_type`: anyone may list a public
/// group; a private group only its owner and its active members. On success,
/// tells whether the requester owns the group.
pub fn member_list_access(group_type: GroupType, requester: &Option<GroupMember>) -> (res: Result<
    bool,
    AppError,
>)
    ensures
        may_list_members(group_type, *requester) ==> res == Ok::<bool, AppError>(
            is_owner_of(*requester),
        ),
        !may_list_members(group_type, *requester) ==> (res matches Err(AppError::Forbidden)),
        requester matches Some(r) && r.role == RoleType::Owner ==> res == Ok::<bool, AppError>(true),
        group_type == GroupType::Public ==> res is Ok,
        (requester matches Some(r) && r.status == StatusType::Active) ==> res is Ok,
        (group_type == GroupType::Private && requester is None) ==> (res matches Err(
            AppError::Forbidden,
        )),
        (group_type == GroupType::Private && (requester matches Some(r) && r.role
            == RoleType::Member && r.status == StatusType::Pending)) ==> (res matches Err(
            AppError::Forbidden,
        )),
        res matches Ok(owns) ==> owns == (requester matches Some(r) && r.role == RoleType::Owner),
{
    let is_owner = match requester {
        Some(r) => matches!(r.role, RoleType::Owner),
        None => false,
    };
    if matches!(group_type, GroupType::Private) {
        match requester {
            None => {
                return Err(AppError::Forbidden);
            },
            Some(r) => {
                if matches!(r.status, StatusType::Pending) && !is_owner {
                    return Err(AppError::Forbidden);
                }
            },
        }
    }
    Ok(is_owner)
}

/// Which members a requester gets to see: the owner sees everyone, anyone
/// else the active members only.
pub open spec fn visible_to(is_owner: bool) -> spec_fn(GroupMember) -> bool {
    |m: GroupMember| is_owner || m.status == StatusType::Active
}

/// The members of a group that a requester gets to see, in stored order.
pub fn visible_members(raw: Vec<GroupMember>, is_owner: bool) -> (shown: Vec<GroupMember>)
    ensures
        shown@ == raw@.filter(visible_to(is_owner)),
        is_owner ==> shown@ == raw@,
        forall|i: int|
            0 <= i < shown@.len() ==> is_owner || (#[trigger] shown@[i]).status
                == StatusType::Active,
        forall|j: int|
            0 <= j < raw@.len() && (#[trigger] raw@[j]).status == StatusType::Active
                ==> shown@.contains(raw@[j]),
{
    let ghost all = raw@;
    let mut shown: Vec<GroupMember> = Vec::new();
    for m in it: raw.into_iter()
        invariant
            it.seq() == all,
            shown@ == all.take(it.index() as int).filter(visible_to(is_owner)),
            is_owner ==> shown@ == all.take(it.index() as int),
            forall|i: int|
                0 <= i < shown@.len() ==> is_owner || (#[trigger] shown@[i]).status
                    == StatusType::Active,
            forall|j: int|
                0 <= j < it.index() && (#[trigger] all[j]).status == StatusType::Active
                    ==> shown@.contains(all[j]),
    {
        let ghost i = it.index() as int;
        proof {
            reveal(Seq::filter);
            assert(all.take(i + 1).drop_last() =~= all.take(i));
            assert(all.take(i + 1).last() == all[i]);
        }
        let ghost before = shown@;
        if is_owner || matches!(m.status, StatusType::Active) {
            shown.push(m);
            proof {
                assert(shown@[shown@.len() - 1] == all[i]);
                assert forall|j: int|
                    0 <= j < i + 1 && (#[trigger] all[j]).status == StatusType::Active
                        implies shown@.contains(all[j]) by {
                    if j < i {
                        let k = choose|k: int| 0 <= k < before.len() && before[k] == all[j];
                        assert(shown@[k] == all[j]);
                    }
                }
            }
        } else {
            proof {
                assert forall|j: int|
                    0 <= j < i + 1 && (#[trigger] all[j]).status == StatusType::Active
                        implies shown@.contains(all[j]) by {
                    assert(j < i);
                }
            }
        }
    }
    proof {
        assert(all.take(all.len() as int) =~= all);
    }
    shown
}

/// Who may list a group's members: anyone for a public group; for a private
/// group its owner, whatever the state of the owner's own membership, and its
/// active members; never a non-member or a pending plain member of a private
/// group. The owner is told that it owns the group.
pub proof fn lemma_member_list_access_rules(group_type: GroupType, requester: Option<GroupMember>)
    ensures
        group_type == GroupType::Public ==> may_list_members(group_type, requester),
        requester matches Some(r) && r.role == RoleType::Owner ==> may_list_members(
            group_type,
            requester,
        ) && is_owner_of(requester),
        requester matches Some(r) && r.status == StatusType::Active ==> may_list_members(
            group_type,
            requester,
        ),
        group_type == GroupType::Private && requester is None ==> !may_list_members(
            group_type,
            requester,
        ),
        (group_type == GroupType::Private && (requester matches Some(r) && r.role
            == RoleType::Member && r.status == StatusType::Pending)) ==> !may_list_members(
            group_type,
            requester,
        ),
        requester is None ==> !is_owner_of(requester),
        requester matches Some(r) && r.role == RoleType::Member ==> !is_owner_of(requester),
{
}

/// Refuses a request that only the group's owner may make.
pub fn require_owner(requester: &GroupMember) -> (res: Result<(), AppError>)
    ensures
        requester.role == RoleType::Owner ==> res is Ok,
        requester.role != RoleType::Owner ==> (res matches Err(AppError::Forbidden)),
{
    if !matches!(requester.role, RoleType::Owner) {
        return Err(AppError::Forbidden);
    }
    Ok(())
}

pub open spec fn approval_text() -> Seq<char> {
    "Member approval is being processed"@
}

/// Decides an approval of `user_id` in `group_id` by `requester`: only the
/// owner may approve; the approval queues an event that names the approver.
pub fn decide_approve(requester: &GroupMember, group_id: String, user_id: String) -> (res: Result<
    (GroupEvent, String),
    AppError,
>)
    ensures
        requester.role != RoleType::Owner ==> (res matches Err(AppError::Forbidden)),
        requester.role == RoleType::Owner ==> (res matches Ok((event, msg)) && event
            == (GroupEvent::ApproveMember {
            group_id: group_id,
            user_id: user_id,
            owner_id: requester.user_id,
        }) && msg@ == approval_text()),
{
    require_owner(requester)?;
    Ok(
        (
            GroupEvent::ApproveMember { group_id, user_id, owner_id: requester.user_id.clone() },
            String::from_str("Member approval is being processed"),
        ),
    )
}

pub open spec fn owner_cannot_be_removed_text() -> Seq<char> {
    "Cannot remove the group owner. Please transfer ownership or delete the group."@
}

pub open spec fn removed_text(user_id: Seq<char>) -> Seq<char> {
    "Successfully removed "@ + user_id + " from group."@
}

/// Decides the removal of `user_id` (whose membership is `target`) from
/// `group_id` by `requester`: only the owner may remove; the owner cannot be
/// removed; any other member is removed with an event that records whether
/// the membership was in force.
pub fn decide_remove(
    requester: &GroupMember,
    target: &GroupMember,
    group_id: String,
    user_id: String,
) -> (res: Result<(GroupEvent, String), AppError>)
    ensures
        requester.role != RoleType::Owner ==> (res matches Err(AppError::Forbidden)),
        requester.role == RoleType::Owner && target.role == RoleType::Owner ==> (res matches Err(
            AppError::BadRequest(m),
        ) && m@ == owner_cannot_be_removed_text()),
        requester.role == RoleType::Owner && target.role == RoleType::Member ==> (res matches Ok(
            (event, msg),
        ) && event
            == (GroupEvent::RemoveMember {
            group_id: group_id,
            owner_id: requester.user_id,
            user_id: user_id,
            was_active: target.status == StatusType::Active,
        }) && msg@ == removed_text(user_id@)),
{
    require_owner(requester)?;
    if matches!(target.role, RoleType::Owner) {
        return Err(
            AppError::BadRequest(
                String::from_str(
                    "Cannot remove the group owner. Please transfer ownership or delete the group.",
                ),
            ),
        );
    }
    let was_active = matches!(target.status, StatusType::Active);
    let mut msg = String::from_str("Successfully removed ");
    msg.append(user_id.as_str());
    msg.append(" from group.");
    Ok(
        (
            GroupEvent::RemoveMember {
                group_id,
                owner_id: requester.user_id.clone(),
                user_id,
                was_active,
            },
            msg,
        ),
    )
}

/// Refuses a hand-over whose path names someone other than the caller: a
/// user can only hand over a group that they own themselves.
pub fn check_transfer_caller(path_user_id: &String, caller_id: &String) -> (res: Result<
    (),
    AppError,
>)
    ensures
        path_user_id@ == caller_id@ ==> res is Ok,
        path_user_id@ != caller_id@ ==> (res matches Err(AppError::Forbidden)),
{
    if *path_user_id != *caller_id {
        return Err(AppError::Forbidden);
    }
    Ok(())
}

pub open spec fn transferred_text() -> Seq<char> {
    "Ownership transferred successfully."@
}

/// The answer to a successful hand-over.
pub fn transfer_message() -> (msg: String)
    ensures
        msg@ == transferred_text(),
{
    String::from_str("Ownership transferred successfully.")
}

/// What a user learns of their own membership in a group.
#[derive(Debug, PartialEq, Eq)]
pub struct MembershipSummary {
    pub is_member: bool,
    pub role: Option<RoleType>,
    pub status: Option<StatusType>,
}

/// Sums up a user's membership, if any.
pub fn membership_summary(member: &Option<GroupMember>) -> (summary: MembershipSummary)
    ensures
        summary.is_member == member.is_some(),
        summary.role == match member {
            Some(m) => Some(m.role),
            None => None::<RoleType>,
        },
        summary.status == match member {
            Some(m) => Some(m.status),
            None => None::<StatusType>,
        },
{
    match member {
        Some(m) => MembershipSummary { is_member: true, role: Some(m.role), status: Some(m.status) },
        None => MembershipSummary { is_member: false, role: None, status: None },
    }
}

/// A join that the worker carries out moves the group's member count by
/// exactly the change in the number of its active members: one more for a
/// public group, none for a private one, where the newcomer waits.
pub proof fn lemma_join_keeps_member_count(
    group: StudyGroup,
    group_id: String,
    user_id: String,
    joined_at: String,
    roster: Map<Seq<char>, StatusType>,
)
    requires
        roster.dom().finite(),
        !roster.contains_key(user_id@),
    ensures
        ({
            let event = join_event(group, group_id, user_id, joined_at);
            active_members(roster_after(event, roster)).len() == active_members(roster).len()
                + count_delta(event_plan(event))
        }),
{
    let event = join_event(group, group_id, user_id, joined_at);
    assert(emitted_for(event, roster));
    lemma_member_count_tracks_active_members(event, roster);
}

/// A member's leaving, once carried out, moves the member count by exactly
/// the change in the number of active members: one fewer when the membership
/// was in force, none when it was pending.
pub proof fn lemma_leave_keeps_member_count(
    member: GroupMember,
    group_id: String,
    user_id: String,
    roster: Map<Seq<char>, StatusType>,
)
    requires
        roster.dom().finite(),
        roster.contains_key(user_id@),
        roster[user_id@] == member.status,
    ensures
        ({
            let event = GroupEvent::LeaveGroup {
                group_id: group_id,
                user_id: user_id,
                was_active: member.status == StatusType::Active,
            };
            active_members(roster_after(event, roster)).len() == active_members(roster).len()
                + count_delta(event_plan(event))
        }),
{
    let event = GroupEvent::LeaveGroup {
        group_id: group_id,
        user_id: user_id,
        was_active: member.status == StatusType::Active,
    };
    lemma_member_count_tracks_active_members(event, roster);
}

/// An approval of a pending member, once carried out, adds one to the member
/// count, as it adds one active member.
pub proof fn lemma_approve_keeps_member_count(
    requester: GroupMember,
    group_id: String,
    user_id: String,
    roster: Map<Seq<char>, StatusType>,
)
    requires
        roster.dom().finite(),
        roster.contains_key(user_id@),
        roster[user_id@] == StatusType::Pending,
    ensures
        ({
            let event = GroupEvent::ApproveMember {
                group_id: group_id,
                user_id: user_id,
                owner_id: requester.user_id,
            };
            active_members(roster_after(event, roster)).len() == active_members(roster).len()
                + count_delta(event_plan(event))
        }),
{
    let event = GroupEvent::ApproveMember {
        group_id: group_id,
        user_id: user_id,
        owner_id: requester.user_id,
    };
    lemma_member_count_tracks_active_members(event, roster);
}

/// A removal, once carried out, moves the member count by exactly the change
/// in the number of active members.
pub proof fn lemma_remove_keeps_member_count(
    requester: GroupMember,
    target: GroupMember,
    group_id: String,
    user_id: String,
    roster: Map<Seq<char>, StatusType>,
)
    requires
        roster.dom().finite(),
        roster.contains_key(user_id@),
        roster[user_id@] == target.status,
    ensures
        ({
            let event = GroupEvent::RemoveMember {
                group_id: group_id,
                owner_id: requester.user_id,
                user_id: user_id,
                was_active: target.status == StatusType::Active,
            };
            active_members(roster_after(event, roster)).len() == active_members(roster).len()
                + count_delta(event_plan(event))
        }),
{
    let event = GroupEvent::RemoveMember {
        group_id: group_id,
        owner_id: requester.user_id,
        user_id: user_id,
        was_active: target.status == StatusType::Active,
    };
    lemma_member_count_tracks_active_members(event, roster);
}

} // verus!
