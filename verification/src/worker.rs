//! What the background worker does for each membership event it takes off
//! the queue: the store operations and notifications it carries out, in
//! order, and which failures stop the processing of an event.

use vstd::prelude::*;
use crate::errors::DynamoDBError;
use crate::ids::{is_hyphenated_v4_uuid, is_rfc3339_utc, new_uuid, now_rfc3339};
use crate::models::{GroupEvent, GroupMember, NotificationTargeting, SqsNotificationEvent, StatusType, StudyGroup};

verus! {

/// The kind of a notification, which names the membership change it reports.
#[derive(Clone, Copy, Debug, PartialEq, Eq, Structural)]
pub enum NotificationKind {
    JoinGroup,
    LeaveGroup,
    ApproveMember,
    RemoveMember,
}

pub open spec fn kind_text(kind: NotificationKind) -> Seq<char> {
    match kind {
        NotificationKind::JoinGroup => "JoinGroup"@,
        NotificationKind::LeaveGroup => "LeaveGroup"@,
        NotificationKind::ApproveMember => "ApproveMember"@,
        NotificationKind::RemoveMember => "RemoveMember"@,
    }
}

impl NotificationKind {
    /// The event type under which the notification is published.
    pub fn name(&self) -> (text: String)
        ensures
            text@ == kind_text(*self),
    {
        match self {
            NotificationKind::JoinGroup => String::from_str("JoinGroup"),
            NotificationKind::LeaveGroup => String::from_str("LeaveGroup"),
            NotificationKind::ApproveMember => String::from_str("ApproveMember"),
            NotificationKind::RemoveMember => String::from_str("RemoveMember"),
        }
    }
}

/// A notification before it is given its id and its time stamp.
#[derive(Debug, PartialEq, Eq)]
pub struct NotificationDraft {
    pub kind: NotificationKind,
    pub actor_id: String,
    pub recipients: Vec<String>,
    pub group_id: String,
}

/// One step of the work that an event asks for.
#[derive(Debug, PartialEq, Eq)]
pub enum WorkerOp {
    /// Store a new membership; fails if the user is already a member.
    PutMember(GroupMember),
    /// Add `delta` to the group's member count.
    AdjustMemberCount { group_id: String, delta: i64 },
    /// Delete a membership.
    DeleteMember { group_id: String, user_id: String },
    /// Read the group, then notify its current owner.
    NotifyGroupOwner { group_id: String, kind: NotificationKind, actor_id: String },
    /// Publish a notification.
    Notify(NotificationDraft),
}

/// The abstract form of a [`WorkerOp`].
pub enum OpView {
    PutMember(GroupMember),
    AdjustMemberCount { group_id: Seq<char>, delta: int },
    DeleteMember { group_id: Seq<char>, user_id: Seq<char> },
    NotifyGroupOwner { group_id: Seq<char>, kind: NotificationKind, actor_id: Seq<char> },
    Notify { kind: NotificationKind, actor_id: Seq<char>, recipients: Seq<Seq<char>>, group_id: Seq<char> },
}

pub open spec fn strings_view(v: Seq<String>) -> Seq<Seq<char>> {
    v.map_values(|s: String| s@)
}

impl View for WorkerOp {
    type V = OpView;

    open spec fn view(&self) -> OpView {
        match self {
            WorkerOp::PutMember(m) => OpView::PutMember(*m),
            WorkerOp::AdjustMemberCount { group_id, delta } => OpView::AdjustMemberCount {
                group_id: group_id@,
                delta: *delta as int,
            },
            WorkerOp::DeleteMember { group_id, user_id } => OpView::DeleteMember {
                group_id: group_id@,
                user_id: user_id@,
            },
            WorkerOp::NotifyGroupOwner { group_id, kind, actor_id } => OpView::NotifyGroupOwner {
                group_id: group_id@,
                kind: *kind,
                actor_id: actor_id@,
            },
            WorkerOp::Notify(d) => OpView::Notify {
                kind: d.kind,
                actor_id: d.actor_id@,
                recipients: strings_view(d.recipients@),
                group_id: d.group_id@,
            },
        }
    }
}

/// The work that an event asks for, in the order in which it is done.
pub open spec fn event_plan(event: GroupEvent) -> Seq<OpView> {
    match event {
        GroupEvent::JoinGroup { member, group_id, owner_id, count_delta } => {
            seq![OpView::PutMember(member)] + if count_delta == 1 {
                seq![OpView::AdjustMemberCount { group_id: group_id@, delta: 1 }]
            } else if count_delta == 0 {
                seq![
                    OpView::Notify {
                        kind: NotificationKind::JoinGroup,
                        actor_id: member.user_id@,
                        recipients: seq![owner_id@],
                        group_id: group_id@,
                    },
                ]
            } else {
                Seq::empty()
            }
        },
        GroupEvent::LeaveGroup { group_id, user_id, was_active } => {
            seq![OpView::DeleteMember { group_id: group_id@, user_id: user_id@ }] + if was_active {
                seq![OpView::AdjustMemberCount { group_id: group_id@, delta: -1 }]
            } else {
                Seq::empty()
            } + seq![
                OpView::NotifyGroupOwner {
                    group_id: group_id@,
                    kind: NotificationKind::LeaveGroup,
                    actor_id: user_id@,
                },
            ]
        },
        GroupEvent::ApproveMember { group_id, user_id, owner_id } => {
            seq![
                OpView::AdjustMemberCount { group_id: group_id@, delta: 1 },
                OpView::Notify {
                    kind: NotificationKind::ApproveMember,
                    actor_id: owner_id@,
                    recipients: seq![owner_id@, user_id@],
                    group_id: group_id@,
                },
            ]
        },
        GroupEvent::RemoveMember { group_id, owner_id, user_id, was_active } => {
            seq![OpView::DeleteMember { group_id: group_id@, user_id: user_id@ }] + if was_active {
                seq![OpView::AdjustMemberCount { group_id: group_id@, delta: -1 }]
            } else {
                Seq::empty()
            } + seq![
                OpView::Notify {
                    kind: NotificationKind::RemoveMember,
                    actor_id: owner_id@,
                    recipients: seq![user_id@],
                    group_id: group_id@,
                },
            ]
        },
    }
}

pub open spec fn ops_view(ops: Seq<WorkerOp>) -> Seq<OpView> {
    ops.map_values(|op: WorkerOp| op@)
}

fn adjust(group_id: String, delta: i64) -> (op: WorkerOp)
    ensures
        op@ == (OpView::AdjustMemberCount { group_id: group_id@, delta: delta as int }),
{
    WorkerOp::AdjustMemberCount { group_id, delta }
}

/// Lays out the work for one event: the operations that the worker carries
/// out for it, in order.
pub fn plan_event(event: GroupEvent) -> (ops: Vec<WorkerOp>)
    ensures
        ops_view(ops@) == event_plan(event),
        event matches GroupEvent::JoinGroup { member, .. } ==> ops@.len() >= 1 && ops@[0]
            == WorkerOp::PutMember(member),
        event is LeaveGroup ==> ops@.len() >= 1 && ops@[0]@ == (OpView::DeleteMember {
            group_id: event->LeaveGroup_group_id@,
            user_id: event->LeaveGroup_user_id@,
        }),
        event is RemoveMember ==> ops@.len() >= 1 && ops@[0]@ == (OpView::DeleteMember {
            group_id: event->RemoveMember_group_id@,
            user_id: event->RemoveMember_user_id@,
        }),
{
    let ghost e = event;
    let mut ops: Vec<WorkerOp> = Vec::new();
    match event {
        GroupEvent::JoinGroup { member, group_id, owner_id, count_delta } => {
            let actor_id = member.user_id.clone();
            ops.push(WorkerOp::PutMember(member));
            if count_delta == 1 {
                ops.push(adjust(group_id, 1));
            } else if count_delta == 0 {
                let mut recipients: Vec<String> = Vec::new();
                recipients.push(owner_id);
                assert(strings_view(recipients@) =~= seq![owner_id@]);
                ops.push(
                    WorkerOp::Notify(
                        NotificationDraft {
                            kind: NotificationKind::JoinGroup,
                            actor_id,
                            recipients,
                            group_id,
                        },
                    ),
                );
            }
            assert(ops_view(ops@) =~= event_plan(e));
        },
        GroupEvent::LeaveGroup { group_id, user_id, was_active } => {
            ops.push(WorkerOp::DeleteMember { group_id: group_id.clone(), user_id: user_id.clone() });
            if was_active {
                ops.push(adjust(group_id.clone(), -1));
            }
            ops.push(
                WorkerOp::NotifyGroupOwner {
                    group_id,
                    kind: NotificationKind::LeaveGroup,
                    actor_id: user_id,
                },
            );
            assert(ops_view(ops@) =~= event_plan(e));
        },
        GroupEvent::ApproveMember { group_id, user_id, owner_id } => {
            ops.push(adjust(group_id.clone(), 1));
            let mut recipients: Vec<String> = Vec::new();
            recipients.push(owner_id.clone());
            recipients.push(user_id);
            assert(strings_view(recipients@) =~= seq![owner_id@, user_id@]);
            ops.push(
                WorkerOp::Notify(
                    NotificationDraft {
                        kind: NotificationKind::ApproveMember,
                        actor_id: owner_id,
                        recipients,
                        group_id,
                    },
                ),
            );
            assert(ops_view(ops@) =~= event_plan(e));
        },
        GroupEvent::RemoveMember { group_id, owner_id, user_id, was_active } => {
            ops.push(WorkerOp::DeleteMember { group_id: group_id.clone(), user_id: user_id.clone() });
            if was_active {
                ops.push(adjust(group_id.clone(), -1));
            }
            let mut recipients: Vec<String> = Vec::new();
            recipients.push(user_id);
            assert(strings_view(recipients@) =~= seq![user_id@]);
            ops.push(
                WorkerOp::Notify(
                    NotificationDraft {
                        kind: NotificationKind::RemoveMember,
                        actor_id: owner_id,
                        recipients,
                        group_id,
                    },
                ),
            );
            assert(ops_view(ops@) =~= event_plan(e));
        },
    }
    ops
}

/// The notification to a group's owner, once the group has been read.
pub fn owner_notification(
    group_id: String,
    kind: NotificationKind,
    actor_id: String,
    group: &StudyGroup,
) -> (draft: NotificationDraft)
    ensures
        draft.kind == kind,
        draft.actor_id == actor_id,
        draft.group_id == group_id,
        strings_view(draft.recipients@) == seq![group.owner_id@],
{
    let mut recipients: Vec<String> = Vec::new();
    recipients.push(group.owner_id.clone());
    assert(strings_view(recipients@) =~= seq![group.owner_id@]);
    NotificationDraft { kind, actor_id, recipients, group_id }
}

/// Gives a notification its id and its time stamp. The id is a fresh random
/// UUID; the time stamp is the current time.
pub fn stamp_notification(draft: NotificationDraft) -> (event: SqsNotificationEvent)
    ensures
        is_hyphenated_v4_uuid(event.event_id@),
        is_rfc3339_utc(event.created_at@),
        event.event_type@ == kind_text(draft.kind),
        event.actor_id == draft.actor_id,
        event.targeting.user_ids == draft.recipients,
        event.targeting.group_id == Some(draft.group_id),
        event.targeting.exclude_user_ids.is_none(),
        event.payload@ == Seq::<char>::empty(),
{
    let event_type = draft.kind.name();
    SqsNotificationEvent {
        event_id: new_uuid(),
        event_type,
        actor_id: draft.actor_id,
        targeting: NotificationTargeting {
            user_ids: draft.recipients,
            group_id: Some(draft.group_id),
            exclude_user_ids: None,
        },
        payload: String::new(),
        created_at: now_rfc3339(),
    }
}

/// How one operation of a plan ended.
#[derive(Debug, PartialEq, Eq)]
pub enum OpOutcome {
    /// The operation was carried out.
    Completed,
    /// A store operation failed, or the group could not be read.
    StoreFailed(DynamoDBError),
    /// A notification could not be published.
    PublishFailed,
}

/// Whether the worker goes on with the rest of an event's plan after an
/// operation: a failed store operation ends the event with that failure; a
/// notification that could not be published is dropped and the work goes on.
pub fn settle_outcome(outcome: OpOutcome) -> (next: Result<(), DynamoDBError>)
    ensures
        match outcome {
            OpOutcome::StoreFailed(e) => next == Err::<(), DynamoDBError>(e),
            _ => next is Ok,
        },
{
    match outcome {
        OpOutcome::StoreFailed(e) => Err(e),
        _ => Ok(()),
    }
}

/// What the worker does with one queued record.
#[derive(Clone, Copy, Debug, PartialEq, Eq, Structural)]
pub enum RecordVerdict {
    /// The record has no body: it is logged and skipped.
    SkipNoBody,
    /// The body is not a membership event: it is logged and skipped.
    SkipUndecodable,
    /// The event is carried out; a failure stops the whole batch.
    Process,
}

/// Sorts a queued record by whether it has a body and whether the body
/// decodes as a membership event.
pub fn triage_record(has_body: bool, decoded: bool) -> (verdict: RecordVerdict)
    ensures
        !has_body ==> verdict == RecordVerdict::SkipNoBody,
        has_body && !decoded ==> verdict == RecordVerdict::SkipUndecodable,
        has_body && decoded ==> verdict == RecordVerdict::Process,
{
    if !has_body {
        RecordVerdict::SkipNoBody
    } else if !decoded {
        RecordVerdict::SkipUndecodable
    } else {
        RecordVerdict::Process
    }
}

/// The total change to the member count that a plan makes.
pub open spec fn count_delta(ops: Seq<OpView>) -> int
    decreases ops.len(),
{
    if ops.len() == 0 {
        0
    } else {
        count_delta(ops.drop_last()) + match ops.last() {
            OpView::AdjustMemberCount { delta, .. } => delta,
            _ => 0,
        }
    }
}

/// The users of a group whose membership is in force.
pub open spec fn active_members(roster: Map<Seq<char>, StatusType>) -> Set<Seq<char>> {
    roster.dom().filter(|u: Seq<char>| roster[u] == StatusType::Active)
}

/// Whether `event` is one that the request handlers emit for a group whose
/// memberships, by user id, are `roster`. For an approval, `roster` is the
/// state before the handler's conditional status update.
pub open spec fn emitted_for(event: GroupEvent, roster: Map<Seq<char>, StatusType>) -> bool {
    match event {
        GroupEvent::JoinGroup { member, group_id, count_delta, .. } => {
            &&& member.group_id@ == group_id@
            &&& !roster.contains_key(member.user_id@)
            &&& (member.status == StatusType::Active && count_delta == 1) || (member.status
                == StatusType::Pending && count_delta == 0)
        },
        GroupEvent::LeaveGroup { user_id, was_active, .. } => {
            &&& roster.contains_key(user_id@)
            &&& was_active == (roster[user_id@] == StatusType::Active)
        },
        GroupEvent::ApproveMember { user_id, .. } => {
            &&& roster.contains_key(user_id@)
            &&& roster[user_id@] == StatusType::Pending
        },
        GroupEvent::RemoveMember { user_id, was_active, .. } => {
            &&& roster.contains_key(user_id@)
            &&& was_active == (roster[user_id@] == StatusType::Active)
        },
    }
}

/// The memberships of the group once the event has taken effect.
pub open spec fn roster_after(event: GroupEvent, roster: Map<Seq<char>, StatusType>) -> Map<
    Seq<char>,
    StatusType,
> {
    match event {
        GroupEvent::JoinGroup { member, .. } => roster.insert(member.user_id@, member.status),
        GroupEvent::LeaveGroup { user_id, .. } => roster.remove(user_id@),
        GroupEvent::ApproveMember { user_id, .. } => roster.insert(user_id@, StatusType::Active),
        GroupEvent::RemoveMember { user_id, .. } => roster.remove(user_id@),
    }
}

/// The member count follows the number of active members: for every event
/// that the handlers emit, the change the worker makes to the member count
/// equals the change in the number of active members that the event brings.
pub proof fn lemma_member_count_tracks_active_members(
    event: GroupEvent,
    roster: Map<Seq<char>, StatusType>,
)
    requires
        roster.dom().finite(),
        emitted_for(event, roster),
    ensures
        active_members(roster_after(event, roster)).len() == active_members(roster).len()
            + count_delta(event_plan(event)),
{
    let before = active_members(roster);
    let after = active_members(roster_after(event, roster));
    roster.dom().lemma_len_filter(|u: Seq<char>| roster[u] == StatusType::Active);
    reveal_with_fuel(count_delta, 4);
    let plan = event_plan(event);
    match event {
        GroupEvent::JoinGroup { member, count_delta, .. } => {
            let u = member.user_id@;
            if member.status == StatusType::Active {
                assert(after =~= before.insert(u));
            } else {
                assert(after =~= before);
            }
            assert(plan.drop_last().drop_last() =~= Seq::<OpView>::empty());
        },
        GroupEvent::LeaveGroup { user_id, was_active, .. } => {
            let u = user_id@;
            if was_active {
                assert(after =~= before.remove(u));
                assert(plan.drop_last().drop_last().drop_last() =~= Seq::<OpView>::empty());
            } else {
                assert(after =~= before);
                assert(plan.drop_last().drop_last() =~= Seq::<OpView>::empty());
            }
        },
        GroupEvent::ApproveMember { user_id, .. } => {
            assert(after =~= before.insert(user_id@));
            assert(plan.drop_last().drop_last() =~= Seq::<OpView>::empty());
        },
        GroupEvent::RemoveMember { user_id, was_active, .. } => {
            let u = user_id@;
            if was_active {
                assert(after =~= before.remove(u));
                assert(plan.drop_last().drop_last().drop_last() =~= Seq::<OpView>::empty());
            } else {
                assert(after =~= before);
                assert(plan.drop_last().drop_last() =~= Seq::<OpView>::empty());
            }
        },
    }
}

/// What one operation does to the memberships of a group, by user id.
pub open spec fn store_effect(op: OpView, roster: Map<Seq<char>, StatusType>) -> Map<
    Seq<char>,
    StatusType,
> {
    match op {
        OpView::PutMember(m) => roster.insert(m.user_id@, m.status),
        OpView::DeleteMember { user_id, .. } => roster.remove(user_id),
        _ => roster,
    }
}

/// What a sequence of operations, carried out in order, does to the
/// memberships of a group.
pub open spec fn roster_effect(ops: Seq<OpView>, roster: Map<Seq<char>, StatusType>) -> Map<
    Seq<char>,
    StatusType,
>
    decreases ops.len(),
{
    if ops.len() == 0 {
        roster
    } else {
        store_effect(ops.last(), roster_effect(ops.drop_last(), roster))
    }
}

/// The group that an operation concerns.
pub open spec fn op_group(op: OpView) -> Seq<char> {
    match op {
        OpView::PutMember(m) => m.group_id@,
        OpView::AdjustMemberCount { group_id, .. } => group_id,
        OpView::DeleteMember { group_id, .. } => group_id,
        OpView::NotifyGroupOwner { group_id, .. } => group_id,
        OpView::Notify { group_id, .. } => group_id,
    }
}

/// The group that an event concerns.
pub open spec fn event_group(event: GroupEvent) -> Seq<char> {
    match event {
        GroupEvent::JoinGroup { group_id, .. } => group_id@,
        GroupEvent::LeaveGroup { group_id, .. } => group_id@,
        GroupEvent::ApproveMember { group_id, .. } => group_id@,
        GroupEvent::RemoveMember { group_id, .. } => group_id@,
    }
}

/// The store operations of a plan carry out the membership change of its
/// event, whatever the memberships were: a join stores the new membership
/// with its status; a leave or a removal deletes the membership, whether it
/// was active or pending; an approval writes no membership, as the request
/// handler has already marked it active.
pub proof fn lemma_plan_carries_out_membership_change(
    event: GroupEvent,
    roster: Map<Seq<char>, StatusType>,
)
    ensures
        event is ApproveMember ==> roster_effect(event_plan(event), roster) == roster,
        !(event is ApproveMember) ==> roster_effect(event_plan(event), roster) == roster_after(
            event,
            roster,
        ),
{
    reveal_with_fuel(roster_effect, 4);
    let plan = event_plan(event);
    match event {
        GroupEvent::JoinGroup { count_delta, .. } => {
            if count_delta == 1 || count_delta == 0 {
                assert(plan.drop_last().drop_last() =~= Seq::<OpView>::empty());
            } else {
                assert(plan =~= seq![plan[0]]);
                assert(plan.drop_last() =~= Seq::<OpView>::empty());
            }
        },
        GroupEvent::LeaveGroup { was_active, .. } => {
            if was_active {
                assert(plan.drop_last().drop_last().drop_last() =~= Seq::<OpView>::empty());
            } else {
                assert(plan.drop_last().drop_last() =~= Seq::<OpView>::empty());
            }
        },
        GroupEvent::ApproveMember { .. } => {
            assert(plan.drop_last().drop_last() =~= Seq::<OpView>::empty());
        },
        GroupEvent::RemoveMember { was_active, .. } => {
            if was_active {
                assert(plan.drop_last().drop_last().drop_last() =~= Seq::<OpView>::empty());
            } else {
                assert(plan.drop_last().drop_last() =~= Seq::<OpView>::empty());
            }
        },
    }
}

/// Every operation of a plan concerns the group of its event (for a join,
/// when the new membership belongs to the event's group, as the join handler
/// makes it).
pub proof fn lemma_plan_stays_in_its_group(event: GroupEvent)
    requires
        event matches GroupEvent::JoinGroup { member, group_id, .. } ==> member.group_id@
            == group_id@,
    ensures
        forall|i: int|
            0 <= i < event_plan(event).len() ==> op_group(#[trigger] event_plan(event)[i])
                == event_group(event),
{
}

/// Who is told of each membership change: the owner of a private group of
/// a pending join request, the group's owner of a member's leaving, both the
/// owner and the approved member of an approval, and the removed member of a
/// removal; a direct join to a public group is not announced. Each plan
/// publishes at most one notification, as its last operation.
pub proof fn lemma_plan_notifications(event: GroupEvent)
    ensures
        ({
            let plan = event_plan(event);
            let last = plan[plan.len() - 1];
            &&& plan.len() >= 1
            &&& forall|i: int|
                0 <= i < plan.len() - 1 ==> !(#[trigger] plan[i] is Notify) && !(
                plan[i] is NotifyGroupOwner)
            &&& match event {
                GroupEvent::JoinGroup { member, owner_id, count_delta, .. } => {
                    &&& count_delta == 0 ==> (last matches OpView::Notify {
                        kind,
                        actor_id,
                        recipients,
                        ..
                    } && kind == NotificationKind::JoinGroup && actor_id == member.user_id@
                        && recipients == seq![owner_id@])
                    &&& count_delta != 0 ==> !(last is Notify) && !(last is NotifyGroupOwner)
                },
                GroupEvent::LeaveGroup { user_id, .. } => last matches OpView::NotifyGroupOwner {
                    kind,
                    actor_id,
                    ..
                } && kind == NotificationKind::LeaveGroup && actor_id == user_id@,
                GroupEvent::ApproveMember { user_id, owner_id, .. } => last matches OpView::Notify {
                    kind,
                    actor_id,
                    recipients,
                    ..
                } && kind == NotificationKind::ApproveMember && actor_id == owner_id@
                    && recipients.contains(owner_id@) && recipients.contains(user_id@),
                GroupEvent::RemoveMember { user_id, owner_id, .. } => last matches OpView::Notify {
                    kind,
                    actor_id,
                    recipients,
                    ..
                } && kind == NotificationKind::RemoveMember && actor_id == owner_id@
                    && recipients == seq![user_id@],
            }
        }),
{
    let plan = event_plan(event);
    match event {
        GroupEvent::ApproveMember { user_id, owner_id, .. } => {
            let r = seq![owner_id@, user_id@];
            assert(r[0] == owner_id@);
            assert(r[1] == user_id@);
        },
        _ => {},
    }
}

} // verus!
