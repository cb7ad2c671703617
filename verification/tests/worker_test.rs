use std::collections::HashMap;

use group_core::errors::DynamoDBError;
use group_core::models::{GroupEvent, GroupMember, GroupType, RoleType, StatusType, StudyGroup};
use group_core::worker::{
    owner_notification, plan_event, settle_outcome, stamp_notification, triage_record,
    NotificationDraft, NotificationKind, OpOutcome, RecordVerdict, WorkerOp,
};

fn s(x: &str) -> String {
    x.to_string()
}

fn member(user: &str, status: StatusType) -> GroupMember {
    GroupMember {
        group_id: s("g1"),
        user_id: s(user),
        role: RoleType::Member,
        status,
        joined_at: s("t"),
    }
}

fn join(status: StatusType, delta: i64) -> GroupEvent {
    GroupEvent::JoinGroup { member: member("u", status), group_id: s("g1"), owner_id: s("boss"), count_delta: delta }
}

fn delta_of(ops: &[WorkerOp]) -> i64 {
    ops.iter()
        .map(|op| match op {
            WorkerOp::AdjustMemberCount { delta, .. } => *delta,
            _ => 0,
        })
        .sum()
}

#[test]
fn public_join_plan() {
    assert_eq!(
        plan_event(join(StatusType::Active, 1)),
        vec![
            WorkerOp::PutMember(member("u", StatusType::Active)),
            WorkerOp::AdjustMemberCount { group_id: s("g1"), delta: 1 },
        ]
    );
}

#[test]
fn private_join_plan_notifies_owner() {
    assert_eq!(
        plan_event(join(StatusType::Pending, 0)),
        vec![
            WorkerOp::PutMember(member("u", StatusType::Pending)),
            WorkerOp::Notify(NotificationDraft {
                kind: NotificationKind::JoinGroup,
                actor_id: s("u"),
                recipients: vec![s("boss")],
                group_id: s("g1"),
            }),
        ]
    );
}

#[test]
fn odd_join_delta_only_stores_member() {
    assert_eq!(
        plan_event(join(StatusType::Active, 5)),
        vec![WorkerOp::PutMember(member("u", StatusType::Active))]
    );
}

#[test]
fn leave_plan() {
    let active = plan_event(GroupEvent::LeaveGroup { group_id: s("g1"), user_id: s("u"), was_active: true });
    assert_eq!(
        active,
        vec![
            WorkerOp::DeleteMember { group_id: s("g1"), user_id: s("u") },
            WorkerOp::AdjustMemberCount { group_id: s("g1"), delta: -1 },
            WorkerOp::NotifyGroupOwner { group_id: s("g1"), kind: NotificationKind::LeaveGroup, actor_id: s("u") },
        ]
    );
    let pending = plan_event(GroupEvent::LeaveGroup { group_id: s("g1"), user_id: s("u"), was_active: false });
    assert_eq!(pending.len(), 2);
    assert_eq!(delta_of(&pending), 0);
}

#[test]
fn approve_plan() {
    assert_eq!(
        plan_event(GroupEvent::ApproveMember { group_id: s("g1"), user_id: s("u"), owner_id: s("boss") }),
        vec![
            WorkerOp::AdjustMemberCount { group_id: s("g1"), delta: 1 },
            WorkerOp::Notify(NotificationDraft {
                kind: NotificationKind::ApproveMember,
                actor_id: s("boss"),
                recipients: vec![s("boss"), s("u")],
                group_id: s("g1"),
            }),
        ]
    );
}

#[test]
fn remove_plan() {
    assert_eq!(
        plan_event(GroupEvent::RemoveMember { group_id: s("g1"), owner_id: s("boss"), user_id: s("u"), was_active: true }),
        vec![
            WorkerOp::DeleteMember { group_id: s("g1"), user_id: s("u") },
            WorkerOp::AdjustMemberCount { group_id: s("g1"), delta: -1 },
            WorkerOp::Notify(NotificationDraft {
                kind: NotificationKind::RemoveMember,
                actor_id: s("boss"),
                recipients: vec![s("u")],
                group_id: s("g1"),
            }),
        ]
    );
}

#[test]
fn member_count_follows_active_members() {
    // One group, run through a sequence of handler decisions and worker plans.
    let mut roster: HashMap<String, StatusType> = HashMap::new();
    roster.insert(s("boss"), StatusType::Active);
    let mut count = 1i64;
    let events = vec![
        (join(StatusType::Active, 1), "u"),
        (GroupEvent::JoinGroup { member: member("p", StatusType::Pending), group_id: s("g1"), owner_id: s("boss"), count_delta: 0 }, "p"),
        (GroupEvent::ApproveMember { group_id: s("g1"), user_id: s("p"), owner_id: s("boss") }, "p"),
        (GroupEvent::LeaveGroup { group_id: s("g1"), user_id: s("u"), was_active: true }, "u"),
        (GroupEvent::RemoveMember { group_id: s("g1"), owner_id: s("boss"), user_id: s("p"), was_active: true }, "p"),
    ];
    for (event, user) in events {
        match &event {
            GroupEvent::JoinGroup { member, .. } => {
                roster.insert(s(user), member.status);
            },
            GroupEvent::ApproveMember { .. } => {
                roster.insert(s(user), StatusType::Active);
            },
            _ => {
                roster.remove(user);
            },
        }
        count += delta_of(&plan_event(event));
        let active = roster.values().filter(|st| **st == StatusType::Active).count() as i64;
        assert_eq!(count, active);
    }
}

#[test]
fn owner_is_notified_after_lookup() {
    let group = StudyGroup {
        group_id: s("g1"),
        owner_id: s("boss"),
        name: s("n"),
        description: s("d"),
        primary_subject: s("m"),
        subject_tags: vec![],
        group_type: GroupType::Public,
        member_count: 2,
        created_at: s("t"),
    };
    assert_eq!(
        owner_notification(s("g1"), NotificationKind::LeaveGroup, s("u"), &group),
        NotificationDraft { kind: NotificationKind::LeaveGroup, actor_id: s("u"), recipients: vec![s("boss")], group_id: s("g1") }
    );
}

#[test]
fn stamped_notification() {
    let event = stamp_notification(NotificationDraft {
        kind: NotificationKind::ApproveMember,
        actor_id: s("boss"),
        recipients: vec![s("boss"), s("u")],
        group_id: s("g1"),
    });
    assert_eq!(event.event_type, "ApproveMember");
    assert_eq!(event.actor_id, "boss");
    assert_eq!(event.targeting.user_ids, vec![s("boss"), s("u")]);
    assert_eq!(event.targeting.group_id, Some(s("g1")));
    assert_eq!(event.targeting.exclude_user_ids, None);
    assert_eq!(event.payload, "");
    assert_eq!(event.event_id.len(), 36);
    assert!(event.created_at.ends_with("+00:00"));
    assert_eq!(event.created_at.chars().nth(10), Some('T'));
}

#[test]
fn notification_kind_names() {
    assert_eq!(NotificationKind::JoinGroup.name(), "JoinGroup");
    assert_eq!(NotificationKind::LeaveGroup.name(), "LeaveGroup");
    assert_eq!(NotificationKind::ApproveMember.name(), "ApproveMember");
    assert_eq!(NotificationKind::RemoveMember.name(), "RemoveMember");
}

#[test]
fn store_failures_stop_an_event_and_publish_failures_do_not() {
    assert_eq!(settle_outcome(OpOutcome::Completed), Ok(()));
    assert_eq!(settle_outcome(OpOutcome::PublishFailed), Ok(()));
    assert_eq!(
        settle_outcome(OpOutcome::StoreFailed(DynamoDBError::DeleteError(s("x")))),
        Err(DynamoDBError::DeleteError(s("x")))
    );
}

#[test]
fn records_are_triaged() {
    assert_eq!(triage_record(false, false), RecordVerdict::SkipNoBody);
    assert_eq!(triage_record(true, false), RecordVerdict::SkipUndecodable);
    assert_eq!(triage_record(true, true), RecordVerdict::Process);
}
