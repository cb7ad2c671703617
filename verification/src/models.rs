//! The records that the service stores and the events that it queues.

use vstd::prelude::*;

verus! {

/// Whether anyone may join a group directly, or only after the owner approves.
#[derive(Clone, Copy, Debug, PartialEq, Eq, Structural)]
pub enum GroupType {
    Public,
    Private,
}

/// The role of a member inside a group.
#[derive(Clone, Copy, Debug, PartialEq, Eq, Structural)]
pub enum RoleType {
    Owner,
    Member,
}

/// Whether a membership is in force or still waits for the owner's approval.
#[derive(Clone, Copy, Debug, PartialEq, Eq, Structural)]
pub enum StatusType {
    Active,
    Pending,
}

/// A study group, as stored in the groups table.
#[derive(Clone, Debug, PartialEq, Eq)]
pub struct StudyGroup {
    pub group_id: String,
    pub owner_id: String,
    pub name: String,
    pub description: String,
    /// Used as the partition key of the subject index.
    pub primary_subject: String,
    /// Additional subject tags.
    pub subject_tags: Vec<String>,
    pub group_type: GroupType,
    pub member_count: i64,
    pub created_at: String,
}

/// One user's membership in one group, as stored in the members table.
#[derive(Clone, Debug, PartialEq, Eq)]
pub struct GroupMember {
    pub group_id: String,
    pub user_id: String,
    pub role: RoleType,
    pub status: StatusType,
    pub joined_at: String,
}

/// The body of a request that creates a group.
#[derive(Clone, Debug, PartialEq, Eq)]
pub struct CreateGroupRequest {
    pub name: String,
    pub description: String,
    pub primary_subject: String,
    pub subject_tags: Option<Vec<String>>,
    pub group_type: GroupType,
}

/// The query string of a request that lists groups.
#[derive(Clone, Debug, PartialEq, Eq)]
pub struct ListGroupsQuery {
    pub subject: Option<String>,
    pub limit: Option<i32>,
    pub cursor: Option<String>,
}

/// The body of a request that hands a group over to another member.
#[derive(Clone, Debug, PartialEq, Eq)]
pub struct TransferOwnershipQuery {
    pub new_owner_id: String,
}

/// A membership change that the request handlers queue for the worker.
#[derive(Clone, Debug, PartialEq, Eq)]
pub enum GroupEvent {
    JoinGroup { member: GroupMember, group_id: String, owner_id: String, count_delta: i64 },
    LeaveGroup { group_id: String, user_id: String, was_active: bool },
    ApproveMember { group_id: String, user_id: String, owner_id: String },
    RemoveMember { group_id: String, owner_id: String, user_id: String, was_active: bool },
}

/// Who a notification is meant for.
#[derive(Clone, Debug, PartialEq, Eq)]
pub struct NotificationTargeting {
    pub user_ids: Vec<String>,
    pub group_id: Option<String>,
    pub exclude_user_ids: Option<Vec<String>>,
}

/// A notification as the worker publishes it to the notification queue.
/// `payload` is the text of the JSON string that travels as the payload.
#[derive(Clone, Debug, PartialEq, Eq)]
pub struct SqsNotificationEvent {
    pub event_id: String,
    pub event_type: String,
    pub actor_id: String,
    pub targeting: NotificationTargeting,
    pub payload: String,
    pub created_at: String,
}

} // verus!
