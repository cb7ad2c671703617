//! The decisions of the group requests: creating a group and paging through
//! the list of groups.

use vstd::prelude::*;
use crate::errors::AppError;
use crate::ids::{is_hyphenated_v4_uuid, is_rfc3339_utc, new_uuid, now_rfc3339};
use crate::models::{CreateGroupRequest, GroupMember, RoleType, StatusType, StudyGroup};
use crate::worker::active_members;

verus! {

/// The characters with the Unicode `White_Space` property.
pub open spec fn is_white_space(c: char) -> bool {
    ||| '\u{9}' <= c && c <= '\u{d}'
    ||| c == ' '
    ||| c == '\u{85}'
    ||| c == '\u{a0}'
    ||| c == '\u{1680}'
    ||| '\u{2000}' <= c && c <= '\u{200a}'
    ||| c == '\u{2028}'
    ||| c == '\u{2029}'
    ||| c == '\u{202f}'
    ||| c == '\u{205f}'
    ||| c == '\u{3000}'
}

/// A text that is empty once its leading and trailing white space is
/// trimmed, that is, a text made of white space only.
pub open spec fn is_blank(s: Seq<char>) -> bool {
    forall|i: int| 0 <= i < s.len() ==> is_white_space(#[trigger] s[i])
}

/// Tells whether a character has the Unicode `White_Space` property.
pub fn is_whitespace_char(c: char) -> (b: bool)
    ensures
        b == is_white_space(c),
{
    ('\u{9}' <= c && c <= '\u{d}') || c == ' ' || c == '\u{85}' || c == '\u{a0}' || c
        == '\u{1680}' || ('\u{2000}' <= c && c <= '\u{200a}') || c == '\u{2028}' || c
        == '\u{2029}' || c == '\u{202f}' || c == '\u{205f}' || c == '\u{3000}'
}

/// Tells whether a text is made of white space only.
pub fn blank(s: &str) -> (b: bool)
    ensures
        b == is_blank(s@),
{
    broadcast use vstd::string::group_string_axioms;

    for c in it: s.chars()
        invariant
            it.seq() == s@,
            forall|j: int| 0 <= j < it.index() ==> is_white_space(#[trigger] s@[j]),
    {
        if !is_whitespace_char(c) {
            return false;
        }
    }
    true
}

pub open spec fn blank_name_text() -> Seq<char> {
    "Group name cannot be empty"@
}

/// Whether a create request is refused: a group needs a name and a primary
/// subject that are not blank.
pub open spec fn create_refused(req: CreateGroupRequest) -> bool {
    is_blank(req.name@) || is_blank(req.primary_subject@)
}

/// `group` is the group that `req` creates for `user_id`, under `group_id`,
/// at time `created_at`: owned by its creator, with the creator as its only
/// member, and with no subject tags when the request gives none.
pub open spec fn is_new_group(
    group: StudyGroup,
    req: CreateGroupRequest,
    user_id: String,
    group_id: String,
    created_at: String,
) -> bool {
    &&& group.group_id == group_id
    &&& group.owner_id == user_id
    &&& group.name == req.name
    &&& group.description == req.description
    &&& group.primary_subject == req.primary_subject
    &&& group.subject_tags@ == match req.subject_tags {
        Some(tags) => tags@,
        None => Seq::<String>::empty(),
    }
    &&& group.group_type == req.group_type
    &&& group.member_count == 1
    &&& group.created_at == created_at
}

/// The owner's own membership in a group it has just created.
pub open spec fn owner_membership(group_id: String, user_id: String, joined_at: String) -> GroupMember {
    GroupMember {
        group_id: group_id,
        user_id: user_id,
        role: RoleType::Owner,
        status: StatusType::Active,
        joined_at: joined_at,
    }
}

/// Decides a create request of `user_id`: refuses a blank name or subject;
/// otherwise writes the new group, under `group_id` and stamped `now`, and the
/// creator's membership as its owner.
pub fn new_group_records(
    req: CreateGroupRequest,
    user_id: String,
    group_id: String,
    now: String,
) -> (res: Result<(StudyGroup, GroupMember), AppError>)
    ensures
        create_refused(req) ==> (res matches Err(AppError::BadRequest(m)) && m@
            == blank_name_text()),
        !create_refused(req) ==> (res matches Ok((group, owner)) && is_new_group(
            group,
            req,
            user_id,
            group_id,
            now,
        ) && owner == owner_membership(group_id, user_id, now)),
        !create_refused(req) ==> (res matches Ok((group, owner)) && group.group_type
            == req.group_type && group.owner_id == user_id && group.member_count == 1
            && owner.user_id == user_id && owner.role == RoleType::Owner && owner.status
            == StatusType::Active && owner.group_id == group.group_id),
{
    if blank(req.name.as_str()) || blank(req.primary_subject.as_str()) {
        return Err(AppError::BadRequest(String::from_str("Group name cannot be empty")));
    }
    let subject_tags = match req.subject_tags {
        Some(tags) => tags,
        None => Vec::new(),
    };
    let group = StudyGroup {
        group_id: group_id.clone(),
        owner_id: user_id.clone(),
        name: req.name,
        description: req.description,
        primary_subject: req.primary_subject,
        subject_tags,
        group_type: req.group_type,
        member_count: 1,
        created_at: now.clone(),
    };
    let owner = GroupMember {
        group_id,
        user_id,
        role: RoleType::Owner,
        status: StatusType::Active,
        joined_at: now,
    };
    Ok((group, owner))
}

/// Handles the decision of a create request: a fresh random id and the
/// current time are drawn once the request is known to be admissible.
pub fn create_group_records(req: CreateGroupRequest, user_id: String) -> (res: Result<
    (StudyGroup, GroupMember),
    AppError,
>)
    ensures
        create_refused(req) ==> (res matches Err(AppError::BadRequest(m)) && m@
            == blank_name_text()),
        !create_refused(req) ==> (res matches Ok((group, owner)) && is_hyphenated_v4_uuid(
            group.group_id@,
        ) && is_rfc3339_utc(group.created_at@) && is_new_group(group, req, user_id, group.group_id, group.created_at) && owner
            == owner_membership(group.group_id, user_id, group.created_at)),
        !create_refused(req) ==> (res matches Ok((group, owner)) && group.group_type
            == req.group_type && group.owner_id == user_id && group.member_count == 1
            && owner.user_id == user_id && owner.role == RoleType::Owner && owner.status
            == StatusType::Active && owner.group_id == group.group_id),
{
    if blank(req.name.as_str()) || blank(req.primary_subject.as_str()) {
        return Err(AppError::BadRequest(String::from_str("Group name cannot be empty")));
    }
    let group_id = new_uuid();
    let now = now_rfc3339();
    new_group_records(req, user_id, group_id, now)
}

/// A new group starts with a member count of one, which is the number of its
/// active members: its owner.
pub proof fn lemma_new_group_count(
    group: StudyGroup,
    req: CreateGroupRequest,
    user_id: String,
    group_id: String,
    created_at: String,
)
    requires
        is_new_group(group, req, user_id, group_id, created_at),
    ensures
        group.member_count == active_members(
            Map::<Seq<char>, StatusType>::empty().insert(user_id@, StatusType::Active),
        ).len(),
{
    let roster = Map::<Seq<char>, StatusType>::empty().insert(user_id@, StatusType::Active);
    assert(active_members(roster) =~= Set::<Seq<char>>::empty().insert(user_id@));
}

/// A group that a request creates has the type, name, description and
/// subject that the request asks for, is owned by its creator, counts one
/// member, and its creator's membership is that of an active owner of this
/// very group.
pub proof fn lemma_new_group_is_as_requested(
    group: StudyGroup,
    owner: GroupMember,
    req: CreateGroupRequest,
    user_id: String,
    group_id: String,
    created_at: String,
)
    requires
        is_new_group(group, req, user_id, group_id, created_at),
        owner == owner_membership(group_id, user_id, created_at),
    ensures
        group.group_type == req.group_type,
        group.name == req.name,
        group.description == req.description,
        group.primary_subject == req.primary_subject,
        group.owner_id == user_id,
        group.member_count == 1,
        owner.user_id == group.owner_id,
        owner.group_id == group.group_id,
        owner.role == RoleType::Owner,
        owner.status == StatusType::Active,
        owner.joined_at == group.created_at,
{
}

/// The page size used when a list request gives none.
pub const DEFAULT_PAGE_LIMIT: i32 = 20;
/// The smallest page size.
pub const MIN_PAGE_LIMIT: i32 = 1;
/// The largest page size.
pub const MAX_PAGE_LIMIT: i32 = 50;

pub open spec fn page_limit_of(limit: Option<i32>) -> i32 {
    let l = match limit {
        Some(l) => l,
        None => DEFAULT_PAGE_LIMIT,
    };
    if l < MIN_PAGE_LIMIT {
        MIN_PAGE_LIMIT
    } else if l > MAX_PAGE_LIMIT {
        MAX_PAGE_LIMIT
    } else {
        l
    }
}

/// The page size of a list request: the requested size, 20 when none is
/// given, held between 1 and 50.
pub fn page_limit(limit: Option<i32>) -> (l: i32)
    ensures
        l == page_limit_of(limit),
        MIN_PAGE_LIMIT <= l <= MAX_PAGE_LIMIT,
        (limit matches Some(r) && MIN_PAGE_LIMIT <= r <= MAX_PAGE_LIMIT) ==> l == limit->0,
        limit is None ==> l == DEFAULT_PAGE_LIMIT,
{
    let l = match limit {
        Some(l) => l,
        None => DEFAULT_PAGE_LIMIT,
    };
    if l < MIN_PAGE_LIMIT {
        MIN_PAGE_LIMIT
    } else if l > MAX_PAGE_LIMIT {
        MAX_PAGE_LIMIT
    } else {
        l
    }
}

} // verus!
