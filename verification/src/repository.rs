//! What the storage layer computes around its calls to the database: the key
//! attributes of each record, how a read is turned into a record or a
//! failure, how a refused write is reported, and how results are gathered.

use vstd::prelude::*;
use crate::errors::DynamoDBError;
use crate::keys::{group_pk, group_pk_text, member_sk, member_sk_text, metadata_sk, metadata_sk_text};
use crate::models::{GroupMember, StudyGroup};

verus! {

/// The text view of a list of attribute names and values.
pub open spec fn pairs_view(v: Seq<(String, String)>) -> Seq<(Seq<char>, Seq<char>)> {
    v.map_values(|p: (String, String)| (p.0@, p.1@))
}

fn pair(name: &str, value: String) -> (p: (String, String))
    ensures
        p.0@ == name@,
        p.1 == value,
{
    (String::from_str(name), value)
}

/// The primary key of a group's own record.
pub open spec fn group_key_view(group_id: Seq<char>) -> Seq<(Seq<char>, Seq<char>)> {
    seq![("PK"@, group_pk_text(group_id)), ("SK"@, metadata_sk_text())]
}

/// The primary key of one user's membership record.
pub open spec fn member_key_view(group_id: Seq<char>, user_id: Seq<char>) -> Seq<
    (Seq<char>, Seq<char>),
> {
    seq![("PK"@, group_pk_text(group_id)), ("SK"@, member_sk_text(user_id))]
}

/// The primary key of a group's own record, as attribute names and values.
pub fn group_key(group_id: &str) -> (key: Vec<(String, String)>)
    ensures
        pairs_view(key@) == group_key_view(group_id@),
{
    let mut key: Vec<(String, String)> = Vec::new();
    key.push(pair("PK", group_pk(group_id)));
    key.push(pair("SK", metadata_sk()));
    assert(pairs_view(key@) =~= group_key_view(group_id@));
    key
}

/// The primary key of one user's membership record, as attribute names and
/// values.
pub fn member_key(group_id: &str, user_id: &str) -> (key: Vec<(String, String)>)
    ensures
        pairs_view(key@) == member_key_view(group_id@, user_id@),
{
    let mut key: Vec<(String, String)> = Vec::new();
    key.push(pair("PK", group_pk(group_id)));
    key.push(pair("SK", member_sk(user_id)));
    assert(pairs_view(key@) =~= member_key_view(group_id@, user_id@));
    key
}

/// The attributes that a group's record carries besides the group's own
/// fields: its primary key, and the entity type by which the index of all
/// groups finds it.
pub fn group_item_attributes(group: &StudyGroup) -> (attrs: Vec<(String, String)>)
    ensures
        pairs_view(attrs@) == group_key_view(group.group_id@) + seq![("entity_type"@, "GROUP"@)],
{
    let mut attrs = group_key(group.group_id.as_str());
    attrs.push(pair("entity_type", String::from_str("GROUP")));
    assert(pairs_view(attrs@) =~= group_key_view(group.group_id@) + seq![
        ("entity_type"@, "GROUP"@),
    ]);
    attrs
}

/// The attributes that a membership's record carries besides the
/// membership's own fields: its primary key.
pub fn member_item_attributes(member: &GroupMember) -> (attrs: Vec<(String, String)>)
    ensures
        pairs_view(attrs@) == member_key_view(member.group_id@, member.user_id@),
{
    member_key(member.group_id.as_str(), member.user_id.as_str())
}

/// Turns the read of a group's record into the group: a missing record is
/// reported with the group's id; a record that does not decode is reported
/// with the decoder's description of the failure.
pub fn resolve_group(group_id: &str, item: Option<Result<StudyGroup, String>>) -> (res: Result<
    StudyGroup,
    DynamoDBError,
>)
    ensures
        match item {
            None => res matches Err(DynamoDBError::NotFound(id)) && id@ == group_id@,
            Some(Ok(g)) => res == Ok::<StudyGroup, DynamoDBError>(g),
            Some(Err(d)) => res == Err::<StudyGroup, DynamoDBError>(DynamoDBError::Serialization(d)),
        },
{
    match item {
        None => Err(DynamoDBError::NotFound(String::from_str(group_id))),
        Some(Ok(g)) => Ok(g),
        Some(Err(d)) => Err(DynamoDBError::Serialization(d)),
    }
}

pub open spec fn membership_not_found_text(group_id: Seq<char>, user_id: Seq<char>) -> Seq<char> {
    "Membership for user "@ + user_id + " in group "@ + group_id + " not found"@
}

/// Turns the read of a membership record into the membership.
pub fn resolve_member(
    group_id: &str,
    user_id: &str,
    item: Option<Result<GroupMember, String>>,
) -> (res: Result<GroupMember, DynamoDBError>)
    ensures
        match item {
            None => res matches Err(DynamoDBError::NotFound(m)) && m@ == membership_not_found_text(
                group_id@,
                user_id@,
            ),
            Some(Ok(m)) => res == Ok::<GroupMember, DynamoDBError>(m),
            Some(Err(d)) => res == Err::<GroupMember, DynamoDBError>(
                DynamoDBError::Serialization(d),
            ),
        },
{
    match item {
        None => {
            let mut m = String::from_str("Membership for user ");
            m.append(user_id);
            m.append(" in group ");
            m.append(group_id);
            m.append(" not found");
            Err(DynamoDBError::NotFound(m))
        },
        Some(Ok(m)) => Ok(m),
        Some(Err(d)) => Err(DynamoDBError::Serialization(d)),
    }
}

/// Why the database refused a conditional write.
#[derive(Debug, PartialEq, Eq)]
pub enum WriteFailure {
    /// The write's condition did not hold.
    ConditionFailed,
    /// Any other failure, with the client's description of it.
    Other(String),
}

pub open spec fn already_member_text(group_id: Seq<char>, user_id: Seq<char>) -> Seq<char> {
    "User "@ + user_id + " is already a member of group "@ + group_id
}

/// Reports a refused insertion of a membership: when the membership exists
/// already, as such; otherwise as a failed write.
pub fn put_member_failure(member: &GroupMember, failure: WriteFailure) -> (e: DynamoDBError)
    ensures
        match failure {
            WriteFailure::ConditionFailed => e matches DynamoDBError::AlreadyExists(m) && m@
                == already_member_text(member.group_id@, member.user_id@),
            WriteFailure::Other(d) => e == DynamoDBError::PutItem(d),
        },
{
    match failure {
        WriteFailure::ConditionFailed => {
            let mut m = String::from_str("User ");
            m.append(member.user_id.as_str());
            m.append(" is already a member of group ");
            m.append(member.group_id.as_str());
            DynamoDBError::AlreadyExists(m)
        },
        WriteFailure::Other(d) => DynamoDBError::PutItem(d),
    }
}

pub open spec fn not_pending_text() -> Seq<char> {
    "Member status is not 'pending'"@
}

/// Reports a refused approval: when the membership was not pending, as such;
/// otherwise as a failed update.
pub fn approve_failure(failure: WriteFailure) -> (e: DynamoDBError)
    ensures
        match failure {
            WriteFailure::ConditionFailed => e matches DynamoDBError::PreconditionFailed(m) && m@
                == not_pending_text(),
            WriteFailure::Other(d) => e == DynamoDBError::UpdateError(d),
        },
{
    match failure {
        WriteFailure::ConditionFailed => DynamoDBError::PreconditionFailed(
            String::from_str("Member status is not 'pending'"),
        ),
        WriteFailure::Other(d) => DynamoDBError::UpdateError(d),
    }
}

pub open spec fn decoded<T>(items: Seq<Option<T>>) -> Seq<T> {
    items.filter_map(|o: Option<T>| o)
}

/// Keeps the records that decoded, in the order in which they were read, and
/// drops the ones that did not.
pub fn decoded_items<T>(items: Vec<Option<T>>) -> (kept: Vec<T>)
    ensures
        kept@ == decoded(items@),
{
    let ghost all = items@;
    let mut kept: Vec<T> = Vec::new();
    for item in it: items.into_iter()
        invariant
            it.seq() == all,
            kept@ == decoded(all.take(it.index() as int)),
    {
        let ghost i = it.index() as int;
        proof {
            assert(all.take(i + 1).drop_last() =~= all.take(i));
            assert(all.take(i + 1).last() == all[i]);
        }
        match item {
            Some(v) => {
                kept.push(v);
                proof {
                    assert(kept@ =~= decoded(all.take(i)) + seq![v]);
                }
            },
            None => {},
        }
    }
    proof {
        assert(all.take(all.len() as int) =~= all);
    }
    kept
}

pub open spec fn group_ids_of(members: Seq<GroupMember>) -> Seq<String> {
    members.map_values(|m: GroupMember| m.group_id)
}

/// The ids of the groups of a user's memberships, in order.
pub fn membership_group_ids(members: Vec<GroupMember>) -> (ids: Vec<String>)
    ensures
        ids@ == group_ids_of(members@),
{
    let ghost all = members@;
    let mut ids: Vec<String> = Vec::new();
    for m in it: members.into_iter()
        invariant
            it.seq() == all,
            ids@ == group_ids_of(all.take(it.index() as int)),
    {
        let ghost i = it.index() as int;
        ids.push(m.group_id);
        proof {
            assert(ids@ =~= group_ids_of(all.take(i + 1)));
        }
    }
    proof {
        assert(all.take(all.len() as int) =~= all);
    }
    ids
}

/// The keys under which the groups of a user's memberships are read in one
/// batch, one per group id and in order; none at all when the user belongs
/// to no group, in which case no read is made.
pub fn user_group_keys(group_ids: &Vec<String>) -> (keys: Option<Vec<Vec<(String, String)>>>)
    ensures
        group_ids@.len() == 0 ==> keys is None,
        group_ids@.len() > 0 ==> (keys matches Some(ks) && ks@.len() == group_ids@.len() && forall|
            i: int,
        |
            0 <= i < ks@.len() ==> pairs_view(#[trigger] ks@[i]@) == group_key_view(
                group_ids@[i]@,
            )),
{
    if group_ids.len() == 0 {
        return None;
    }
    let mut keys: Vec<Vec<(String, String)>> = Vec::new();
    for i in 0..group_ids.len()
        invariant
            keys@.len() == i,
            forall|j: int|
                0 <= j < i ==> pairs_view(#[trigger] keys@[j]@) == group_key_view(
                    group_ids@[j]@,
                ),
    {
        keys.push(group_key(group_ids[i].as_str()));
    }
    Some(keys)
}

/// The groups that a batch read found: none when the batch answered nothing
/// for the groups table, otherwise the records that decoded, in order.
pub fn batch_groups(found: Option<Vec<Option<StudyGroup>>>) -> (groups: Vec<StudyGroup>)
    ensures
        match found {
            None => groups@ == Seq::<StudyGroup>::empty(),
            Some(items) => groups@ == decoded(items@),
        },
{
    match found {
        None => Vec::new(),
        Some(items) => decoded_items(items),
    }
}

/// One step of counting over the pages of a query: adds the size of the
/// page just read to the running total, and tells whether another page
/// follows, which it does exactly when the page came with a last key.
pub fn count_page(total: i64, page_count: i32, has_last_key: bool) -> (step: (i64, bool))
    requires
        i64::MIN <= total + page_count <= i64::MAX,
    ensures
        step.0 == total + page_count,
        step.1 == has_last_key,
{
    (total + page_count as i64, has_last_key)
}

} // verus!
