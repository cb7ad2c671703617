//! The primary keys under which groups and memberships are stored. A group
//! and all of its memberships share one partition; the sort key tells the
//! group's own record apart from each member's record.

use vstd::prelude::*;

verus! {

pub open spec fn group_pk_text(group_id: Seq<char>) -> Seq<char> {
    "GROUP#"@ + group_id
}

pub open spec fn member_sk_text(user_id: Seq<char>) -> Seq<char> {
    "MEMBER#"@ + user_id
}

pub open spec fn metadata_sk_text() -> Seq<char> {
    "METADATA"@
}

/// The partition key of a group and of its memberships.
pub fn group_pk(group_id: &str) -> (pk: String)
    ensures
        pk@ == group_pk_text(group_id@),
{
    let mut pk = String::from_str("GROUP#");
    pk.append(group_id);
    pk
}

/// The sort key of a group's own record.
pub fn metadata_sk() -> (sk: String)
    ensures
        sk@ == metadata_sk_text(),
{
    String::from_str("METADATA")
}

/// The sort key of one user's membership record.
pub fn member_sk(user_id: &str) -> (sk: String)
    ensures
        sk@ == member_sk_text(user_id@),
{
    let mut sk = String::from_str("MEMBER#");
    sk.append(user_id);
    sk
}

/// Two groups share a partition key only when they have the same id, so the
/// records of different groups never mix.
pub proof fn lemma_group_pk_injective(a: Seq<char>, b: Seq<char>)
    ensures
        group_pk_text(a) == group_pk_text(b) ==> a == b,
{
    let p = "GROUP#"@;
    assert((p + a).skip(p.len() as int) =~= a);
    assert((p + b).skip(p.len() as int) =~= b);
}

/// Two memberships of one group share a sort key only when they belong to the
/// same user, so one user's membership never overwrites another's.
pub proof fn lemma_member_sk_injective(a: Seq<char>, b: Seq<char>)
    ensures
        member_sk_text(a) == member_sk_text(b) ==> a == b,
{
    let p = "MEMBER#"@;
    assert((p + a).skip(p.len() as int) =~= a);
    assert((p + b).skip(p.len() as int) =~= b);
}

/// No membership record ever takes the place of its group's own record.
pub proof fn lemma_member_sk_is_not_metadata_sk(user_id: Seq<char>)
    ensures
        member_sk_text(user_id) != metadata_sk_text(),
{
    reveal_strlit("MEMBER#");
    reveal_strlit("METADATA");
    assert(member_sk_text(user_id)[2] == 'M');
    assert(metadata_sk_text()[2] == 'T');
}

} // verus!
