use group_core::errors::{AppError, DynamoDBError};
use group_core::members::{
    check_transfer_caller, decide_approve, decide_join, decide_leave, decide_remove,
    member_list_access, membership_summary, optional_membership, prepare_join, require_owner,
    transfer_message, visible_members,
};
use group_core::models::{GroupEvent, GroupMember, GroupType, RoleType, StatusType, StudyGroup};

fn member(user: &str, role: RoleType, status: StatusType) -> GroupMember {
    GroupMember {
        group_id: "g1".to_string(),
        user_id: user.to_string(),
        role,
        status,
        joined_at: "t".to_string(),
    }
}

fn group(kind: GroupType) -> StudyGroup {
    StudyGroup {
        group_id: "g1".to_string(),
        owner_id: "boss".to_string(),
        name: "Algebra".to_string(),
        description: "d".to_string(),
        primary_subject: "math".to_string(),
        subject_tags: vec![],
        group_type: kind,
        member_count: 3,
        created_at: "t".to_string(),
    }
}

#[test]
fn found_membership_is_some() {
    let m = member("u", RoleType::Member, StatusType::Active);
    assert_eq!(optional_membership(Ok(m.clone())), Ok(Some(m)));
}

#[test]
fn missing_membership_is_none() {
    assert_eq!(optional_membership(Err(DynamoDBError::NotFound("x".into()))), Ok(None));
}

#[test]
fn other_lookup_failure_propagates() {
    assert_eq!(
        optional_membership(Err(DynamoDBError::GetItem("down".into()))),
        Err(AppError::Repository(DynamoDBError::GetItem("down".into())))
    );
}

#[test]
fn joining_twice_is_a_conflict() {
    let r = decide_join(&group(GroupType::Public), "g1".into(), "u".into(), true, "t".into());
    assert_eq!(r, Err(AppError::Conflict("User is already a member of the group".into())));
}

#[test]
fn joining_a_public_group() {
    let (event, msg) =
        decide_join(&group(GroupType::Public), "g1".into(), "u".into(), false, "t9".into()).unwrap();
    assert_eq!(msg, "Successfully joined the group.");
    assert_eq!(
        event,
        GroupEvent::JoinGroup {
            member: GroupMember {
                group_id: "g1".into(),
                user_id: "u".into(),
                role: RoleType::Member,
                status: StatusType::Active,
                joined_at: "t9".into(),
            },
            group_id: "g1".into(),
            owner_id: "boss".into(),
            count_delta: 1,
        }
    );
}

#[test]
fn joining_a_private_group_waits_for_approval() {
    let (event, msg) =
        decide_join(&group(GroupType::Private), "g1".into(), "u".into(), false, "t9".into())
            .unwrap();
    assert_eq!(msg, "Your request to join the group is pending approval.");
    match event {
        GroupEvent::JoinGroup { member, count_delta, owner_id, .. } => {
            assert_eq!(member.status, StatusType::Pending);
            assert_eq!(member.role, RoleType::Member);
            assert_eq!(count_delta, 0);
            assert_eq!(owner_id, "boss");
        },
        _ => panic!("expected a join event"),
    }
}

#[test]
fn prepared_join_is_stamped_now() {
    let (event, _) =
        prepare_join(&group(GroupType::Public), "g1".into(), "u".into(), false).unwrap();
    match event {
        GroupEvent::JoinGroup { member, .. } => assert!(!member.joined_at.is_empty()),
        _ => panic!("expected a join event"),
    }
    assert!(prepare_join(&group(GroupType::Public), "g1".into(), "u".into(), true).is_err());
}

#[test]
fn owner_cannot_leave() {
    let r = decide_leave(&member("boss", RoleType::Owner, StatusType::Active), "g1".into(), "boss".into());
    assert_eq!(
        r,
        Err(AppError::BadRequest(
            "Group owner cannot leave the group. Please transfer ownership or delete the group."
                .into()
        ))
    );
}

#[test]
fn active_member_leaves() {
    let r = decide_leave(&member("u", RoleType::Member, StatusType::Active), "g1".into(), "u".into());
    assert_eq!(
        r,
        Ok((
            GroupEvent::LeaveGroup { group_id: "g1".into(), user_id: "u".into(), was_active: true },
            "Successfully left the group.".into()
        ))
    );
}

#[test]
fn pending_member_leaves() {
    let (event, _) =
        decide_leave(&member("u", RoleType::Member, StatusType::Pending), "g1".into(), "u".into())
            .unwrap();
    assert_eq!(
        event,
        GroupEvent::LeaveGroup { group_id: "g1".into(), user_id: "u".into(), was_active: false }
    );
}

#[test]
fn anyone_lists_a_public_group() {
    assert_eq!(member_list_access(GroupType::Public, &None), Ok(false));
    let pending = Some(member("u", RoleType::Member, StatusType::Pending));
    assert_eq!(member_list_access(GroupType::Public, &pending), Ok(false));
    let owner = Some(member("boss", RoleType::Owner, StatusType::Active));
    assert_eq!(member_list_access(GroupType::Public, &owner), Ok(true));
}

#[test]
fn private_group_list_access() {
    assert_eq!(member_list_access(GroupType::Private, &None), Err(AppError::Forbidden));
    let pending = Some(member("u", RoleType::Member, StatusType::Pending));
    assert_eq!(member_list_access(GroupType::Private, &pending), Err(AppError::Forbidden));
    let active = Some(member("u", RoleType::Member, StatusType::Active));
    assert_eq!(member_list_access(GroupType::Private, &active), Ok(false));
    let owner = Some(member("boss", RoleType::Owner, StatusType::Pending));
    assert_eq!(member_list_access(GroupType::Private, &owner), Ok(true));
}

#[test]
fn members_shown_to_others_are_the_active_ones() {
    let raw = vec![
        member("a", RoleType::Owner, StatusType::Active),
        member("b", RoleType::Member, StatusType::Pending),
        member("c", RoleType::Member, StatusType::Active),
    ];
    let shown = visible_members(raw.clone(), false);
    assert_eq!(shown, vec![raw[0].clone(), raw[2].clone()]);
    assert_eq!(visible_members(raw.clone(), true), raw);
    assert_eq!(visible_members(vec![], false), vec![]);
}

#[test]
fn only_owner_passes() {
    assert_eq!(require_owner(&member("boss", RoleType::Owner, StatusType::Active)), Ok(()));
    assert_eq!(
        require_owner(&member("u", RoleType::Member, StatusType::Active)),
        Err(AppError::Forbidden)
    );
}

#[test]
fn approval_names_the_approver() {
    let r = decide_approve(&member("boss", RoleType::Owner, StatusType::Active), "g1".into(), "u".into());
    assert_eq!(
        r,
        Ok((
            GroupEvent::ApproveMember {
                group_id: "g1".into(),
                user_id: "u".into(),
                owner_id: "boss".into()
            },
            "Member approval is being processed".into()
        ))
    );
    let r = decide_approve(&member("x", RoleType::Member, StatusType::Active), "g1".into(), "u".into());
    assert_eq!(r, Err(AppError::Forbidden));
}

#[test]
fn owner_cannot_be_removed() {
    let boss = member("boss", RoleType::Owner, StatusType::Active);
    assert_eq!(
        decide_remove(&boss, &boss, "g1".into(), "boss".into()),
        Err(AppError::BadRequest(
            "Cannot remove the group owner. Please transfer ownership or delete the group.".into()
        ))
    );
}

#[test]
fn member_is_removed() {
    let boss = member("boss", RoleType::Owner, StatusType::Active);
    let target = member("u", RoleType::Member, StatusType::Active);
    assert_eq!(
        decide_remove(&boss, &target, "g1".into(), "u".into()),
        Ok((
            GroupEvent::RemoveMember {
                group_id: "g1".into(),
                owner_id: "boss".into(),
                user_id: "u".into(),
                was_active: true
            },
            "Successfully removed u from group.".into()
        ))
    );
    let pending = member("p", RoleType::Member, StatusType::Pending);
    let (event, _) = decide_remove(&boss, &pending, "g1".into(), "p".into()).unwrap();
    assert!(matches!(event, GroupEvent::RemoveMember { was_active: false, .. }));
}

#[test]
fn handover_only_of_ones_own_groups() {
    assert_eq!(check_transfer_caller(&"u".to_string(), &"u".to_string()), Ok(()));
    assert_eq!(
        check_transfer_caller(&"u".to_string(), &"v".to_string()),
        Err(AppError::Forbidden)
    );
    assert_eq!(transfer_message(), "Ownership transferred successfully.");
}

#[test]
fn own_membership_summary() {
    let s = membership_summary(&Some(member("u", RoleType::Member, StatusType::Pending)));
    assert!(s.is_member);
    assert_eq!(s.role, Some(RoleType::Member));
    assert_eq!(s.status, Some(StatusType::Pending));
    let s = membership_summary(&None);
    assert!(!s.is_member);
    assert_eq!(s.role, None);
    assert_eq!(s.status, None);
}

#[test]
fn only_the_owner_removes() {
    let plain = member("x", RoleType::Member, StatusType::Active);
    let target = member("u", RoleType::Member, StatusType::Active);
    assert_eq!(decide_remove(&plain, &target, "g1".into(), "u".into()), Err(AppError::Forbidden));
}

fn is_rfc3339_utc(s: &str) -> bool {
    let c: Vec<char> = s.chars().collect();
    let n = c.len();
    if n < 25 || !s.ends_with("+00:00") {
        return false;
    }
    let digits = |lo: usize, hi: usize| c[lo..hi].iter().all(|d| d.is_ascii_digit());
    let t = match c.iter().position(|&x| x == 'T') {
        Some(t) => t,
        None => return false,
    };
    let frac = n - 6 - (t + 9);
    let frac_ok = frac == 0 || ([4, 7, 10].contains(&frac) && c[t + 9] == '.' && digits(t + 10, n - 6));
    t == 10 && digits(0, 4) && c[4] == '-' && digits(5, 7) && c[7] == '-' && digits(8, 10)
        && digits(t + 1, t + 3) && c[t + 3] == ':' && digits(t + 4, t + 6) && c[t + 6] == ':'
        && digits(t + 7, t + 9) && frac_ok
}

#[test]
fn join_is_stamped_in_rfc3339_utc() {
    let (event, _) =
        prepare_join(&group(GroupType::Private), "g1".into(), "u".into(), false).unwrap();
    match event {
        GroupEvent::JoinGroup { member, .. } => assert!(is_rfc3339_utc(&member.joined_at), "{}", member.joined_at),
        _ => panic!("expected a join event"),
    }
}
