use group_core::errors::AppError;
use group_core::groups::{blank, create_group_records, is_whitespace_char, new_group_records, page_limit};
use group_core::models::{CreateGroupRequest, GroupType, RoleType, StatusType};

fn request(name: &str, subject: &str, tags: Option<Vec<String>>) -> CreateGroupRequest {
    CreateGroupRequest {
        name: name.to_string(),
        description: "weekly sessions".to_string(),
        primary_subject: subject.to_string(),
        subject_tags: tags,
        group_type: GroupType::Private,
    }
}

#[test]
fn blank_texts() {
    assert!(blank(""));
    assert!(blank("   "));
    assert!(blank("\t\n\r"));
    assert!(blank("\u{3000}\u{a0}\u{2028}"));
    assert!(!blank(" a "));
    assert!(!blank("x"));
}

#[test]
fn blank_name_is_refused() {
    let r = new_group_records(request("  ", "math", None), "u1".into(), "g1".into(), "t".into());
    assert_eq!(r, Err(AppError::BadRequest("Group name cannot be empty".to_string())));
}

#[test]
fn blank_subject_is_refused() {
    let r = new_group_records(request("Algebra", "\t", None), "u1".into(), "g1".into(), "t".into());
    assert_eq!(r, Err(AppError::BadRequest("Group name cannot be empty".to_string())));
}

#[test]
fn new_group_and_its_owner() {
    let tags = Some(vec!["calculus".to_string()]);
    let (group, owner) =
        new_group_records(request("Algebra", "math", tags), "u1".into(), "g1".into(), "t0".into())
            .unwrap();
    assert_eq!(group.group_id, "g1");
    assert_eq!(group.owner_id, "u1");
    assert_eq!(group.name, "Algebra");
    assert_eq!(group.description, "weekly sessions");
    assert_eq!(group.primary_subject, "math");
    assert_eq!(group.subject_tags, vec!["calculus".to_string()]);
    assert_eq!(group.group_type, GroupType::Private);
    assert_eq!(group.member_count, 1);
    assert_eq!(group.created_at, "t0");
    assert_eq!(owner.group_id, "g1");
    assert_eq!(owner.user_id, "u1");
    assert_eq!(owner.role, RoleType::Owner);
    assert_eq!(owner.status, StatusType::Active);
    assert_eq!(owner.joined_at, "t0");
}

#[test]
fn new_group_without_tags_has_none() {
    let (group, _) =
        new_group_records(request("Algebra", "math", None), "u1".into(), "g1".into(), "t".into())
            .unwrap();
    assert!(group.subject_tags.is_empty());
}

#[test]
fn created_group_gets_a_random_uuid() {
    let (group, owner) = create_group_records(request("A", "b", None), "u1".into()).unwrap();
    let id: Vec<char> = group.group_id.chars().collect();
    assert_eq!(id.len(), 36);
    for (i, c) in id.iter().enumerate() {
        if i == 8 || i == 13 || i == 18 || i == 23 {
            assert_eq!(*c, '-');
        } else {
            assert!(c.is_ascii_hexdigit() && !c.is_ascii_uppercase());
        }
    }
    assert_eq!(id[14], '4');
    assert!("89ab".contains(id[19]));
    assert_eq!(owner.group_id, group.group_id);
    assert_eq!(owner.joined_at, group.created_at);
    assert!(!group.created_at.is_empty());
    let (other, _) = create_group_records(request("A", "b", None), "u1".into()).unwrap();
    assert_ne!(other.group_id, group.group_id);
}

#[test]
fn created_group_refused_when_blank() {
    assert_eq!(
        create_group_records(request("", "b", None), "u1".into()),
        Err(AppError::BadRequest("Group name cannot be empty".to_string()))
    );
}

#[test]
fn page_limits() {
    assert_eq!(page_limit(None), 20);
    assert_eq!(page_limit(Some(25)), 25);
    assert_eq!(page_limit(Some(1)), 1);
    assert_eq!(page_limit(Some(50)), 50);
    assert_eq!(page_limit(Some(0)), 1);
    assert_eq!(page_limit(Some(-7)), 1);
    assert_eq!(page_limit(Some(51)), 50);
    assert_eq!(page_limit(Some(i32::MAX)), 50);
}

#[test]
fn whitespace_characters_agree_with_std() {
    for code in 0u32..0x3100 {
        if let Some(c) = char::from_u32(code) {
            assert_eq!(is_whitespace_char(c), c.is_whitespace(), "U+{:04X}", code);
        }
    }
}

#[test]
fn created_group_is_stamped_in_rfc3339_utc() {
    let (group, _) = create_group_records(request("A", "b", None), "u1".into()).unwrap();
    let s = &group.created_at;
    assert!(s.ends_with("+00:00"), "{}", s);
    assert_eq!(s.chars().nth(10), Some('T'));
    assert_eq!(s.chars().nth(4), Some('-'));
    assert_eq!(s.chars().nth(13), Some(':'));
}
