use group_core::keys::{group_pk, member_sk, metadata_sk};

#[test]
fn group_partition_key() {
    assert_eq!(group_pk("g1"), "GROUP#g1");
    assert_eq!(group_pk(""), "GROUP#");
}

#[test]
fn group_record_sort_key() {
    assert_eq!(metadata_sk(), "METADATA");
}

#[test]
fn membership_sort_key() {
    assert_eq!(member_sk("u7"), "MEMBER#u7");
}

#[test]
fn keys_of_distinct_ids_differ() {
    assert_ne!(group_pk("a"), group_pk("b"));
    assert_ne!(member_sk("a"), member_sk("b"));
    assert_ne!(member_sk("ETADATA"), metadata_sk());
    assert_ne!(member_sk(""), metadata_sk());
}
