use matryx_repository::room::{JoinRules, GuestAccess, RoomRepository};

#[test]
fn join_rules_names() {
    assert_eq!(JoinRules::Public.as_str(), "public");
    assert_eq!(GuestAccess::CanJoin.as_str(), "can_join");
}

#[test]
fn acl_wildcard_matches_any_server() {
    assert!(RoomRepository::<()>::server_matches_pattern("matrix.org", "*"));
    assert!(RoomRepository::<()>::server_matches_pattern("matrix.org", "*.matrix.org"));
    assert!(RoomRepository::<()>::server_matches_pattern("a.matrix.org", "*.matrix.org"));
    assert!(!RoomRepository::<()>::server_matches_pattern("evil.org", "*.matrix.org"));
}
