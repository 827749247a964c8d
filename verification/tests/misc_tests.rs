use matryx_repository::reading_cache::ReadingCache;
use std::sync::Arc;

use matryx_repository::error::RepositoryError;
use matryx_repository::membership::{MembershipRepository, MembershipState};
use matryx_repository::mention::MentionRepository;
use matryx_repository::messaging::MessagingRepository;
use matryx_repository::numeric::{format_i64, format_u64, parse_i64, parse_u32, parse_u64};
use matryx_repository::pdu::PDURepository;
use matryx_repository::presence::{PresenceRepository, PresenceState};
use matryx_repository::profile::{ProfileRepository, UserProfile};
use matryx_repository::profile_service::{AccountDataScope, ProfileManagementService, ThirdPartyOperation};
use matryx_repository::public_rooms::{PublicRoomInfo, PublicRoomsFilter, PublicRoomsRepository, RoomDirectoryVisibility};
use matryx_repository::push_rule::PushRuleRepository;
use matryx_repository::pusher::{MemberRow, PusherRepository};
use matryx_repository::receipt::ReceiptRepository;
use matryx_repository::room::RoomRepository;
use matryx_repository::room_alias::RoomAliasRepository;
use matryx_repository::room_discovery::{DirectoryListing, RoomDiscoveryService};
use matryx_repository::room_join::{RoomJoinService, RoomTarget};
use matryx_repository::text::{after_last_colon_exec, contains, ends_with, is_blank_exec, second_field_exec, starts_with};

fn filter(limit: Option<u32>, since: Option<&str>, server: Option<&str>) -> PublicRoomsFilter {
    PublicRoomsFilter {
        limit,
        since: since.map(|s| s.to_string()),
        server: server.map(|s| s.to_string()),
        include_all_known_networks: None,
        third_party_instance_id: None,
    }
}

fn discovery() -> RoomDiscoveryService<()> {
    RoomDiscoveryService::new(
        Arc::new(PublicRoomsRepository::new(())),
        Arc::new(RoomRepository::new(())),
        Arc::new(RoomAliasRepository::new(())),
        Arc::new(MembershipRepository::new(())),
    )
}

fn info(visibility: RoomDirectoryVisibility) -> PublicRoomInfo {
    PublicRoomInfo {
        room_id: "!test:example.com".to_string(),
        name: Some("Test".to_string()),
        topic: None,
        avatar_url: None,
        canonical_alias: Some("#test:example.com".to_string()),
        num_joined_members: 4,
        world_readable: true,
        guest_can_join: false,
        join_rule: "public".to_string(),
        room_type: None,
        visibility,
    }
}

#[test]
fn test_room_discovery_service_get_public_rooms_list() {
    let d = discovery();
    match d.get_public_rooms_list(filter(Some(10), None, None)) {
        DirectoryListing::Paged { limit, since } => {
            assert_eq!(limit, Some(10));
            assert!(since.is_none());
        },
        _ => panic!("expected a paged listing"),
    }
}

#[test]
fn test_public_rooms_filter_with_server() {
    let d = discovery();
    match d.get_public_rooms_list(filter(Some(10), None, Some("example.com"))) {
        DirectoryListing::Federation { server_name, limit } => {
            assert_eq!(server_name, "example.com");
            assert_eq!(limit, Some(10));
        },
        _ => panic!("expected a federation listing"),
    }
}

#[test]
fn test_search_rooms_with_empty_query() {
    let d = discovery();
    assert!(matches!(d.search_rooms("   ", filter(Some(10), None, None)), DirectoryListing::Paged { .. }));
    match d.search_rooms("test room", filter(Some(10), None, None)) {
        DirectoryListing::Search { query, limit } => {
            assert_eq!(query, "test room");
            assert_eq!(limit, Some(10));
        },
        _ => panic!("expected a search"),
    }
}

#[test]
fn test_room_discovery_service_get_room_directory_entry() {
    let d = discovery();
    let e = d.get_room_directory_entry(Some(info(RoomDirectoryVisibility::Public))).unwrap();
    assert_eq!(e.room_id, "!test:example.com");
    assert_eq!(e.num_joined_members, 4);
    assert!(d.get_room_directory_entry(Some(info(RoomDirectoryVisibility::Private))).is_none());
    assert!(d.get_room_directory_entry(None).is_none());
}

#[test]
fn test_room_discovery_service_update_room_directory_stats() {
    let d = discovery();
    let updated = d.update_room_directory_stats(9, Some(info(RoomDirectoryVisibility::Public))).unwrap();
    assert_eq!(updated.num_joined_members, 9);
    assert_eq!(updated.name.as_deref(), Some("Test"));
}

#[test]
fn test_room_discovery_service_get_room_statistics() {
    let d = discovery();
    let st = d.get_room_statistics("!test:example.com", 4, Some(&info(RoomDirectoryVisibility::Public)));
    assert_eq!(st.room_id, "!test:example.com");
    assert_eq!(st.member_count, 4);
    assert_eq!(st.visibility, RoomDirectoryVisibility::Public);
    let none = d.get_room_statistics("!test:example.com", 0, None);
    assert_eq!(none.visibility, RoomDirectoryVisibility::Private);
}

#[test]
fn directory_visibility_needs_a_joined_member() {
    let d = discovery();
    assert!(d.set_room_directory_visibility(Some(MembershipState::Join)).is_ok());
    match d.set_room_directory_visibility(Some(MembershipState::Invite)).unwrap_err() {
        RepositoryError::ValidationError { field, message } => {
            assert_eq!(field, "user_id");
            assert_eq!(message, "User not authorized to modify room directory visibility");
        },
        other => panic!("unexpected {:?}", other),
    }
}

#[test]
fn join_targets_and_decisions() {
    let j = RoomJoinService::new(RoomRepository::new(()), MembershipRepository::new(()), (), ());
    assert!(matches!(j.room_target("#a:x"), Ok(RoomTarget::Alias(ref a)) if a == "#a:x"));
    assert!(matches!(j.room_target("!r:x"), Ok(RoomTarget::RoomId(ref r)) if r == "!r:x"));
    assert!(matches!(j.room_target("r:x"), Err(RepositoryError::Validation { .. })));
    assert_eq!(j.resolved_room("#a:x", Some("!r:x".to_string())).unwrap(), "!r:x");
    assert!(j.resolved_room("#a:x", None).is_err());
    assert!(j.validate_join_request(true, true, None, true));
    assert!(!j.validate_join_request(true, true, Some(MembershipState::Ban), true));
    assert!(!j.validate_join_request(true, true, Some(MembershipState::Join), true));
    match j.join_room(false).unwrap_err() {
        RepositoryError::Unauthorized { reason } => assert_eq!(reason, "User not authorized to join room"),
        other => panic!("unexpected {:?}", other),
    }
    let (m, result) = j.process_join("!r:x", "@u:x", "$join".to_string());
    assert_eq!(m.membership, MembershipState::Join);
    assert_eq!(result.event_id, "$join");
    assert!(result.success);
}

#[test]
fn presence_records() {
    let p = PresenceRepository::new(());
    let on = p.set_user_online("@u:x", Some("busy".to_string()));
    assert_eq!(on.presence, "online");
    assert_eq!(on.last_active_ago, Some(0));
    assert_eq!(on.currently_active, Some(true));
    let off = p.set_user_offline("@u:x");
    assert_eq!(off.presence, "offline");
    assert_eq!(off.currently_active, Some(false));
    let away = p.update_user_presence_state("@u:x", PresenceState::Unavailable, Some("lunch"));
    assert_eq!(away.presence, "unavailable");
    assert!(!away.currently_active);
    assert_eq!(away.status_msg.as_deref(), Some("lunch"));
    assert_eq!(PresenceState::Online.as_str(), "online");
}

#[test]
fn profiles() {
    let p = ProfileRepository::new(());
    assert!(p.user_exists(Some(1)));
    assert!(!p.user_exists(Some(0)));
    let profile = UserProfile { user_id: "@u:x".to_string(), display_name: Some("U".to_string()), avatar_url: None };
    assert_eq!(p.get_validated_profile("@u:x", Some(profile)).unwrap().display_name.as_deref(), Some("U"));
    assert!(matches!(p.get_validated_profile("@u:x", None), Err(RepositoryError::NotFound { .. })));
    let s = ProfileManagementService::new(());
    assert!(s.get_user_profile("@u:x", true, false).is_ok());
    match s.get_user_profile("@u:x", false, false).unwrap_err() {
        RepositoryError::NotFound { entity_type, id } => {
            assert_eq!(entity_type, "User");
            assert_eq!(id, "@u:x");
        },
        other => panic!("unexpected {:?}", other),
    }
    assert!(matches!(s.account_data_scope(Some("!r:x".to_string())), AccountDataScope::Room(ref r) if r == "!r:x"));
    assert!(matches!(s.account_data_scope(None), AccountDataScope::Global));
    let validate = ThirdPartyOperation::Validate { medium: "email".to_string(), address: "a@b".to_string(), token: "t".to_string() };
    assert!(s.manage_third_party_ids(&validate, false).is_err());
    assert!(s.manage_third_party_ids(&validate, true).is_ok());
    assert!(s.manage_third_party_ids(&ThirdPartyOperation::List, false).is_ok());
}

#[test]
fn receipts_mentions_and_messages() {
    let r = ReceiptRepository::new(());
    let rc = r.store_receipt("!r:x", "@u:x", "$e", "m.read.private", Some("thread"), "x", 12);
    assert!(rc.is_private);
    assert_eq!(rc.thread_id.as_deref(), Some("thread"));
    assert_eq!(rc.timestamp, 12);
    assert!(!r.store_receipt("!r:x", "@u:x", "$e", "m.read", None, "x", 12).is_private);

    let m = MentionRepository::new(());
    let rows = vec![
        MemberRow { user_id: Some("@a:x".to_string()), display_name: Some("A".to_string()) },
        MemberRow { user_id: Some("@b:x".to_string()), display_name: Some("".to_string()) },
        MemberRow { user_id: None, display_name: Some("C".to_string()) },
    ];
    assert_eq!(m.get_room_members_for_mentions(&rows), vec![("@a:x".to_string(), "A".to_string())]);
    assert_eq!(m.validate_mentioned_users(&vec![Some("@a:x".to_string()), None]), vec!["@a:x".to_string()]);

    let p = PusherRepository::new(());
    let members = p.get_room_members_for_push(&rows);
    assert_eq!(members.len(), 2);
    assert_eq!(members[1].display_name.as_deref(), Some(""));
    assert_eq!(p.get_room_name("!r:x", None), "Room !r:x");
    assert_eq!(p.get_room_power_levels(&vec![("@a:x".to_string(), Some(50)), ("@b:x".to_string(), None)]), vec![("@a:x".to_string(), 50)]);

    let msg = MessagingRepository::new(());
    assert!(msg.check_transaction_exists(Some("$e".to_string())));
    assert!(!msg.check_transaction_exists(None));
    assert_ne!(msg.to_device_messages_query(Some("D")), msg.to_device_messages_query(None));
}

#[test]
fn stored_records_or_errors() {
    let pdu = PDURepository::new(());
    assert_eq!(pdu.create(Some(5)).unwrap(), 5);
    assert!(pdu.create::<u8>(None).is_err());
    let rules = PushRuleRepository::new(());
    assert_eq!(rules.rule_key("@u:x", ".m.rule.master"), "@u:x:.m.rule.master");
    assert_eq!(rules.subscribe_user_query("@u:x"), "LIVE SELECT * FROM push_rule WHERE user_id = '@u:x'");
    assert!(rules.update::<u8>(None).is_err());
}

#[test]
fn numbers_read_back() {
    for n in [0u64, 9, 10, 12345, u64::MAX] {
        assert_eq!(parse_u64(&format_u64(n)), Some(n));
    }
    for n in [0i64, -1, 42, i64::MIN, i64::MAX] {
        assert_eq!(parse_i64(&format_i64(n)), Some(n));
    }
    assert_eq!(parse_u32("4294967296"), None);
    assert_eq!(parse_u32("+7"), Some(7));
    assert_eq!(parse_u64(""), None);
    assert_eq!(parse_i64("-"), None);
    assert_eq!(parse_i64("12a"), None);
}

#[test]
fn text_helpers() {
    assert!(is_blank_exec(" \t\u{3000}"));
    assert!(!is_blank_exec(" a "));
    assert!(starts_with("#room", "#"));
    assert!(ends_with("a.matrix.org", ".matrix.org"));
    assert!(contains("hello world", "o w"));
    assert_eq!(after_last_colon_exec("@u:a:b"), Some("b".to_string()));
    assert_eq!(after_last_colon_exec("nocolon"), None);
    assert_eq!(second_field_exec("@u:example.com"), Some("example.com".to_string()));
}

#[test]
fn test_public_rooms_repository_get_public_rooms() {
    let r = PublicRoomsRepository::new(());
    let (limit, offset) = r.public_rooms_request(Some(10), None);
    let response = r.public_rooms_page(vec![], limit, offset, r.public_rooms_count(Some(0)));
    assert_eq!(response.chunk.len(), 0);
    assert_eq!(response.total_room_count_estimate, Some(0));
}

#[test]
fn test_public_rooms_repository_search_public_rooms() {
    let r = PublicRoomsRepository::new(());
    assert_eq!(r.search_limit(Some(10)), 10);
    let response = r.unpaged_response(vec![]);
    assert_eq!(response.chunk.len(), 0);
}

#[test]
fn test_public_rooms_repository_get_public_rooms_count() {
    let r = PublicRoomsRepository::new(());
    assert_eq!(r.public_rooms_count(None), 0);
}

#[test]
fn test_public_rooms_repository_room_directory_visibility() {
    let r = PublicRoomsRepository::new(());
    assert!(r.get_room_directory_visibility(None).is_none());
    assert_eq!(r.get_room_directory_visibility(Some("private")), Some(RoomDirectoryVisibility::Private));
}

#[test]
fn test_public_rooms_repository_federation_public_rooms() {
    let r = PublicRoomsRepository::new(());
    assert_eq!(r.federation_limit(Some(10)), 10);
    assert_eq!(r.unpaged_response(vec![]).chunk.len(), 0);
}

#[test]
fn test_room_discovery_service_search_rooms() {
    let d = discovery();
    assert!(matches!(d.search_rooms("test room", filter(Some(10), None, None)), DirectoryListing::Search { .. }));
}

#[test]
fn test_room_discovery_service_get_federation_public_rooms() {
    let d = discovery();
    match d.get_federation_public_rooms("example.com", filter(Some(10), None, Some("example.com"))) {
        DirectoryListing::Federation { server_name, limit } => {
            assert_eq!(server_name, "example.com");
            assert_eq!(limit, Some(10));
        },
        _ => panic!("expected a federation listing"),
    }
}

#[test]
fn test_room_discovery_service_resolve_alias_and_get_public_info() {
    let d = discovery();
    assert!(d.get_room_directory_entry(None).is_none());
}

#[test]
fn test_room_discovery_service_update_room_search_index() {
    let r = PublicRoomsRepository::new(());
    let (name, topic) = r.search_index_fields("Test Room", "");
    assert_eq!(name, "test room");
    assert_eq!(topic, "");
}

#[test]
fn readings_are_cached_for_their_duration() {
    let mut c: ReadingCache<u32> = ReadingCache::new(5_000);
    assert_eq!(c.get(0), None);
    assert_eq!(c.age(0), None);
    c.set(42, 1_000);
    assert_eq!(c.get(1_000), Some(42));
    assert_eq!(c.get(5_999), Some(42));
    assert_eq!(c.get(6_000), None);
    assert_eq!(c.age(3_500), Some(2_500));
    assert_eq!(c.age(500), Some(0));
    assert!(c.is_valid(2_000));
    c.invalidate();
    assert!(!c.is_valid(2_000));
}
