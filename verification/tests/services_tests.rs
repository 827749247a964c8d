use matryx_repository::error::RepositoryError;
use matryx_repository::notification::{NotificationPriority, NotificationRepository, NotificationType};
use matryx_repository::oauth2::{default_client_scopes, AuthorizationCode, OAuth2Repository};
use matryx_repository::public_rooms::{PublicRoomEntry, PublicRoomsRepository, RoomDirectoryVisibility};
use matryx_repository::room_alias::RoomAliasRepository;

fn strings(v: &[&str]) -> Vec<String> {
    v.iter().map(|s| s.to_string()).collect()
}

#[test]
fn scopes_are_checked_word_by_word() {
    let r = OAuth2Repository::new(());
    let allowed = default_client_scopes();
    assert_eq!(allowed, strings(&["openid", "profile", "email", "urn:matrix:client:api:*"]));
    assert!(matches!(r.validate_scope("client1", Some(&allowed), "openid profile"), Ok(true)));
    assert!(matches!(r.validate_scope("client1", Some(&allowed), "  openid\temail  "), Ok(true)));
    assert!(matches!(r.validate_scope("client1", Some(&allowed), "urn:matrix:client:api:guest"), Ok(true)));
    assert!(matches!(r.validate_scope("client1", Some(&allowed), "openid admin"), Ok(false)));
    assert!(matches!(r.validate_scope("client1", Some(&allowed), ""), Ok(true)));
    assert!(matches!(r.validate_scope("client1", None, "openid"),
        Err(RepositoryError::NotFound { ref entity_type, ref id }) if entity_type == "OAuth2Client" && id == "client1"));
}

#[test]
fn redirect_uris_must_be_registered() {
    let r = OAuth2Repository::new(());
    let uris = strings(&["https://app.example/cb"]);
    assert!(r.validate_redirect_uri(Some(&uris), "https://app.example/cb"));
    assert!(!r.validate_redirect_uri(Some(&uris), "https://app.example/cb2"));
    assert!(!r.validate_redirect_uri(None, "https://app.example/cb"));
}

#[test]
fn pkce_s256_and_plain() {
    let r = OAuth2Repository::new(());
    let verifier = "dBjftJeZ4CVP-mJ92IaO7WKW8nZmRa5ZrCvxWnUSvUw";
    assert!(r.validate_pkce_challenge(verifier, "prMK0pacOs55KiPP-6axcsN0sVUEsSLwLy390oueoCs", "S256"));
    assert!(!r.validate_pkce_challenge(verifier, verifier, "S256"));
    assert!(r.validate_pkce_challenge("same", "same", "plain"));
    assert!(!r.validate_pkce_challenge("same", "same", "S512"));
}

#[test]
fn authorization_codes_are_used_once() {
    let r = OAuth2Repository::new(());
    let code = r.create_authorization_code("client", "@u:x", "https://cb", Some("openid"), None, None, 1_000);
    assert!(code.code.starts_with("mxac_"));
    assert_eq!(code.code.len(), 41);
    assert!(!code.used);
    assert_eq!(code.expires_at, 1_000 + 600_000);
    let consumed: AuthorizationCode = r.consume_authorization_code(Some(code), 2_000).unwrap();
    assert!(consumed.used);
    assert!(r.consume_authorization_code(Some(consumed), 2_001).is_none());
    let late = r.create_authorization_code("client", "@u:x", "https://cb", None, None, None, 0);
    assert!(r.consume_authorization_code(Some(late), 600_001).is_none());
    assert!(r.consume_authorization_code(None, 0).is_none());
}

#[test]
fn confidential_clients_get_a_secret() {
    let r = OAuth2Repository::new(());
    let c = r.register_client("App", strings(&["https://cb"]), "confidential", None, 5);
    assert!(c.client_id.starts_with("mxcl_"));
    assert!(c.client_secret.is_some());
    assert_eq!(c.allowed_scopes, default_client_scopes());
    let p = r.register_client("App", strings(&["https://cb"]), "public", Some(strings(&["openid"])), 5);
    assert!(p.client_secret.is_none());
    assert_eq!(p.allowed_scopes, strings(&["openid"]));
}

#[test]
fn notification_tokens_round_trip() {
    let r = NotificationRepository::new(());
    let token = r.create_notification_token(1_700_000_000_123);
    assert_eq!(token, "MTcwMDAwMDAwMA==");
    assert_eq!(r.parse_notification_token(&token).unwrap(), 1_700_000_000);
    match r.parse_notification_token("***").unwrap_err() {
        RepositoryError::ValidationError { field, message } => {
            assert_eq!(field, "notification_token");
            assert!(message.starts_with("Invalid token format: "));
        },
        other => panic!("unexpected {:?}", other),
    }
    // "abc" decodes to text that is not a number.
    match r.parse_notification_token("YWJj").unwrap_err() {
        RepositoryError::ValidationError { message, .. } => assert!(message.starts_with("Invalid timestamp in token: ")),
        other => panic!("unexpected {:?}", other),
    }
}

#[test]
fn notification_pages() {
    let r = NotificationRepository::new(());
    let (from, limit) = r.notification_page_request(Some("MTcwMDAwMDAwMA=="), None);
    assert_eq!(from, Some(1_700_000_000));
    assert_eq!(limit, 50);
    assert_eq!(r.notification_page_request(Some("garbage!"), Some(5)), (None, 5));
    let (next, prev) = r.notification_page_tokens(&vec![3_000, 2_000], 2);
    assert_eq!(next.as_deref(), Some("Mg=="));
    assert_eq!(prev.as_deref(), Some("Mw=="));
    let (next, prev) = r.notification_page_tokens(&vec![3_000], 2);
    assert!(next.is_none());
    assert!(prev.is_some());
    assert_eq!(r.get_notification_count(&vec![]), 0);
    assert_eq!(r.get_notification_count(&vec![4, 9]), 4);
}

#[test]
fn notifications_by_type() {
    let r = NotificationRepository::new(());
    assert_eq!(r.get_priority_for_type(&NotificationType::Invite), NotificationPriority::High);
    assert_eq!(r.get_priority_for_type(&NotificationType::Reaction), NotificationPriority::Low);
    let n = r.create_notification("@u:x", "$e", "!r:x", NotificationType::Mention, "{}".to_string(), 42);
    assert_eq!(n.notification_id.len(), 36);
    assert_eq!(n.created_at, 42);
    assert!(!n.read);
    assert_eq!(n.priority, NotificationPriority::High);
}

fn entry(id: &str) -> PublicRoomEntry {
    PublicRoomEntry {
        room_id: id.to_string(),
        name: None,
        topic: None,
        canonical_alias: None,
        num_joined_members: 1,
        avatar_url: None,
        world_readable: false,
        guest_can_join: false,
        join_rule: "public".to_string(),
        room_type: None,
    }
}

#[test]
fn public_room_pages() {
    let r = PublicRoomsRepository::new(());
    assert_eq!(r.public_rooms_request(None, None), (10, 0));
    assert_eq!(r.public_rooms_request(Some(500), Some("20")), (100, 20));
    assert_eq!(r.public_rooms_request(Some(5), Some("not a number")), (5, 0));
    let page = r.public_rooms_page(vec![entry("!a"), entry("!b"), entry("!c")], 2, 4, 30);
    assert_eq!(page.chunk.len(), 2);
    assert_eq!(page.next_batch.as_deref(), Some("6"));
    assert_eq!(page.prev_batch.as_deref(), Some("2"));
    assert_eq!(page.total_room_count_estimate, Some(30));
    let last = r.public_rooms_page(vec![entry("!a")], 2, 0, 1);
    assert!(last.next_batch.is_none());
    assert!(last.prev_batch.is_none());
    assert_eq!(r.federation_limit(None), 100);
    assert_eq!(r.federation_limit(Some(9999)), 500);
    assert_eq!(r.search_limit(Some(3)), 3);
}

#[test]
fn pagination_tokens_round_trip() {
    let r = PublicRoomsRepository::new(());
    for offset in [0u32, 7, 100, u32::MAX] {
        let t = r.generate_pagination_token(offset);
        assert_eq!(r.parse_pagination_token(Some(&t)), Some(offset));
    }
    assert_eq!(r.parse_pagination_token(None), None);
}

#[test]
fn directory_visibility_and_search_fields() {
    let r = PublicRoomsRepository::new(());
    assert_eq!(r.get_room_directory_visibility(Some("public")), Some(RoomDirectoryVisibility::Public));
    assert_eq!(RoomDirectoryVisibility::Private.as_str(), "private");
    let (name, topic) = r.search_index_fields("Matrix HQ", "ÜBER Rust");
    assert_eq!(name, "matrix hq");
    assert_eq!(topic, "über rust");
    assert_eq!(r.public_rooms_count(Some(-3)), (-3i64) as u64);
    assert_eq!(r.public_rooms_count(Some(12)), 12);
}

#[test]
fn alias_format_and_creation() {
    let r = RoomAliasRepository::new(());
    assert!(r.validate_alias_format("#room:example.com"));
    assert!(r.validate_alias_format("#räum-1:example.com"));
    assert!(!r.validate_alias_format("room:example.com"));
    assert!(!r.validate_alias_format("#:example.com"));
    assert!(!r.validate_alias_format("#a:b:c"));
    assert!(!r.validate_alias_format("#a b:example.com"));
    assert!(r.can_create_alias("#room:example.com", "@u:example.com"));
    assert!(!r.can_create_alias("#room:other.org", "@u:example.com"));
    match r.create_alias("bad", "!r:x", "@u:x", false, 0).unwrap_err() {
        RepositoryError::Validation { field, message } => {
            assert_eq!(field, "alias");
            assert_eq!(message, "Invalid alias format: bad");
        },
        other => panic!("unexpected {:?}", other),
    }
    match r.create_alias("#a:x", "!r:x", "@u:x", true, 0).unwrap_err() {
        RepositoryError::Conflict { message } => assert_eq!(message, "Room alias '#a:x' already exists"),
        other => panic!("unexpected {:?}", other),
    }
    match r.create_alias("#a:x", "!r:x", "@u:y", false, 0).unwrap_err() {
        RepositoryError::Unauthorized { reason } => assert_eq!(reason, "User @u:y not authorized to create alias #a:x"),
        other => panic!("unexpected {:?}", other),
    }
    let info = r.create_alias("#a:x", "!r:x", "@u:x", false, 9).unwrap();
    assert_eq!(info.alias, "#a:x");
    assert_eq!(info.room_id, "!r:x");
    assert_eq!(info.created_at, 9);
    assert_eq!(r.alias_cache_key("#a:x"), "alias_resolution:#a:x");
}

#[test]
fn canonical_and_alternative_aliases() {
    let r = RoomAliasRepository::new(());
    assert!(r.set_canonical_alias("!r:x", None, false, None).is_ok());
    assert!(matches!(r.set_canonical_alias("!r:x", Some("#a:x"), false, None), Err(RepositoryError::NotFound { .. })));
    assert!(matches!(
        r.set_canonical_alias("!r:x", Some("#a:x"), true, Some("!other:x")),
        Err(RepositoryError::Validation { .. })
    ));
    assert!(r.set_canonical_alias("!r:x", Some("#a:x"), true, Some("!r:x")).is_ok());
    let alts = strings(&["#a:x", "#b:x"]);
    assert!(r.set_alternative_aliases("!r:x", &alts, &vec![(true, Some("!r:x".to_string())), (true, Some("!r:x".to_string()))]).is_ok());
    assert!(r.set_alternative_aliases("!r:x", &alts, &vec![(true, Some("!r:x".to_string())), (false, None)]).is_err());
    assert!(r.delete_alias("#a:x", true).is_ok());
    assert!(matches!(r.delete_alias("#a:x", false), Err(RepositoryError::NotFound { .. })));
}

fn token_error(token: &str) -> String {
    let r = NotificationRepository::new(());
    match r.parse_notification_token(token).unwrap_err() {
        RepositoryError::ValidationError { field, message } => {
            assert_eq!(field, "notification_token");
            message
        },
        other => panic!("unexpected {:?}", other),
    }
}

#[test]
fn notification_token_errors_name_their_cause() {
    assert_eq!(token_error("YWJj"), "Invalid timestamp in token: invalid digit found in string");
    assert!(token_error("/w==").starts_with("Invalid token encoding: "));
    assert_eq!(token_error("OTk5OTk5OTk5OTk5OQ=="), "Invalid timestamp value");
    assert!(token_error("***").starts_with("Invalid token format: "));
}

#[test]
fn default_notification_settings() {
    let r = NotificationRepository::new(());
    let s = r.get_notification_settings("@u:x", 77);
    assert_eq!(s.user_id, "@u:x");
    assert!(s.enabled && s.sound_enabled && s.badge_enabled);
    assert!(s.room_notifications.is_empty());
    assert_eq!(s.updated_at, 77);
}
