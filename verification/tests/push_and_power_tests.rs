use matryx_repository::authorization::{
    knock_rules_decision, membership_from_content, AccessStep, AuthorizationResult, JoinStep, MemberEventFields,
    RoomAuthorizationService,
};
use matryx_repository::error::RepositoryError;
use matryx_repository::membership::{MembershipRepository, MembershipState};
use matryx_repository::power_levels::{PowerLevelAction, PowerLevels, PowerLevelsRepository, RoomPowerLevels};
use matryx_repository::push::{ContentField, PushAction, PushCondition, PushEvent, PushRepository, PushRule, RoomContext};
use matryx_repository::push_gateway::{PushGatewayRepository, Pusher};
use matryx_repository::push_notification::{NotificationContent, NotificationStatus, PushNotification, PushNotificationRepository};
use matryx_repository::push_service::{notification_id, push_recipients, PushReceipt, PushService, PushSettings};
use matryx_repository::room::{JoinRules, RoomRepository};
use matryx_repository::room_alias::RoomAliasRepository;
use std::sync::Arc;

fn event(event_type: &str, body: Option<&str>) -> PushEvent {
    PushEvent {
        event_id: "$e".to_string(),
        event_type: event_type.to_string(),
        sender: "@sender:x".to_string(),
        state_key: None,
        body: match body {
            Some(b) => ContentField::Text(b.to_string()),
            None => ContentField::Absent,
        },
        msgtype: ContentField::Text("m.text".to_string()),
        url: None,
        mention_user_ids: Some(vec![Some("@alice:x".to_string()), None]),
        mention_room: Some("true".to_string()),
    }
}

fn context(count: u64, name: Option<&str>) -> RoomContext {
    RoomContext {
        room_id: "!r:x".to_string(),
        member_count: count,
        user_display_name: name.map(|s| s.to_string()),
        power_levels: vec![("@sender:x".to_string(), 50)],
    }
}

fn rule(id: &str, enabled: bool, conditions: Vec<PushCondition>, actions: Vec<PushAction>) -> PushRule {
    PushRule { rule_id: id.to_string(), priority_class: 1, priority: 0, conditions, actions, default: false, enabled }
}

#[test]
fn push_conditions() {
    let p = PushRepository::new(());
    let ev = event("m.room.message", Some("hello Alice"));
    let ctx = context(2, Some("Alice"));
    assert!(p.evaluate_room_member_count("==2", &ctx));
    assert!(p.evaluate_room_member_count(">1", &ctx));
    assert!(!p.evaluate_room_member_count("<2", &ctx));
    assert!(!p.evaluate_room_member_count(">=1", &ctx));
    assert!(p.evaluate_condition(&PushCondition::ContainsDisplayName, &ev, &ctx));
    assert!(p.evaluate_condition(&PushCondition::EventMatch { key: "type".to_string(), pattern: "room.mess".to_string() }, &ev, &ctx));
    assert!(!p.evaluate_condition(&PushCondition::EventMatch { key: "sender".to_string(), pattern: "@".to_string() }, &ev, &ctx));
    assert!(p.evaluate_condition(&PushCondition::SenderNotificationPermission { key: "room".to_string() }, &ev, &ctx));
    assert!(p.evaluate_condition(
        &PushCondition::EventPropertyContains { key: "content.m\\.mentions.user_ids".to_string(), value: "alice".to_string() },
        &ev,
        &ctx
    ));
    assert!(p.evaluate_condition(
        &PushCondition::EventPropertyIs { key: "content.m\\.mentions.room".to_string(), value: "true".to_string() },
        &ev,
        &ctx
    ));
    assert!(p.evaluate_conditions(&vec![], &ev, &ctx));
}

#[test]
fn first_enabled_matching_rule_decides() {
    let p = PushRepository::new(());
    let ev = event("m.room.message", Some("hi"));
    let ctx = context(3, None);
    let rules = vec![
        rule("disabled", false, vec![], vec![PushAction::DontNotify]),
        rule("no-match", true, vec![PushCondition::RoomMemberCount { is: "==2".to_string() }], vec![PushAction::Notify]),
        rule("quiet", true, vec![], vec![PushAction::DontNotify]),
        rule("loud", true, vec![], vec![PushAction::Notify]),
    ];
    let e = p.evaluate_rules(&rules, &ev, &ctx);
    assert_eq!(e.matched_rule.as_deref(), Some("quiet"));
    assert!(!e.should_notify);
    let none = p.evaluate_rules(&vec![rule("off", false, vec![], vec![])], &ev, &ctx);
    assert!(none.should_notify);
    assert!(none.matched_rule.is_none());
    assert!(matches!(none.actions.as_slice(), [PushAction::Notify]));
}

#[test]
fn default_rules_notify_on_display_name_and_messages() {
    let p = PushRepository::new(());
    let defaults = p.get_default_push_rules();
    let ids: Vec<&str> = defaults.iter().map(|r| r.rule_id.as_str()).collect();
    assert_eq!(ids, vec![".m.rule.master", ".m.rule.contains_display_name", ".m.rule.message", ".m.rule.member_event"]);
    assert!(!defaults[0].enabled);
    let e = p.evaluate_push_rules(&vec![], &event("m.room.message", Some("hey Bob")), &context(5, Some("Bob")));
    assert_eq!(e.matched_rule.as_deref(), Some(".m.rule.contains_display_name"));
    assert!(e.should_notify);
    assert_eq!(e.actions.len(), 3);
    let e = p.evaluate_push_rules(&vec![], &event("m.room.message", Some("hey")), &context(5, Some("Bob")));
    assert_eq!(e.matched_rule.as_deref(), Some(".m.rule.message"));
    let e = p.evaluate_push_rules(&vec![], &event("m.room.topic", None), &context(5, None));
    assert_eq!(e.matched_rule, None);
    assert!(e.should_notify);
}

fn pusher(key: &str) -> Pusher {
    Pusher {
        pusher_key: key.to_string(),
        kind: "http".to_string(),
        app_id: "app".to_string(),
        app_display_name: "App".to_string(),
        device_display_name: "Phone".to_string(),
        profile_tag: None,
        lang: "en".to_string(),
        data: "{}".to_string(),
    }
}

#[test]
fn push_for_user_respects_settings_and_rules() {
    let s = PushService::new(());
    let settings = s.get_user_push_settings("@bob:x");
    assert!(settings.enabled && !settings.global_mute);
    assert_eq!(settings.default_sound.as_deref(), Some("default"));
    let ev = event("m.room.message", Some("hello Bob"));
    let ctx = context(2, Some("Bob"));
    let n = s
        .evaluate_push_for_user("@bob:x", &ev, &ctx, &settings, &vec![], &vec![pusher("pk1")], None, Some("Room".to_string()), 3, 10, 10_500)
        .unwrap();
    assert_eq!(n.user_id, "@bob:x");
    assert_eq!(n.pusher_key, "pk1");
    assert_eq!(n.notification_id, "$e:@bob:x:10");
    assert_eq!(n.created_at, 10_500);
    assert_eq!(n.status, NotificationStatus::Pending);
    assert_eq!(n.content.body.as_deref(), Some("hello Bob"));
    assert_eq!(n.content.unread_count, 3);
    assert_eq!(n.content.priority, "high");
    let tweaks = n.content.tweaks.unwrap();
    assert!(tweaks.contains(&("sound".to_string(), "\"default\"".to_string())) || tweaks.iter().any(|(k, _)| k == "sound"));
    let muted = PushSettings { global_mute: true, ..PushSettings::defaults() };
    assert!(s.evaluate_push_for_user("@bob:x", &ev, &ctx, &muted, &vec![], &vec![pusher("pk1")], None, None, 0, 0, 0).is_none());
    let quiet = vec![rule("quiet", true, vec![], vec![PushAction::DontNotify])];
    assert!(s.evaluate_push_for_user("@bob:x", &ev, &ctx, &settings, &quiet, &vec![pusher("pk1")], None, None, 0, 0, 0).is_none());
    assert!(s.evaluate_push_for_user("@bob:x", &ev, &ctx, &settings, &vec![], &vec![], None, None, 0, 0, 0).is_none());
}

#[test]
fn recipients_and_ids() {
    let members = vec!["@a:x".to_string(), "@b:x".to_string(), "@a:x".to_string()];
    assert_eq!(push_recipients(&members, "@a:x"), vec!["@b:x".to_string()]);
    assert_eq!(notification_id("$e", "@u:x", -1), "$e:@u:x:-1");
}

fn notification() -> PushNotification {
    PushNotification {
        notification_id: "n1".to_string(),
        user_id: "@u:x".to_string(),
        event_id: "$e".to_string(),
        room_id: "!r:x".to_string(),
        pusher_key: "pk".to_string(),
        content: NotificationContent {
            event_type: "m.room.message".to_string(),
            sender: "@s:x".to_string(),
            sender_display_name: None,
            room_name: None,
            body: None,
            image_url: None,
            unread_count: 0,
            priority: "high".to_string(),
            tweaks: None,
        },
        created_at: 0,
        status: NotificationStatus::Pending,
    }
}

#[test]
fn push_notification_lifecycle() {
    let r = PushNotificationRepository::new(());
    let rec = r.create_notification(notification());
    assert_eq!(rec.id, "push_notification:n1");
    assert_eq!(rec.attempts, 0);
    let sent = r.update_notification_status("n1", Some(rec), NotificationStatus::Sent, 5).unwrap();
    assert_eq!(sent.notification_data.status, NotificationStatus::Sent);
    assert_eq!(sent.attempts, 1);
    assert_eq!(sent.last_attempt, Some(5));
    let failed = r.mark_notification_failed("n1", Some(sent), "timeout", 6).unwrap();
    assert_eq!(failed.notification_data.status, NotificationStatus::Failed);
    assert_eq!(failed.error_message.as_deref(), Some("timeout"));
    assert_eq!(r.get_notification_attempts(Some(&failed)), 2);
    let delivered = r.mark_notification_delivered("n1", Some(failed), 9).unwrap();
    assert_eq!(delivered.delivered_at, Some(9));
    assert!(r.update_notification_status("n2", None, NotificationStatus::Sent, 0).is_err());
    assert_eq!(r.get_notification_attempts(None), 0);
    assert_eq!(
        r.statistics_query(Some("@u:x"), Some(NotificationStatus::Delivered)),
        "SELECT count() AS delivered FROM push_notification WHERE notification_data.user_id = '@u:x' AND notification_data.status = 'Delivered'"
    );
    assert_eq!(r.statistics_query(None, None), "SELECT count() AS total FROM push_notification");
}

#[test]
fn push_receipts_update_the_notification() {
    let s = PushService::new(());
    let r = PushNotificationRepository::new(());
    let rec = r.create_notification(notification());
    let ok = PushReceipt { notification_id: "n1".to_string(), delivered: true, timestamp: 7, error_message: None };
    let out = s.handle_push_receipt("n1", &ok, Some(rec), 8).unwrap();
    assert_eq!(out.notification_data.status, NotificationStatus::Delivered);
    assert!(s.handle_push_receipt("n1", &ok, None, 8).is_err());
    assert_eq!(s.cleanup_cutoff(100 * 86_400_000), 70 * 86_400_000);
}

#[test]
fn pusher_records() {
    let g = PushGatewayRepository::new(());
    let rec = g.register_pusher("@u:x", &pusher("pk"), 3);
    assert_eq!(rec.id, "pusher:@u:x:pk");
    assert_eq!(rec.failure_count, 0);
    let upd = g.update_pusher("@u:x", "pk", &pusher("pk"), Some((1, 4)), 9);
    assert_eq!(upd.created_at, 1);
    assert_eq!(upd.failure_count, 4);
    let a = g.record_push_attempt("pk", "n1", false, 5);
    assert_eq!(a.id, "push_attempt:pk:n1");
    assert_eq!(a.error_message.as_deref(), Some("Push delivery failed"));
    assert_eq!(a.response_code, Some(500));
    assert_eq!(g.failed_attempts(10, 7), 3);
    assert_eq!(g.pusher_record_key("@u:x", "pk"), "@u:x:pk");
}

#[test]
fn power_level_updates() {
    let repo = PowerLevelsRepository::new(());
    let current = PowerLevels::from_content(
        vec![("@admin:x".to_string(), 100), ("@mod:x".to_string(), 50)],
        None, vec![], None, None, None, None, None, None,
    );
    let same = PowerLevels::from_content(
        vec![("@admin:x".to_string(), 100), ("@mod:x".to_string(), 50)],
        None, vec![], None, None, None, None, None, None,
    );
    assert!(repo.validate_power_levels_update(&current, "@admin:x", &same).is_ok());
    match repo.validate_power_levels_update(&current, "@mod:x", &same).unwrap_err() {
        RepositoryError::Forbidden { reason } => assert_eq!(reason, "Insufficient power level to change power levels: 50 < 100"),
        other => panic!("unexpected {:?}", other),
    }
    let raised = PowerLevels::from_content(vec![("@admin:x".to_string(), 101)], None, vec![], None, None, None, None, None, None);
    assert!(repo.validate_power_levels_update(&current, "@admin:x", &raised).is_err());
    assert_eq!(repo.get_user_power_level(&current, "@nobody:x"), 0);
    assert!(repo.can_user_perform_action(&current, "@mod:x", PowerLevelAction::Kick));
    assert!(!repo.can_user_perform_action(&current, "@mod:x", PowerLevelAction::ChangePowerLevels));
    assert!(repo.validate_power_level_change(&current, "@admin:x", "@mod:x", 99));
    assert!(!repo.validate_power_level_change(&current, "@admin:x", "@mod:x", 100));
}

fn service() -> RoomAuthorizationService<()> {
    RoomAuthorizationService::new(
        Arc::new(RoomRepository::new(())),
        Arc::new(MembershipRepository::new(())),
        Arc::new(RoomAliasRepository::new(())),
        (),
    )
}

fn refusal(a: &AuthorizationResult) -> Option<&str> {
    if a.authorized { None } else { a.reason.as_deref() }
}

#[test]
fn authorization_steps() {
    let s = service();
    match s.check_room_access(false, true, "read") {
        AccessStep::Decided(a) => assert_eq!(refusal(&a), Some("Room not found")),
        _ => panic!("expected a decision"),
    }
    assert!(matches!(s.check_room_access(true, true, "send"), AccessStep::CheckPowerLevel));
    match s.validate_join_request(true, Some(MembershipState::Ban)) {
        JoinStep::Decided(a) => assert_eq!(refusal(&a), Some("User is banned from the room")),
        _ => panic!("expected a decision"),
    }
    match s.validate_join_request(true, Some(MembershipState::Invite)) {
        JoinStep::Decided(a) => assert!(a.authorized),
        _ => panic!("expected a decision"),
    }
    assert!(knock_rules_decision(JoinRules::Knock).authorized);
    assert_eq!(refusal(&knock_rules_decision(JoinRules::Public)), Some("Room does not allow knocking"));
    assert!(s.is_room_admin(100) && !s.is_room_admin(99));
    assert!(s.is_room_moderator(50));
    let pl = RoomPowerLevels::defaults();
    assert_eq!(s.get_effective_power_level(&pl, "ban"), 50);
    assert!(matches!(membership_from_content(None), Err(RepositoryError::Validation { .. })));
    assert_eq!(membership_from_content(Some("knock")).unwrap(), MembershipState::Knock);
}

#[test]
fn membership_context_of_an_event() {
    let s = service();
    let fields = |state_key: Option<&str>, membership: Option<&str>| MemberEventFields {
        room_id: "!r:x".to_string(),
        event_id: "$e".to_string(),
        sender: "@a:x".to_string(),
        state_key: state_key.map(|s| s.to_string()),
        origin_server_ts: 5,
        membership: membership.map(|s| s.to_string()),
        reason: None,
        invited_by: None,
        display_name: None,
        avatar_url: None,
        is_direct: None,
        third_party_invite: None,
        join_authorised_via_users_server: None,
        auth_events: None,
        prev_events: Some(vec!["$p".to_string()]),
    };
    let c = s.extract_membership_context(fields(Some("@b:x"), Some("invite"))).unwrap();
    assert_eq!(c.user_id, "@b:x");
    assert_eq!(c.membership, MembershipState::Invite);
    assert!(c.auth_events.is_empty());
    assert_eq!(c.prev_events, vec!["$p".to_string()]);
    match s.extract_membership_context(fields(Some("@b:x"), Some("kick"))).unwrap_err() {
        RepositoryError::Validation { field, message } => {
            assert_eq!(field, "membership");
            assert_eq!(message, "Invalid membership state: kick");
        },
        other => panic!("unexpected {:?}", other),
    }
    assert!(matches!(s.extract_membership_context(fields(None, Some("join"))), Err(RepositoryError::Validation { .. })));
}

#[test]
fn muting_a_room_stops_its_pushes() {
    let s = PushService::new(());
    let settings = s.get_user_push_settings("@bob:x");
    let muted = s.mute_room_notifications(settings, "!r:x", true);
    assert!(!muted.allows_push_in("!r:x"));
    assert!(muted.allows_push_in("!other:x"));
    assert_eq!(muted.room_overrides.len(), 1);
    let ev = event("m.room.message", Some("hello Bob"));
    let ctx = context(2, Some("Bob"));
    assert!(s.evaluate_push_for_user("@bob:x", &ev, &ctx, &muted, &vec![], &vec![pusher("pk1")], None, None, 0, 0, 0).is_none());
    let unmuted = s.mute_room_notifications(muted, "!r:x", false);
    assert!(unmuted.allows_push_in("!r:x"));
    assert_eq!(unmuted.room_overrides.len(), 1);
    assert!(!unmuted.room_overrides[0].1.muted);
}

#[test]
fn power_level_update_names_a_new_event() {
    let repo = PowerLevelsRepository::new(());
    let current = PowerLevels::from_content(vec![("@admin:x".to_string(), 100)], None, vec![], None, None, None, None, None, None);
    let new = PowerLevels::from_content(
        vec![("@admin:x".to_string(), 100), ("@mod:x".to_string(), 50)],
        None, vec![], None, None, None, None, None, None,
    );
    let ev = repo.update_power_levels("!room:x", &current, "@admin:x", &new, 1234).unwrap();
    assert!(ev.event_id.starts_with('$'));
    assert_eq!(ev.event_id.len(), 37);
    assert_eq!(ev.room_id, "!room:x");
    assert_eq!(ev.sender, "@admin:x");
    assert_eq!(ev.event_type, "m.room.power_levels");
    assert_eq!(ev.state_key.as_deref(), Some(""));
    assert_eq!(ev.content.users, vec![("@admin:x".to_string(), 100), ("@mod:x".to_string(), 50)]);
    assert_eq!(ev.content.users_default, new.users_default);
    assert_eq!(ev.content.ban, new.ban);
    assert_eq!(ev.origin_server_ts, 1234);
    assert_eq!(ev.received_ts, Some(1234));
    assert_eq!(ev.outlier, Some(false));
    assert_eq!(ev.soft_failed, Some(false));
    match repo.update_power_levels("!room:x", &current, "@nobody:x", &new, 0).unwrap_err() {
        RepositoryError::Forbidden { reason } => assert_eq!(reason, "Insufficient power level to change power levels: 0 < 100"),
        other => panic!("unexpected {:?}", other),
    }
    let events = PowerLevels::from_content(vec![], None, vec![("m.room.name".to_string(), 101)], None, None, None, None, None, None);
    match repo.update_power_levels("!room:x", &current, "@admin:x", &events, 0).unwrap_err() {
        RepositoryError::Forbidden { reason } => assert_eq!(reason, "Cannot set power level for m.room.name above your own level"),
        other => panic!("unexpected {:?}", other),
    }
}

#[test]
fn notification_counts_default_to_zero() {
    let r = PushNotificationRepository::new(());
    let c = r.get_notification_statistics(Some(10), None, Some(3), Some(6), Some(1));
    assert_eq!(c.total_notifications, 10);
    assert_eq!(c.pending_notifications, 0);
    assert_eq!(c.delivered_notifications, 6);
}
