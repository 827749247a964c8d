use matryx_repository::error::RepositoryError;
use matryx_repository::membership::{Membership, MembershipRepository, MembershipState, WriteMode};
use matryx_repository::membership_ops::{
    FederationMember, FederationMemberRow, HistoryRow, MembershipAction, MembershipEventRow,
};

fn repo() -> MembershipRepository<()> {
    MembershipRepository::new(())
}

fn record(state: MembershipState) -> Membership {
    Membership {
        user_id: "@bob:example.com".to_string(),
        room_id: "!room:example.com".to_string(),
        membership: state,
        reason: None,
        invited_by: None,
        display_name: Some("Bob".to_string()),
        avatar_url: None,
        is_direct: None,
        third_party_invite: None,
        join_authorised_via_users_server: None,
    }
}

fn conflict_message(e: RepositoryError) -> String {
    match e {
        RepositoryError::Conflict { message } => message,
        other => panic!("expected a conflict, got {:?}", other),
    }
}

fn validation_of(e: RepositoryError) -> (String, String) {
    match e {
        RepositoryError::Validation { field, message } => (field, message),
        other => panic!("expected a validation error, got {:?}", other),
    }
}

fn not_found_of(e: RepositoryError) -> (String, String) {
    match e {
        RepositoryError::NotFound { entity_type, id } => (entity_type, id),
        other => panic!("expected not found, got {:?}", other),
    }
}

fn unauthorized_reason(e: RepositoryError) -> String {
    match e {
        RepositoryError::Unauthorized { reason } => reason,
        other => panic!("expected unauthorized, got {:?}", other),
    }
}

#[test]
fn membership_names_read_back() {
    for s in [
        MembershipState::Join,
        MembershipState::Leave,
        MembershipState::Invite,
        MembershipState::Ban,
        MembershipState::Knock,
    ] {
        assert_eq!(MembershipState::from_name(s.as_str()), Some(s));
    }
    assert_eq!(MembershipState::from_name("kick"), None);
    assert_eq!(MembershipState::from_name_or_leave("kick"), MembershipState::Leave);
}

#[test]
fn transitions_follow_the_membership_graph() {
    let r = repo();
    let u = "@bob:example.com";
    let other = "@alice:example.com";
    assert!(r.validate_membership_transition(MembershipState::Leave, MembershipState::Join, u, u, false));
    assert!(r.validate_membership_transition(MembershipState::Invite, MembershipState::Join, u, u, false));
    assert!(!r.validate_membership_transition(MembershipState::Invite, MembershipState::Join, u, other, true));
    assert!(r.validate_membership_transition(MembershipState::Invite, MembershipState::Leave, u, other, true));
    assert!(!r.validate_membership_transition(MembershipState::Invite, MembershipState::Leave, u, other, false));
    assert!(r.validate_membership_transition(MembershipState::Ban, MembershipState::Leave, u, other, false));
    assert!(!r.validate_membership_transition(MembershipState::Ban, MembershipState::Join, u, u, true));
    assert!(!r.validate_membership_transition(MembershipState::Join, MembershipState::Invite, u, other, true));
    assert!(r.validate_membership_transition(MembershipState::Join, MembershipState::Join, u, u, false));
}

#[test]
fn membership_rules_refuse_self_invite_and_joins_for_others() {
    let r = repo();
    let a = "@alice:example.com";
    let b = "@bob:example.com";
    assert!(!r.apply_membership_rules(a, a, MembershipState::Invite, None, true));
    assert!(!r.apply_membership_rules(a, a, MembershipState::Ban, None, true));
    assert!(!r.apply_membership_rules(a, b, MembershipState::Join, None, true));
    assert!(!r.apply_membership_rules(a, b, MembershipState::Knock, None, true));
    assert!(r.apply_membership_rules(a, b, MembershipState::Invite, None, true));
    assert!(!r.apply_membership_rules(a, b, MembershipState::Invite, None, false));
    assert!(r.apply_membership_rules(b, b, MembershipState::Join, Some(MembershipState::Invite), false));
    assert!(!r.apply_membership_rules(b, b, MembershipState::Join, Some(MembershipState::Leave), false));
}

#[test]
fn membership_change_needs_sender_in_room() {
    let r = repo();
    assert!(!r.validate_membership_change(false, None, MembershipState::Join));
    assert!(r.validate_membership_change(true, Some(MembershipState::Join), MembershipState::Ban));
    assert!(!r.validate_membership_change(true, Some(MembershipState::Ban), MembershipState::Ban));
    assert!(!r.validate_membership_change(true, Some(MembershipState::Invite), MembershipState::Invite));
    assert!(r.validate_membership_change(true, Some(MembershipState::Invite), MembershipState::Leave));
}

#[test]
fn invite_refusals_and_record() {
    let r = repo();
    let room = "!room:example.com";
    let joined = record(MembershipState::Join);
    let e = r.invite_user_to_room(Some(&joined), true, room, "@bob:example.com", "@alice:example.com", None).unwrap_err();
    assert_eq!(conflict_message(e), "User is already joined to the room");
    let banned = record(MembershipState::Ban);
    let e = r.invite_user_to_room(Some(&banned), true, room, "@bob:example.com", "@alice:example.com", None).unwrap_err();
    assert_eq!(validation_of(e), ("membership".to_string(), "Cannot invite banned user".to_string()));
    let e = r.invite_user_to_room(None, false, room, "@bob:example.com", "@alice:example.com", None).unwrap_err();
    assert_eq!(unauthorized_reason(e), "User @alice:example.com not authorized to invite users to room !room:example.com");
    let w = r
        .invite_user_to_room(None, true, room, "@bob:example.com", "@alice:example.com", Some("welcome".to_string()))
        .unwrap();
    assert_eq!(w.mode, WriteMode::Create);
    assert_eq!(w.record.membership, MembershipState::Invite);
    assert_eq!(w.record.invited_by.as_deref(), Some("@alice:example.com"));
    assert_eq!(w.record.reason.as_deref(), Some("welcome"));
}

#[test]
fn ban_leave_and_forget() {
    let r = repo();
    let room = "!room:example.com";
    let banned = record(MembershipState::Ban);
    let e = r.ban_user_from_room(Some(&banned), true, room, "@bob:example.com", "@mod:example.com", None).unwrap_err();
    assert_eq!(conflict_message(e), "User is already banned from the room");
    let joined = record(MembershipState::Join);
    let w = r.ban_user_from_room(Some(&joined), true, room, "@bob:example.com", "@mod:example.com", None).unwrap();
    assert_eq!(w.mode, WriteMode::Update);
    assert_eq!(w.record.membership, MembershipState::Ban);

    let e = r.leave_room(None, room, "@bob:example.com", None).unwrap_err();
    assert_eq!(not_found_of(e), ("Membership".to_string(), "!room:example.com:@bob:example.com".to_string()));
    let left = record(MembershipState::Leave);
    let e = r.leave_room(Some(&left), room, "@bob:example.com", None).unwrap_err();
    assert_eq!(conflict_message(e), "User has already left the room");
    let e = r.leave_room(Some(&banned), room, "@bob:example.com", None).unwrap_err();
    assert_eq!(validation_of(e).1, "Cannot leave room while banned");
    let w = r.leave_room(Some(&joined), room, "@bob:example.com", None).unwrap();
    assert_eq!(w.record.membership, MembershipState::Leave);
    assert_eq!(w.record.display_name.as_deref(), Some("Bob"));

    assert!(r.forget_room_membership(Some(MembershipState::Leave), room, "@bob:example.com").is_ok());
    assert!(r.forget_room_membership(Some(MembershipState::Ban), room, "@bob:example.com").is_ok());
    let e = r.forget_room_membership(Some(MembershipState::Join), room, "@bob:example.com").unwrap_err();
    assert_eq!(validation_of(e).1, "Cannot forget room while still a member. Leave the room first.");
}

#[test]
fn knocks_accepted_and_rejected() {
    let r = repo();
    let room = "!room:example.com";
    let knocked = record(MembershipState::Knock);
    let w = r.accept_knock(Some(&knocked), true, room, "@bob:example.com", "@mod:example.com").unwrap();
    assert_eq!(w.record.membership, MembershipState::Invite);
    assert_eq!(w.record.reason.as_deref(), Some("Knock accepted"));
    let joined = record(MembershipState::Join);
    let e = r.accept_knock(Some(&joined), true, room, "@bob:example.com", "@mod:example.com").unwrap_err();
    assert_eq!(validation_of(e).1, "User has not knocked on this room");
    let e = r.reject_knock(Some(&knocked), false, room, "@bob:example.com", "@mod:example.com", None).unwrap_err();
    assert_eq!(unauthorized_reason(e), "User @mod:example.com not authorized to reject knocks in room !room:example.com");
    let w = r.reject_knock(Some(&knocked), true, room, "@bob:example.com", "@mod:example.com", None).unwrap();
    assert_eq!(w.record.membership, MembershipState::Leave);
}

#[test]
fn federation_changes_check_the_origin() {
    let r = repo();
    let room = "!room:example.com";
    let w = r.process_federation_join(room, "@bob:remote.org", "remote.org").unwrap();
    assert_eq!(w.record.membership, MembershipState::Join);
    assert_eq!(w.record.join_authorised_via_users_server.as_deref(), Some("remote.org"));
    let e = r.process_federation_join(room, "@bob:remote.org", "evil.org").unwrap_err();
    assert_eq!(validation_of(e), ("origin".to_string(), "User server does not match origin".to_string()));
    let e = r.process_federation_leave(room, "bob", "remote.org").unwrap_err();
    assert_eq!(validation_of(e), ("user_id".to_string(), "Invalid user ID format".to_string()));
    let w = r.process_federation_invite(room, "@bob:example.com", "@alice:remote.org", "remote.org").unwrap();
    assert_eq!(w.mode, WriteMode::Create);
    assert_eq!(w.record.invited_by.as_deref(), Some("@alice:remote.org"));
    let e = r.process_federation_invite(room, "@bob:example.com", "@alice:remote.org", "other.org").unwrap_err();
    assert_eq!(validation_of(e).1, "Inviter server does not match origin");
    let w = r.process_federation_knock(room, "@bob:remote.org", "remote.org").unwrap();
    assert_eq!(w.record.membership, MembershipState::Knock);
}

#[test]
fn federation_membership_change_rules() {
    let r = repo();
    assert_eq!(r.validate_federation_membership_change("m.room.message", None, "@a:x", None).unwrap(), false);
    let e = r.validate_federation_membership_change("m.room.member", None, "@a:x", Some("join")).unwrap_err();
    assert_eq!(validation_of(e).1, "Missing state key for membership event");
    assert!(r.validate_federation_membership_change("m.room.member", Some("@a:x"), "@a:x", Some("join")).unwrap());
    assert!(!r.validate_federation_membership_change("m.room.member", Some("@b:x"), "@a:x", Some("join")).unwrap());
    assert!(r.validate_federation_membership_change("m.room.member", Some("@b:x"), "@a:x", Some("ban")).unwrap());
    assert!(!r.validate_federation_membership_change("m.room.member", Some("@b:x"), "@a:x", Some("kick")).unwrap());
    assert!(r.validate_federation_membership_content(Some("knock")));
    assert!(!r.validate_federation_membership_content(Some("kick")));
    assert!(!r.validate_federation_membership_content(None));
}

#[test]
fn federation_members_and_counts() {
    let r = repo();
    let rows = vec![
        FederationMemberRow {
            user_id: Some("@a:one.org".to_string()),
            membership: Some("join".to_string()),
            display_name: None,
            avatar_url: None,
            reason: None,
            invited_by: None,
            updated_at: Some("2024-01-01T00:00:00Z".to_string()),
        },
        FederationMemberRow {
            user_id: None,
            membership: Some("join".to_string()),
            display_name: None,
            avatar_url: None,
            reason: None,
            invited_by: None,
            updated_at: None,
        },
        FederationMemberRow {
            user_id: Some("@b:two.org".to_string()),
            membership: Some("weird".to_string()),
            display_name: Some("B".to_string()),
            avatar_url: None,
            reason: None,
            invited_by: None,
            updated_at: Some("not a time".to_string()),
        },
    ];
    let members = r.get_room_members_for_federation(&rows, 42);
    assert_eq!(members.len(), 2);
    assert_eq!(members[0].user_id, "@a:one.org");
    assert_eq!(members[0].updated_at, 1704067200000);
    assert_eq!(members[1].membership, MembershipState::Leave);
    assert_eq!(members[1].updated_at, 42);

    let joined = |u: &str| FederationMember {
        user_id: u.to_string(),
        membership: MembershipState::Join,
        display_name: None,
        avatar_url: None,
        reason: None,
        invited_by: None,
        updated_at: 0,
    };
    let mut list = vec![joined("@a:one.org"), joined("@b:two.org"), joined("@c:one.org")];
    list.push(FederationMember { membership: MembershipState::Leave, ..joined("@d:two.org") });
    let counts = r.get_federation_member_count_by_server(&list);
    assert_eq!(counts, vec![("one.org".to_string(), 2), ("two.org".to_string(), 1)]);
}

#[test]
fn membership_auth_chain() {
    let r = repo();
    let chain = vec![Some("m.room.create".to_string()), Some("m.room.join_rules".to_string())];
    assert!(r.validate_membership_auth("m.room.member", Some("@a:x"), &chain, Some("join")).unwrap());
    assert!(!r.validate_membership_auth("m.room.member", Some("@a:x"), &chain, Some("ban")).unwrap());
    assert!(r.validate_membership_auth("m.room.member", Some("@a:x"), &chain, Some("leave")).unwrap());
    let e = r.validate_membership_auth("m.room.member", Some("nobody"), &chain, Some("join")).unwrap_err();
    assert_eq!(validation_of(e).1, "Invalid user ID format in state_key");
    let no_create = vec![Some("m.room.join_rules".to_string())];
    assert!(!r.validate_membership_auth("m.room.member", Some("@a:x"), &no_create, Some("join")).unwrap());
}

#[test]
fn moderation_needs_level_fifty_and_a_lower_target() {
    let r = repo();
    assert!(r.can_perform_action(MembershipAction::Kick, 50, Some(0)));
    assert!(!r.can_perform_action(MembershipAction::Kick, 49, Some(0)));
    assert!(!r.can_perform_action(MembershipAction::Ban, 50, Some(50)));
    assert!(r.can_perform_action(MembershipAction::Join, 0, None));
    assert!(r.is_user_in_room(Some(MembershipState::Join)));
    assert!(!r.is_user_in_room(Some(MembershipState::Invite)));
}

#[test]
fn conflict_checks_come_in_order() {
    let r = repo();
    let ids = vec![Some("$other".to_string())];
    assert_eq!(
        r.check_membership_conflict("@b:x", Some(MembershipState::Ban), &ids, MembershipState::Join, "@b:x", false),
        Some("Temporal conflict with event: $other".to_string())
    );
    assert_eq!(
        r.check_membership_conflict("@b:x", Some(MembershipState::Ban), &vec![], MembershipState::Join, "@b:x", false),
        Some("Invalid transition from Ban to Join".to_string())
    );
    assert_eq!(
        r.check_membership_conflict("@b:x", Some(MembershipState::Leave), &vec![None], MembershipState::Join, "@b:x", false),
        None
    );
    assert_eq!(r.check_membership_conflict("@b:x", None, &vec![], MembershipState::Ban, "@a:x", false), None);
}

#[test]
fn conflict_resolution_outcomes() {
    let r = repo();
    let e = r.resolve_membership_conflict("!r:x", "@b:x", &vec![], 0, None).unwrap_err();
    assert_eq!(validation_of(e), ("conflicting_events".to_string(), "No conflicting events provided".to_string()));
    let ids = vec!["$a".to_string(), "$b".to_string()];
    let e = r.resolve_membership_conflict("!r:x", "@b:x", &ids, 0, None).unwrap_err();
    assert_eq!(not_found_of(e), ("Conflicting events".to_string(), "$a, $b".to_string()));
    let e = r.resolve_membership_conflict("!r:x", "@b:x", &ids, 2, None).unwrap_err();
    assert_eq!(not_found_of(e), ("Resolved membership event".to_string(), "!r:x:@b:x".to_string()));
    assert_eq!(r.resolve_membership_conflict("!r:x", "@b:x", &ids, 1, Some(Some("ban".to_string()))).unwrap(), MembershipState::Ban);
    assert_eq!(r.resolve_membership_conflict("!r:x", "@b:x", &ids, 1, Some(Some("odd".to_string()))).unwrap(), MembershipState::Leave);
    assert_eq!(r.resolve_membership_conflict("!r:x", "@b:x", &ids, 1, Some(None)).unwrap(), MembershipState::Leave);
}

fn history_row(id: Option<&str>, membership: Option<&str>, ts: Option<i64>) -> HistoryRow {
    HistoryRow {
        event_id: id.map(|s| s.to_string()),
        sender: Some("@a:x".to_string()),
        has_content: true,
        membership: membership.map(|s| s.to_string()),
        reason: None,
        invited_by: None,
        display_name: Some("A".to_string()),
        avatar_url: None,
        is_direct: Some(true),
        third_party_invite: None,
        join_authorised_via_users_server: None,
        origin_server_ts: ts,
        auth_events: vec!["$auth".to_string()],
        prev_events: vec![],
    }
}

#[test]
fn history_keeps_complete_rows_in_order() {
    let r = repo();
    assert_eq!(r.history_limit_clause(Some(10)), "LIMIT 10");
    assert_eq!(r.history_limit_clause(Some(-3)), "LIMIT -3");
    assert_eq!(r.history_limit_clause(None), "");
    let rows = vec![
        history_row(Some("$2"), Some("join"), Some(20)),
        history_row(None, Some("join"), Some(15)),
        history_row(Some("$1"), None, Some(10)),
        history_row(Some("$0"), Some("invite"), None),
    ];
    let h = r.get_membership_history("!r:x", "@a:x", rows);
    assert_eq!(h.len(), 2);
    assert_eq!(h[0].event_id, "$2");
    assert_eq!(h[0].membership, MembershipState::Join);
    assert_eq!(h[0].auth_events, vec!["$auth".to_string()]);
    assert_eq!(h[1].event_id, "$1");
    assert_eq!(h[1].membership, MembershipState::Leave);
    assert_eq!(h[1].room_id, "!r:x");
    assert_eq!(h[1].is_direct, Some(true));
}

#[test]
fn history_events_read_out_of_range_times_as_now() {
    let r = repo();
    let row = |ts: i64| MembershipEventRow {
        event_id: "$e".to_string(),
        room_id: "!r:x".to_string(),
        user_id: "@a:x".to_string(),
        membership: Some("knock".to_string()),
        reason: None,
        sender: "@a:x".to_string(),
        origin_server_ts: ts,
    };
    let events = r.get_membership_history_events(vec![row(1000), row(i64::MAX)], 7);
    assert_eq!(events.len(), 2);
    assert_eq!(events[0].timestamp, 1000);
    assert_eq!(events[0].membership, MembershipState::Knock);
    assert_eq!(events[0].actor_id.as_deref(), Some("@a:x"));
    assert_eq!(events[1].timestamp, 7);
}

#[test]
fn conflicting_memberships_share_a_time() {
    let r = repo();
    let rows = vec![
        (Some("$a".to_string()), Some(5)),
        (Some("$b".to_string()), Some(6)),
        (Some("$c".to_string()), Some(5)),
        (None, Some(6)),
        (Some("$d".to_string()), None),
    ];
    assert_eq!(r.get_conflicting_memberships(&rows), vec!["$a".to_string(), "$c".to_string()]);
}

#[test]
fn membership_event_checks() {
    let r = repo();
    assert_eq!(r.validate_membership_event("m.room.message", None, None, None, "@a:x", false).unwrap(), false);
    let e = r.validate_membership_event("m.room.member", None, Some("join"), None, "@a:x", false).unwrap_err();
    assert_eq!(validation_of(e), ("state_key".to_string(), "Membership event must have state_key".to_string()));
    let e = r.validate_membership_event("m.room.member", Some("@a:x"), None, None, "@a:x", false).unwrap_err();
    assert_eq!(validation_of(e), ("membership".to_string(), "Membership event must have membership field".to_string()));
    assert_eq!(r.validate_membership_event("m.room.member", Some("@a:x"), Some("kick"), None, "@a:x", false).unwrap(), false);
    assert!(r.validate_membership_event("m.room.member", Some("@a:x"), Some("join"), None, "@a:x", false).unwrap());
    assert!(!r
        .validate_membership_event("m.room.member", Some("@a:x"), Some("join"), Some(MembershipState::Ban), "@a:x", false)
        .unwrap());
}

#[test]
fn users_by_state_and_cutoff() {
    let r = repo();
    let ids = vec![Some("@a:x".to_string()), None, Some("@b:x".to_string())];
    assert_eq!(r.get_users_by_membership_state(&ids), vec!["@a:x".to_string(), "@b:x".to_string()]);
    assert_eq!(r.membership_cutoff_at_event(&vec![]).unwrap(), None);
    let e = r.membership_cutoff_at_event(&vec![None]).unwrap_err();
    assert_eq!(validation_of(e), ("created_at".to_string(), "Event timestamp not found".to_string()));
    assert_eq!(r.membership_cutoff_at_event(&vec![Some("t".to_string())]).unwrap(), Some("t".to_string()));
}

#[test]
fn direct_membership_records() {
    let r = repo();
    let w = r.kick_user("!r:x", "@b:x", Some("spam".to_string()));
    assert_eq!(w.record.membership, MembershipState::Leave);
    assert_eq!(w.record.reason.as_deref(), Some("spam"));
    let w = r.invite_user("!r:x", "@b:x", "@a:x");
    assert_eq!(w.record.invited_by.as_deref(), Some("@a:x"));
    let w = r.unban_user("!r:x", "@b:x");
    assert_eq!(w.record.membership, MembershipState::Leave);
    let w = r.knock_on_room("!r:x", "@b:x", None);
    assert_eq!(w.record.membership, MembershipState::Knock);
}

#[test]
fn banned_user_cannot_be_invited_until_unbanned() {
    let r = repo();
    let room = "!room:example.com";
    let ban = r.ban_user_from_room(None, true, room, "@bob:example.com", "@mod:example.com", None).unwrap();
    let e = r.invite_user_to_room(Some(&ban.record), true, room, "@bob:example.com", "@alice:example.com", None).unwrap_err();
    assert_eq!(validation_of(e).1, "Cannot invite banned user");
    let unban = r.unban_user(room, "@bob:example.com");
    assert_eq!(unban.record.reason.as_deref(), Some("Unbanned"));
    let invite = r.invite_user_to_room(Some(&unban.record), true, room, "@bob:example.com", "@alice:example.com", None).unwrap();
    assert_eq!(invite.record.membership, MembershipState::Invite);
    assert!(r.validate_membership_transition(MembershipState::Invite, MembershipState::Join, "@bob:example.com", "@bob:example.com", false));
}

#[test]
fn leave_then_forget() {
    let r = repo();
    let room = "!room:example.com";
    let joined = record(MembershipState::Join);
    let left = r.leave_room(Some(&joined), room, "@bob:example.com", Some("bye".to_string())).unwrap();
    assert!(r.forget_room_membership(Some(left.record.membership), room, "@bob:example.com").is_ok());
    let e = r.leave_room(Some(&left.record), room, "@bob:example.com", None).unwrap_err();
    assert_eq!(conflict_message(e), "User has already left the room");
}

#[test]
fn knock_accept_join_flow() {
    let r = repo();
    let room = "!room:example.com";
    let knock = r.knock_on_room(room, "@bob:example.com", Some("let me in".to_string()));
    let accepted = r.accept_knock(Some(&knock.record), true, room, "@bob:example.com", "@mod:example.com").unwrap();
    assert_eq!(accepted.record.membership, MembershipState::Invite);
    assert!(r.apply_membership_rules("@bob:example.com", "@bob:example.com", MembershipState::Join, Some(accepted.record.membership), false));
}

#[test]
fn remote_servers_listed_once() {
    let r = repo();
    let ids = vec![
        "@a:one.org".to_string(),
        "@b:two.org:8448".to_string(),
        "@c:one.org".to_string(),
        "nobody".to_string(),
    ];
    assert_eq!(r.get_remote_servers_in_room(&ids), vec!["one.org".to_string(), "two.org".to_string()]);
}
