use matryx_repository::authorization::{AllowCondition, AuthorizationResult};
use matryx_repository::error::RepositoryError;
use matryx_repository::membership::MembershipState;
use matryx_repository::power_levels::RoomPowerLevels;
use matryx_repository::room::{
    JoinRules, MemberListRow, RoomAccessStep, RoomAction, RoomOperation, RoomRepository, ServerAcl, StateIdRow,
};
use matryx_repository::room_context::ContextFilter;
use matryx_repository::space_hierarchy::{ChildStateEvent, SpaceNode, SpaceRoom, SpaceState};
use matryx_repository::room_upgrade::UpgradeSource;

fn repo() -> RoomRepository<()> {
    RoomRepository::new(())
}

fn levels(users: &[(&str, i64)]) -> RoomPowerLevels {
    RoomPowerLevels::from_content(
        users.iter().map(|(u, l)| (u.to_string(), *l)).collect(),
        None,
        vec![],
        None,
        None,
        None,
        None,
        None,
        None,
    )
}

fn strings(v: &[&str]) -> Vec<String> {
    v.iter().map(|s| s.to_string()).collect()
}

#[test]
fn acl_deny_wins_over_allow() {
    let r = repo();
    let acl = ServerAcl { allow: Some(strings(&["*"])), deny: Some(strings(&["*.evil.org"])) };
    assert!(!r.check_server_acls(Some(&acl), "evil.org"));
    assert!(!r.check_server_acls(Some(&acl), "a.evil.org"));
    assert!(r.check_server_acls(Some(&acl), "good.org"));
    let only = ServerAcl { allow: Some(strings(&["matrix.org"])), deny: None };
    assert!(!r.check_server_acls(Some(&only), "other.org"));
    assert!(r.check_server_acls(None, "any.org"));
}

#[test]
fn federation_needs_room_and_federate() {
    let r = repo();
    assert!(!r.validate_room_for_federation(false, true, None, "a.org"));
    assert!(!r.validate_room_for_federation(true, false, None, "a.org"));
    assert!(r.validate_room_for_federation(true, true, None, "a.org"));
    let acl = ServerAcl { allow: None, deny: Some(strings(&["bad.org"])) };
    assert!(!r.validate_room_for_federation(true, true, Some(&acl), "bad.org"));
}

#[test]
fn actions_need_their_level() {
    let r = repo();
    let pl = levels(&[("@admin:x", 100), ("@mod:x", 50)]);
    assert!(r.can_user_perform_action(&pl, "@mod:x", "ban", None));
    assert!(!r.can_user_perform_action(&pl, "@user:x", "ban", None));
    assert!(r.can_user_perform_action(&pl, "@user:x", "m.room.message", None));
    assert!(!r.can_user_perform_action(&pl, "@mod:x", "upgrade", Some(100)));
    assert!(r.validate_power_level_change(&pl, "@admin:x", "@mod:x", 90));
    assert!(!r.validate_power_level_change(&pl, "@admin:x", "@mod:x", 101));
    assert!(!r.validate_power_level_change(&pl, "@mod:x", "@user:x", 10));
}

#[test]
fn room_operations_need_membership_and_level() {
    let r = repo();
    let pl = levels(&[("@mod:x", 50)]);
    assert!(r.validate_room_operation_enhanced(true, &pl, "@user:x", &RoomOperation::SendMessage));
    assert!(!r.validate_room_operation_enhanced(false, &pl, "@mod:x", &RoomOperation::SendMessage));
    assert!(r.validate_room_operation_enhanced(true, &pl, "@mod:x", &RoomOperation::KickUser));
    assert!(!r.validate_room_operation_enhanced(true, &pl, "@user:x", &RoomOperation::SendState("m.room.name".to_string())));
    assert!(!r.validate_room_operation_enhanced(true, &pl, "@mod:x", &RoomOperation::ChangePowerLevels));
}

#[test]
fn members_by_state_last_row_wins() {
    let r = repo();
    let row = |u: &str, m: Option<&str>, name: &str| MemberListRow {
        user_id: Some(u.to_string()),
        membership: m.map(|s| s.to_string()),
        avatar_url: None,
        display_name: Some(name.to_string()),
    };
    let rows = vec![row("@a:x", Some("join"), "A1"), row("@b:x", Some("invite"), "B"), row("@a:x", Some("join"), "A2"), row("@c:x", None, "C")];
    let m = r.get_room_members_with_filter(&rows);
    assert_eq!(m.joined.len(), 1);
    assert_eq!(m.joined[0].0, "@a:x");
    assert_eq!(m.joined[0].1.display_name.as_deref(), Some("A2"));
    assert_eq!(m.invited.as_ref().unwrap().len(), 1);
    assert_eq!(m.left.as_ref().unwrap()[0].0, "@c:x");
    assert!(m.banned.is_none());
    assert_eq!(
        r.room_members_query(Some(MembershipState::Join), None, true),
        "SELECT user_id, membership, avatar_url, display_name FROM membership WHERE room_id = $room_id AND membership = $membership AND created_at <= $at"
    );
}

#[test]
fn users_at_or_above_a_level() {
    let r = repo();
    let pl = levels(&[("@admin:x", 100), ("@mod:x", 50), ("@user:x", 0)]);
    assert_eq!(r.get_users_with_power_level(&pl, 50), strings(&["@admin:x", "@mod:x"]));
}

#[test]
fn joinability_and_forgetting() {
    let r = repo();
    assert!(r.is_room_joinable(JoinRules::Public, false, false));
    assert!(!r.is_room_joinable(JoinRules::Invite, false, false));
    assert!(r.is_room_invite_only(JoinRules::Invite));
    assert!(r.forget_room(Some("leave"), "!r:x", "@a:x").is_ok());
    assert!(r.forget_room(Some("join"), "!r:x", "@a:x").is_err());
}

#[test]
fn room_access_steps() {
    let r = repo();
    assert_eq!(r.validate_room_access(false, Some(MembershipState::Join), RoomAction::Read), RoomAccessStep::Decided(false));
    assert_eq!(r.validate_room_access(true, Some(MembershipState::Join), RoomAction::Read), RoomAccessStep::Decided(true));
    assert_eq!(r.validate_room_access(true, None, RoomAction::Read), RoomAccessStep::AskWorldReadable);
    assert_eq!(r.validate_room_access(true, Some(MembershipState::Invite), RoomAction::Write), RoomAccessStep::Decided(false));
    assert_eq!(r.validate_room_access(true, None, RoomAction::Kick), RoomAccessStep::AskCanModerate(true));
    assert_eq!(r.validate_room_access(true, Some(MembershipState::Join), RoomAction::StateEvents), RoomAccessStep::AskPowerLevel(50));
    assert!(r.room_access_answer(RoomAccessStep::AskPowerLevel(50), false, Some(50)));
    assert!(!r.room_access_answer(RoomAccessStep::AskPowerLevel(50), true, None));
    assert!(r.room_access_answer(RoomAccessStep::AskWorldReadable, true, None));
}

#[test]
fn state_ids_keep_the_first_row_per_key() {
    let r = repo();
    let row = |id: Option<&str>, t: Option<&str>, k: Option<&str>| StateIdRow {
        event_id: id.map(|s| s.to_string()),
        event_type: t.map(|s| s.to_string()),
        state_key: k.map(|s| s.to_string()),
    };
    let rows = vec![
        row(Some("$1"), Some("m.room.name"), Some("")),
        row(Some("$2"), Some("m.room.name"), Some("")),
        row(None, Some("m.room.topic"), Some("")),
        row(Some("$3"), Some("m.room.topic"), Some("")),
        row(Some("$4"), Some("m.room.member"), Some("@a:x")),
    ];
    assert_eq!(r.get_room_state_ids(&rows), strings(&["$1", "$3", "$4"]));
    // Rows read without type and key all share the key ":".
    let bare = vec![row(Some("$a"), None, None), row(Some("$b"), None, None)];
    assert_eq!(r.get_room_state_ids(&bare), strings(&["$a"]));
}

#[test]
fn context_filter_and_queries() {
    let r = repo();
    assert_eq!(r.context_filter_clause(&None), "");
    let empty = ContextFilter { types: None, not_types: None, senders: None, not_senders: None };
    assert_eq!(r.context_filter_clause(&Some(empty)), "");
    let f = ContextFilter {
        types: Some(strings(&["m.room.message", "m.sticker"])),
        not_types: None,
        senders: None,
        not_senders: Some(strings(&["@spam:x"])),
    };
    let clause = r.context_filter_clause(&Some(f));
    assert_eq!(clause, " AND (event_type IN ['m.room.message', 'm.sticker'] AND sender NOT IN ['@spam:x'])");
    assert_eq!(
        r.context_before_query(&clause, 5),
        format!("SELECT * FROM event WHERE room_id = $room_id AND origin_server_ts < $timestamp{} ORDER BY origin_server_ts DESC LIMIT 5", clause)
    );
    assert_eq!(
        r.context_after_query("", 10),
        "SELECT * FROM event WHERE room_id = $room_id AND origin_server_ts > $timestamp ORDER BY origin_server_ts ASC LIMIT 10"
    );
}

#[test]
fn context_orders_events_oldest_first() {
    let r = repo();
    assert_eq!(r.context_event_time("$e", Some(77)).unwrap(), 77);
    match r.context_event_time("$missing", None).unwrap_err() {
        RepositoryError::NotFound { entity_type, id } => {
            assert_eq!(entity_type, "Event");
            assert_eq!(id, "$missing");
        },
        other => panic!("unexpected {:?}", other),
    }
    let c = r.get_room_context(vec![3, 2, 1], 4, vec![5, 6]);
    assert_eq!(c.events_before, vec![1, 2, 3]);
    assert_eq!(c.event, 4);
    assert_eq!(c.events_after, vec![5, 6]);
}

fn space_room(id: &str) -> SpaceRoom {
    SpaceRoom {
        room_id: id.to_string(),
        canonical_alias: None,
        room_type: Some("m.space".to_string()),
        name: Some(format!("name of {}", id)),
        topic: None,
        history_visibility: Some("world_readable".to_string()),
        guest_access: None,
        join_rules: None,
        avatar_url: None,
        room_version: "10".to_string(),
    }
}

fn node(id: &str, readable: bool, links: &[&str]) -> SpaceNode {
    SpaceNode {
        room_id: id.to_string(),
        room: if readable { Some(space_room(id)) } else { None },
        joined_members: 3,
        links: links.iter().map(|l| Some(l.to_string())).collect(),
    }
}

fn plain_space() -> SpaceState {
    SpaceState { children_state: vec![], join_rule: None, allow: None, encryption: None }
}

fn links(v: &[&str]) -> Vec<Option<String>> {
    v.iter().map(|l| Some(l.to_string())).collect()
}

#[test]
fn hierarchy_lists_each_child_once() {
    let r = repo();
    let graph = vec![
        node("!a:x", true, &["!a1:x", "!space:x", "!b:x"]),
        node("!a1:x", true, &["!a2:x"]),
        node("!a2:x", true, &[]),
        node("!b:x", true, &["!a:x"]),
        node("!gone:x", false, &[]),
    ];
    let mut root_links = links(&["!a:x", "!space:x", "!gone:x", "!a:x"]);
    root_links.push(None);
    root_links.extend(links(&["!b:x", "!gone:x"]));
    let h = r.get_room_hierarchy("!space:x", Some(space_room("!space:x")), 7, None, &root_links, plain_space(), &graph).unwrap();
    let ids: Vec<&str> = h.children.iter().map(|c| c.room_id.as_str()).collect();
    assert_eq!(ids, vec!["!a:x", "!a1:x", "!a2:x", "!b:x"]);
    assert_eq!(h.inaccessible_children, strings(&["!gone:x", "!gone:x"]));
    assert_eq!(h.children[0].room_version.as_deref(), Some("9"));
    assert_eq!(h.children[0].join_rule.as_deref(), Some("invite"));
    assert!(h.children[0].world_readable);
    assert!(!h.children[0].guest_can_join);
    assert_eq!(h.children[0].num_joined_members, 3);
    assert!(h.children[0].children_state.is_empty());
    assert_eq!(h.room.room_version.as_deref(), Some("10"));
    assert_eq!(h.room.num_joined_members, 7);
}

#[test]
fn hierarchy_depth_limits_levels() {
    let r = repo();
    let graph = vec![
        node("!a:x", true, &["!a1:x"]),
        node("!a1:x", true, &["!a2:x"]),
        node("!a2:x", true, &[]),
    ];
    let root_links = links(&["!a:x"]);
    let ids = |d: Option<u32>| -> Vec<String> {
        r.get_room_hierarchy("!space:x", Some(space_room("!space:x")), 1, d, &root_links, plain_space(), &graph)
            .unwrap().children.into_iter().map(|c| c.room_id).collect()
    };
    assert_eq!(ids(Some(1)), strings(&["!a:x"]));
    assert_eq!(ids(Some(2)), strings(&["!a:x", "!a1:x"]));
    assert_eq!(ids(Some(3)), strings(&["!a:x", "!a1:x", "!a2:x"]));
    assert_eq!(ids(None), strings(&["!a:x", "!a1:x", "!a2:x"]));
}

#[test]
fn hierarchy_reports_the_space_itself() {
    let r = repo();
    let space = SpaceState {
        children_state: vec![ChildStateEvent {
            content: "{\"via\":[\"x\"]}".to_string(),
            origin_server_ts: 5,
            sender: "@admin:x".to_string(),
            state_key: "!a:x".to_string(),
            event_type: "m.space.child".to_string(),
        }],
        join_rule: Some("restricted".to_string()),
        allow: Some(vec![AllowCondition { condition_type: Some("m.room_membership".to_string()), room_id: Some("!parent:x".to_string()) }]),
        encryption: Some("m.megolm.v1.aes-sha2".to_string()),
    };
    let h = r.get_room_hierarchy("!space:x", Some(space_room("!space:x")), 1, None, &vec![], space, &vec![]).unwrap();
    assert_eq!(h.room.children_state.len(), 1);
    assert_eq!(h.room.children_state[0].state_key, "!a:x");
    assert_eq!(h.room.allowed_room_ids, Some(strings(&["!parent:x"])));
    assert_eq!(h.room.encryption.as_deref(), Some("m.megolm.v1.aes-sha2"));
}

#[test]
fn hierarchy_depth_zero_and_missing_space() {
    let r = repo();
    let graph = vec![node("!a:x", true, &[])];
    let root_links = links(&["!a:x"]);
    let h = r.get_room_hierarchy("!space:x", Some(space_room("!space:x")), 1, Some(0), &root_links, plain_space(), &graph).unwrap();
    assert!(h.children.is_empty());
    assert!(h.inaccessible_children.is_empty());
    match r.get_room_hierarchy("!space:x", None, 0, None, &root_links, plain_space(), &graph).unwrap_err() {
        RepositoryError::NotFound { entity_type, id } => {
            assert_eq!(entity_type, "Room");
            assert_eq!(id, "!space:x");
        },
        other => panic!("unexpected {:?}", other),
    }
    assert_eq!(
        r.space_children_query(true),
        "SELECT child_room_id, suggested FROM space_children WHERE parent_room_id = $room_id AND suggested = true"
    );
}

#[test]
fn allowed_rooms_of_restricted_rules() {
    let r = repo();
    let conditions = vec![
        AllowCondition { condition_type: Some("m.room_membership".to_string()), room_id: Some("!a:x".to_string()) },
        AllowCondition { condition_type: Some("m.other".to_string()), room_id: Some("!b:x".to_string()) },
        AllowCondition { condition_type: Some("m.room_membership".to_string()), room_id: None },
    ];
    assert_eq!(r.get_allowed_room_ids(Some("restricted"), Some(&conditions)), Some(strings(&["!a:x"])));
    assert_eq!(r.get_allowed_room_ids(Some("public"), Some(&conditions)), None);
    let others = vec![AllowCondition { condition_type: Some("m.other".to_string()), room_id: Some("!b:x".to_string()) }];
    assert_eq!(r.get_allowed_room_ids(Some("knock_restricted"), Some(&others)), None);
}

fn old_room() -> UpgradeSource {
    UpgradeSource {
        creator: "@founder:x".to_string(),
        name: Some("Old".to_string()),
        topic: Some("Topic".to_string()),
        avatar_url: None,
        is_public: Some(true),
        is_direct: Some(false),
        join_rule: Some("public".to_string()),
        join_rules: Some("public".to_string()),
        guest_access: Some("can_join".to_string()),
        history_visibility: Some("shared".to_string()),
        power_levels: Some("{\"ban\":50}".to_string()),
        encryption: Some("m.megolm.v1.aes-sha2".to_string()),
        room_type: None,
        federate: Some(true),
    }
}

#[test]
fn upgrade_needs_level_one_hundred() {
    let r = repo();
    let pl = levels(&[("@admin:x", 100), ("@mod:x", 50)]);
    match r.upgrade_room("!old:x", "11", "@mod:x", &pl, Some(old_room()), Some("$create")).unwrap_err() {
        RepositoryError::Unauthorized { reason } => assert_eq!(reason, "User not authorized to upgrade room !old:x"),
        other => panic!("unexpected {:?}", other),
    }
    match r.upgrade_room("!old:x", "11", "@admin:x", &pl, None, Some("$create")).unwrap_err() {
        RepositoryError::NotFound { entity_type, id } => {
            assert_eq!(entity_type, "Room");
            assert_eq!(id, "!old:x");
        },
        other => panic!("unexpected {:?}", other),
    }
    match r.upgrade_room("!old:x", "11", "@admin:x", &pl, Some(old_room()), None).unwrap_err() {
        RepositoryError::NotFound { entity_type, .. } => assert_eq!(entity_type, "Room creation event"),
        other => panic!("unexpected {:?}", other),
    }
    let plan = r.upgrade_room("!old:x", "11", "@admin:x", &pl, Some(old_room()), Some("$create")).unwrap();
    assert!(plan.new_room_id.starts_with('!'));
    assert!(plan.new_room_id.ends_with(":localhost"));
    assert_eq!(plan.new_room_id.len(), 47);
    assert_eq!(plan.creator, "@admin:x");
    assert_eq!(plan.room_version, "11");
    assert_eq!(plan.predecessor_room_id, "!old:x");
    assert_eq!(plan.predecessor_event_id, "$create");
    assert!(plan.canonical_alias.is_none());
    assert_eq!(plan.name.as_deref(), Some("Old"));
    assert_eq!(plan.encryption.as_deref(), Some("m.megolm.v1.aes-sha2"));
    assert_eq!(plan.federate, Some(true));
    assert_eq!(plan.tombstone_sender, "@founder:x");
    let ev = r.tombstone_event("!old:x", &plan);
    assert_eq!(ev.event_type, "m.room.tombstone");
    assert_eq!(ev.sender, "@founder:x");
    assert_eq!(ev.state_key, "");
    assert_eq!(ev.replacement_room, plan.new_room_id);
    let t = r.upgrade_tombstone(&plan.new_room_id, Some("$tomb".to_string()));
    assert_eq!(t.body, "This room has been replaced");
    assert_eq!(t.replacement_room, plan.new_room_id);
    assert_eq!(t.event_id.as_deref(), Some("$tomb"));
}

#[test]
fn power_levels_replacement() {
    let r = repo();
    let pl = levels(&[("@admin:x", 100), ("@mod:x", 50)]);
    match r.update_room_power_levels("!r:x", "@mod:x", &pl).unwrap_err() {
        RepositoryError::Unauthorized { reason } => {
            assert_eq!(reason, "User @mod:x not authorized to update power levels in room !r:x")
        },
        other => panic!("unexpected {:?}", other),
    }
    let id = r.update_room_power_levels("!r:x", "@admin:x", &pl).unwrap();
    assert!(id.starts_with('$'));
    assert!(id.ends_with(":localhost"));
}

#[test]
fn room_settings_and_small_checks() {
    let r = repo();
    let s = r.create_room_settings(false, true);
    assert_eq!(s.join_rule, "invite");
    assert_eq!(s.room_version, "9");
    assert!(s.federate);
    assert_eq!(r.create_room_settings(true, false).join_rule, "public");
    let f = r.check_room_federation_settings(None, &Some(vec![Some("evil.org".to_string()), None]), &None);
    assert!(f.federate);
    assert_eq!(f.restricted_servers, strings(&["evil.org"]));
    assert!(f.allowed_servers.is_empty());
    assert!(!r.check_room_federation_settings(Some(false), &None, &None).federate);
    assert!(r.check_room_allows_knocking(Some(Some("knock"))));
    assert!(!r.check_room_allows_knocking(Some(None)));
    assert!(!r.check_room_allows_knocking(None));
    assert_eq!(r.get_room_join_rules_string(None), "invite");
    assert!(r.is_room_world_readable("world_readable"));
    assert!(!r.is_room_world_readable("shared"));
    assert!(r.check_room_membership(Some(Some("join"))));
    assert!(!r.check_room_membership(Some(Some("invite"))));
    assert!(r.can_user_invite(Some(MembershipState::Join), true));
    assert!(!r.can_user_invite(Some(MembershipState::Invite), true));
    assert_eq!(r.check_server_state_permission(Some(2)), Some(true));
    assert_eq!(r.check_server_state_permission(Some(0)), None);
}

#[test]
fn refused_access_is_forbidden() {

    let r = repo();
    assert!(r.validate_room_authorization(AuthorizationResult::authorized()).unwrap());
    match r.validate_room_authorization(AuthorizationResult::denied("Room not found")).unwrap_err() {
        RepositoryError::Forbidden { reason } => assert_eq!(reason, "Room not found"),
        other => panic!("unexpected {:?}", other),
    }
}
