//! Room authorization: whether a user may act in a room, join it, or change
//! someone's membership. Each check is a step function: it decides, or names
//! the fact it needs next.
use vstd::prelude::*;
use crate::error::{RepositoryError, is_forbidden, is_validation, owned, concat2, concat4, validation};
use crate::membership::{MembershipState, membership_from_name};
use crate::membership_ops::MembershipContext;
use crate::numeric::{format_i64, signed_decimal};
use crate::power_levels::{RoomPowerLevels, lookup};
use crate::room::{JoinRules, RoomVisibility, RoomRepository};
use crate::membership::MembershipRepository;
use crate::room_alias::RoomAliasRepository;
use std::sync::Arc;
use crate::text::{str_eq, starts_with, is_prefix_of};

verus! {

/// The outcome of an authorization check.
#[derive(Debug)]
pub struct AuthorizationResult {
    pub authorized: bool,
    pub reason: Option<String>,
    pub required_power_level: Option<i64>,
    pub user_power_level: Option<i64>,
    pub error_code: Option<String>,
    /// Further details, as JSON text.
    pub details: Option<String>,
}

/// `r` grants the request, with nothing else set.
pub open spec fn granted(r: AuthorizationResult) -> bool {
    &&& r.authorized
    &&& r.reason.is_none()
    &&& r.required_power_level.is_none()
    &&& r.user_power_level.is_none()
    &&& r.error_code.is_none()
    &&& r.details.is_none()
}

/// `r` refuses the request for `reason`, with nothing else set.
pub open spec fn refused(r: AuthorizationResult, reason: Seq<char>) -> bool {
    &&& !r.authorized
    &&& r.reason.is_some() && r.reason.unwrap()@ == reason
    &&& r.required_power_level.is_none()
    &&& r.user_power_level.is_none()
    &&& r.error_code.is_none()
    &&& r.details.is_none()
}

/// `r` refuses the request for want of power: `required` is needed,
/// `current` is held.
pub open spec fn underpowered(r: AuthorizationResult, required: i64, current: i64) -> bool {
    &&& !r.authorized
    &&& r.reason.is_some() && r.reason.unwrap()@ == "Insufficient power level: required "@
        + signed_decimal(required as int) + ", current "@ + signed_decimal(current as int)
    &&& r.required_power_level == Some(required)
    &&& r.user_power_level == Some(current)
    &&& r.error_code.is_some() && r.error_code.unwrap()@ == "M_FORBIDDEN"@
    &&& r.details.is_none()
}

impl AuthorizationResult {
    pub fn authorized() -> (r: AuthorizationResult)
        ensures
            granted(r),
    {
        AuthorizationResult {
            authorized: true,
            reason: None,
            required_power_level: None,
            user_power_level: None,
            error_code: None,
            details: None,
        }
    }

    pub fn denied(reason: &str) -> (r: AuthorizationResult)
        ensures
            refused(r, reason@),
    {
        AuthorizationResult {
            authorized: false,
            reason: Some(owned(reason)),
            required_power_level: None,
            user_power_level: None,
            error_code: None,
            details: None,
        }
    }

    pub fn insufficient_power_level(required: i64, current: i64) -> (r: AuthorizationResult)
        ensures
            underpowered(r, required, current),
    {
        let a = format_i64(required);
        let b = format_i64(current);
        let reason = concat4("Insufficient power level: required ", a.as_str(), ", current ", b.as_str());
        AuthorizationResult {
            authorized: false,
            reason: Some(reason),
            required_power_level: Some(required),
            user_power_level: Some(current),
            error_code: Some(owned("M_FORBIDDEN")),
            details: None,
        }
    }
}

/// The level a member needs for the named action.
pub open spec fn access_level(pl: RoomPowerLevels, action: Seq<char>) -> i64 {
    if action == "send_message"@ {
        pl.event_level_or("m.room.message"@, pl.events_default)
    } else if action == "send_state"@ {
        pl.state_default
    } else if action == "invite"@ {
        pl.invite
    } else if action == "kick"@ {
        pl.kick
    } else if action == "ban"@ {
        pl.ban
    } else if action == "redact"@ {
        pl.redact
    } else if action == "change_power_levels"@ {
        pl.event_level_or("m.room.power_levels"@, 100)
    } else if action == "change_name"@ {
        pl.event_level_or("m.room.name"@, pl.state_default)
    } else if action == "change_topic"@ {
        pl.event_level_or("m.room.topic"@, pl.state_default)
    } else if action == "change_avatar"@ {
        pl.event_level_or("m.room.avatar"@, pl.state_default)
    } else if action == "change_canonical_alias"@ {
        pl.event_level_or("m.room.canonical_alias"@, pl.state_default)
    } else if action == "change_join_rules"@ {
        pl.event_level_or("m.room.join_rules"@, pl.state_default)
    } else if action == "change_history_visibility"@ {
        pl.event_level_or("m.room.history_visibility"@, pl.state_default)
    } else if action == "upgrade_room"@ {
        pl.event_level_or("m.room.tombstone"@, 100)
    } else if action == "read"@ || action == "read_timeline"@ {
        0
    } else if is_prefix_of("m.room."@, action) {
        pl.state_default
    } else {
        pl.events_default
    }
}

/// The level a member needs for the named action.
pub fn required_level_for_action(power_levels: &RoomPowerLevels, action: &str) -> (r: i64)
    ensures
        r == access_level(*power_levels, action@),
{
    let pl = power_levels;
    if str_eq(action, "send_message") {
        pl.event_level("m.room.message", pl.events_default)
    } else if str_eq(action, "send_state") {
        pl.state_default
    } else if str_eq(action, "invite") {
        pl.invite
    } else if str_eq(action, "kick") {
        pl.kick
    } else if str_eq(action, "ban") {
        pl.ban
    } else if str_eq(action, "redact") {
        pl.redact
    } else if str_eq(action, "change_power_levels") {
        pl.event_level("m.room.power_levels", 100)
    } else if str_eq(action, "change_name") {
        pl.event_level("m.room.name", pl.state_default)
    } else if str_eq(action, "change_topic") {
        pl.event_level("m.room.topic", pl.state_default)
    } else if str_eq(action, "change_avatar") {
        pl.event_level("m.room.avatar", pl.state_default)
    } else if str_eq(action, "change_canonical_alias") {
        pl.event_level("m.room.canonical_alias", pl.state_default)
    } else if str_eq(action, "change_join_rules") {
        pl.event_level("m.room.join_rules", pl.state_default)
    } else if str_eq(action, "change_history_visibility") {
        pl.event_level("m.room.history_visibility", pl.state_default)
    } else if str_eq(action, "upgrade_room") {
        pl.event_level("m.room.tombstone", 100)
    } else if str_eq(action, "read") || str_eq(action, "read_timeline") {
        0
    } else if starts_with(action, "m.room.") {
        pl.state_default
    } else {
        pl.events_default
    }
}

/// The first step of an access check.
#[derive(Debug)]
pub enum AccessStep {
    /// The check is decided.
    Decided(AuthorizationResult),
    /// A non-member may read if the room is world readable.
    CheckWorldReadable,
    /// A non-member asks to join: the join request decides.
    ValidateJoin,
    /// A member: the power levels decide.
    CheckPowerLevel,
}

impl<D> RoomAuthorizationService<D> {
    /// The first step of checking whether a user may perform `action` in a room.
    pub fn check_room_access(&self, room_exists: bool, is_joined: bool, action: &str) -> (r: AccessStep)
        ensures
            !room_exists ==> (r matches AccessStep::Decided(a) && refused(a, "Room not found"@)),
            room_exists && is_joined ==> r is CheckPowerLevel,
            room_exists && !is_joined ==> (if action@ == "read_public"@ || action@ == "peek"@ {
                r is CheckWorldReadable
            } else if action@ == "join"@ {
                r is ValidateJoin
            } else {
                (r matches AccessStep::Decided(a) && refused(a, "Not a member of the room"@))
            }),
    {
        if !room_exists {
            return AccessStep::Decided(AuthorizationResult::denied("Room not found"));
        }
        if !is_joined {
            if str_eq(action, "read_public") || str_eq(action, "peek") {
                return AccessStep::CheckWorldReadable;
            } else if str_eq(action, "join") {
                return AccessStep::ValidateJoin;
            } else {
                return AccessStep::Decided(AuthorizationResult::denied("Not a member of the room"));
            }
        }
        AccessStep::CheckPowerLevel
    }
}

/// A non-member's read access: granted exactly for world-readable rooms.
pub fn world_readable_access(visibility: RoomVisibility) -> (r: AuthorizationResult)
    ensures
        visibility == RoomVisibility::Public ==> granted(r),
        visibility == RoomVisibility::Private ==> refused(r, "Room is not world readable"@),
{
    match visibility {
        RoomVisibility::Public => AuthorizationResult::authorized(),
        RoomVisibility::Private => AuthorizationResult::denied("Room is not world readable"),
    }
}

/// A member's access: granted exactly when its level reaches the action's.
pub fn power_level_access(power_levels: &RoomPowerLevels, user_id: &str, action: &str) -> (r: AuthorizationResult)
    ensures
        r.authorized <==> power_levels.level_of(user_id@) >= access_level(*power_levels, action@),
        r.authorized ==> granted(r),
        !r.authorized ==> underpowered(r, access_level(*power_levels, action@), power_levels.level_of(user_id@)),
{
    let user_level = power_levels.user_level(user_id);
    let required = required_level_for_action(power_levels, action);
    if user_level >= required {
        AuthorizationResult::authorized()
    } else {
        AuthorizationResult::insufficient_power_level(required, user_level)
    }
}

/// The first step of a join request.
#[derive(Debug)]
pub enum JoinStep {
    Decided(AuthorizationResult),
    /// The room's join rule decides.
    CheckJoinRules,
}

impl<D> RoomAuthorizationService<D> {
    /// A join request, from the room's existence and the user's current membership.
    pub fn validate_join_request(&self, room_exists: bool, current: Option<MembershipState>) -> (r: JoinStep)
        ensures
            !room_exists ==> (r matches JoinStep::Decided(a) && refused(a, "Room not found"@)),
            room_exists && current == Some(MembershipState::Join) ==> (r matches JoinStep::Decided(a) && refused(a, "User is already joined"@)),
            room_exists && current == Some(MembershipState::Ban) ==> (r matches JoinStep::Decided(a) && refused(a, "User is banned from the room"@)),
            room_exists && current == Some(MembershipState::Invite) ==> (r matches JoinStep::Decided(a) && granted(a)),
            room_exists && (current.is_none() || current == Some(MembershipState::Leave) || current
                == Some(MembershipState::Knock)) ==> r is CheckJoinRules,
    {
        if !room_exists {
            return JoinStep::Decided(AuthorizationResult::denied("Room not found"));
        }
        match current {
            Some(MembershipState::Join) => JoinStep::Decided(AuthorizationResult::denied("User is already joined")),
            Some(MembershipState::Ban) => JoinStep::Decided(AuthorizationResult::denied("User is banned from the room")),
            Some(MembershipState::Invite) => JoinStep::Decided(AuthorizationResult::authorized()),
            _ => JoinStep::CheckJoinRules,
        }
    }
}

/// What a join rule says of a join request.
#[derive(Debug)]
pub enum JoinRuleStep {
    Decided(AuthorizationResult),
    /// A restricted room: the allow conditions decide.
    CheckRestricted,
}

/// A join request under the room's join rule.
pub fn join_rules_decision(join_rules: JoinRules) -> (r: JoinRuleStep)
    ensures
        join_rules == JoinRules::Public ==> (r matches JoinRuleStep::Decided(a) && granted(a)),
        join_rules == JoinRules::Invite ==> (r matches JoinRuleStep::Decided(a) && refused( a, "Room requires invitation to join"@, )),
        join_rules == JoinRules::Knock ==> (r matches JoinRuleStep::Decided(a) && refused( a, "Room requires knocking before joining"@, )),
        join_rules == JoinRules::Private ==> (r matches JoinRuleStep::Decided(a) && refused( a, "Room is private and cannot be joined"@, )),
        join_rules == JoinRules::Restricted ==> r is CheckRestricted,
{
    match join_rules {
        JoinRules::Public => JoinRuleStep::Decided(AuthorizationResult::authorized()),
        JoinRules::Invite => JoinRuleStep::Decided(AuthorizationResult::denied("Room requires invitation to join")),
        JoinRules::Knock => JoinRuleStep::Decided(AuthorizationResult::denied("Room requires knocking before joining")),
        JoinRules::Private => JoinRuleStep::Decided(AuthorizationResult::denied("Room is private and cannot be joined")),
        JoinRules::Restricted => JoinRuleStep::CheckRestricted,
    }
}

/// An allow condition of a restricted room's join rule.
#[derive(Debug)]
pub struct AllowCondition {
    pub condition_type: Option<String>,
    pub room_id: Option<String>,
}

/// The condition asks for membership of a room, and names it.
pub open spec fn is_room_membership_condition(c: AllowCondition) -> bool {
    c.condition_type.is_some() && c.condition_type.unwrap()@ == "m.room_membership"@ && c.room_id.is_some()
}

/// Whether the condition asks for membership of a named room (then the
/// user's membership of that room must be looked up).
pub fn is_membership_condition(c: &AllowCondition) -> (r: bool)
    ensures
        r == is_room_membership_condition(*c),
{
    match (&c.condition_type, &c.room_id) {
        (Some(t), Some(_)) => str_eq(t.as_str(), "m.room_membership"),
        _ => false,
    }
}

impl<D> RoomAuthorizationService<D> {
    /// A restricted join: granted when some membership condition names a room
    /// the user is joined to (`user_in_room[i]` answers condition `i`; the
    /// answer is not consulted for other conditions).
    pub fn validate_restricted_join(&self, conditions: &Vec<AllowCondition>, user_in_room: &Vec<bool>) -> (r: AuthorizationResult)
        requires
            conditions@.len() == user_in_room@.len(),
        ensures
            conditions@.len() == 0 ==> refused(r, "Restricted room has no allow conditions"@),
            conditions@.len() > 0 ==> (if exists|i: int|
                0 <= i < conditions@.len() && is_room_membership_condition(#[trigger] conditions@[i])
                    && user_in_room@[i] {
                granted(r)
            } else {
                refused(r, "User does not meet restricted room requirements"@)
            }),
    {
        if conditions.len() == 0 {
            return AuthorizationResult::denied("Restricted room has no allow conditions");
        }
        let mut i: usize = 0;
        while i < conditions.len()
            invariant
                i <= conditions@.len(),
                conditions@.len() == user_in_room@.len(),
                forall|j: int| 0 <= j < i ==> !(is_room_membership_condition(#[trigger] conditions@[j]) && user_in_room@[j]),
            decreases conditions@.len() - i,
        {
            if is_membership_condition(&conditions[i]) && user_in_room[i] {
                return AuthorizationResult::authorized();
            }
            i = i + 1;
        }
        AuthorizationResult::denied("User does not meet restricted room requirements")
    }
}

/// An operation on another user whose target is checked.
#[derive(PartialEq, Eq, Structural, Clone, Copy, Debug)]
pub enum TargetOperation {
    Invite,
    Ban,
    Kick,
}

impl TargetOperation {
    pub fn as_str(&self) -> (r: &'static str)
        ensures
            r@ == match *self {
                TargetOperation::Invite => "invite"@,
                TargetOperation::Ban => "ban"@,
                TargetOperation::Kick => "kick"@,
            },
    {
        match self {
            TargetOperation::Invite => "invite",
            TargetOperation::Ban => "ban",
            TargetOperation::Kick => "kick",
        }
    }
}

/// Authorization of room operations, with the repositories it consults.
pub struct RoomAuthorizationService<D> {
    room_repo: Arc<RoomRepository<D>>,
    membership_repo: Arc<MembershipRepository<D>>,
    room_alias_repo: Arc<RoomAliasRepository<D>>,
    db: D,
}

impl<D> RoomAuthorizationService<D> {
    /// The room repository it was made with.
    pub closed spec fn rooms(&self) -> Arc<RoomRepository<D>> {
        self.room_repo
    }

    /// The membership repository it was made with.
    pub closed spec fn memberships(&self) -> Arc<MembershipRepository<D>> {
        self.membership_repo
    }

    /// The alias repository it was made with.
    pub closed spec fn aliases(&self) -> Arc<RoomAliasRepository<D>> {
        self.room_alias_repo
    }

    /// The store handle it was made with.
    pub closed spec fn handle(&self) -> D {
        self.db
    }

    pub fn new(
        room_repo: Arc<RoomRepository<D>>,
        membership_repo: Arc<MembershipRepository<D>>,
        room_alias_repo: Arc<RoomAliasRepository<D>>,
        db: D,
    ) -> (r: Self)
        ensures
            r.rooms() == room_repo,
            r.memberships() == membership_repo,
            r.aliases() == room_alias_repo,
            r.handle() == db,
    {
        RoomAuthorizationService { room_repo, membership_repo, room_alias_repo, db }
    }

    /// The alias repository, for resolving aliases while authorizing.
    pub fn room_alias_repo(&self) -> (r: &Arc<RoomAliasRepository<D>>)
        ensures
            *r == self.aliases(),
    {
        &self.room_alias_repo
    }

    /// The room repository.
    pub fn room_repo(&self) -> (r: &Arc<RoomRepository<D>>)
        ensures
            *r == self.rooms(),
    {
        &self.room_repo
    }

    /// The membership repository.
    pub fn membership_repo(&self) -> (r: &Arc<MembershipRepository<D>>)
        ensures
            *r == self.memberships(),
    {
        &self.membership_repo
    }

    /// The store handle.
    pub fn db(&self) -> (r: &D)
        ensures
            *r == self.handle(),
    {
        &self.db
    }
}

impl<D> RoomAuthorizationService<D> {
    /// The target checks of an operation on another user, after the basic access
    /// check gave `base`: a kick or ban needs the actor to outrank the target; an
    /// invite is refused for a joined or invited target, and for a banned target
    /// unless the actor holds the ban level.
    pub fn validate_room_operation(
        &self,
        base: AuthorizationResult,
        operation: &str,
        has_target: bool,
        user_power: i64,
        target_power: i64,
        target_membership: Option<MembershipState>,
        has_ban_level: bool,
    ) -> (r: AuthorizationResult)
        ensures
            !base.authorized ==> r == base,
            base.authorized && !has_target ==> granted(r),
            base.authorized && has_target && (operation@ == "kick"@ || operation@ == "ban"@) ==> (
            if user_power <= target_power {
                refused(r, "Cannot kick/ban user with equal or higher power level"@)
            } else {
                granted(r)
            }),
            base.authorized && has_target && operation@ == "invite"@ ==> (match target_membership {
                Some(MembershipState::Join) => refused(r, "User is already joined"@),
                Some(MembershipState::Invite) => refused(r, "User is already invited"@),
                Some(MembershipState::Ban) => if has_ban_level {
                    granted(r)
                } else {
                    refused(r, "Cannot invite banned user without ban permissions"@)
                },
                _ => granted(r),
            }),
            base.authorized && has_target && operation@ != "kick"@ && operation@ != "ban"@
                && operation@ != "invite"@ ==> granted(r),
    {
        proof {
            reveal_strlit("kick");
            reveal_strlit("ban");
            reveal_strlit("invite");
            assert("invite"@.len() == 6 && "kick"@.len() == 4 && "ban"@.len() == 3);
            assert("invite"@ != "kick"@ && "invite"@ != "ban"@);
        }
        if !base.authorized {
            return base;
        }
        if has_target {
            if str_eq(operation, "kick") || str_eq(operation, "ban") {
                if user_power <= target_power {
                    return AuthorizationResult::denied("Cannot kick/ban user with equal or higher power level");
                }
            } else if str_eq(operation, "invite") {
                match target_membership {
                    Some(MembershipState::Join) => {
                        return AuthorizationResult::denied("User is already joined");
                    },
                    Some(MembershipState::Invite) => {
                        return AuthorizationResult::denied("User is already invited");
                    },
                    Some(MembershipState::Ban) => {
                        if !has_ban_level {
                            return AuthorizationResult::denied("Cannot invite banned user without ban permissions");
                        }
                    },
                    _ => {},
                }
            }
        }
        AuthorizationResult::authorized()
    }
}

/// What a membership change needs to be authorized.
#[derive(Debug)]
pub enum MembershipAuthStep {
    Decided(AuthorizationResult),
    /// A user joins: the join request decides.
    ValidateJoin,
    /// A user knocks: the room's join rule decides.
    CheckKnockRules,
    /// Someone else's membership changes: the operation check decides.
    ValidateOperation(TargetOperation),
}

impl<D> RoomAuthorizationService<D> {
    /// Authorizing a change of `target_user`'s membership to `new_membership`
    /// sent by `sender`.
    pub fn coordinate_membership_auth(&self, sender: &str, target_user: &str, new_membership: MembershipState) -> (r: MembershipAuthStep)
        ensures
            sender@ == target_user@ ==> match new_membership {
                MembershipState::Join => r is ValidateJoin,
                MembershipState::Leave => (r matches MembershipAuthStep::Decided(a) && granted(a)),
                MembershipState::Knock => r is CheckKnockRules,
                _ => (r matches MembershipAuthStep::Decided(a) && refused(a, "Cannot self-invite or self-ban"@)),
            },
            sender@ != target_user@ ==> match new_membership {
                MembershipState::Invite => r == MembershipAuthStep::ValidateOperation(TargetOperation::Invite),
                MembershipState::Ban => r == MembershipAuthStep::ValidateOperation(TargetOperation::Ban),
                MembershipState::Leave => r == MembershipAuthStep::ValidateOperation(TargetOperation::Kick),
                MembershipState::Join => (r matches MembershipAuthStep::Decided(a) && refused(a, "Cannot join on behalf of another user"@)),
                MembershipState::Knock => (r matches MembershipAuthStep::Decided(a) && refused(a, "Cannot knock on behalf of another user"@)),
            },
    {
        if str_eq(sender, target_user) {
            match new_membership {
                MembershipState::Join => MembershipAuthStep::ValidateJoin,
                MembershipState::Leave => MembershipAuthStep::Decided(AuthorizationResult::authorized()),
                MembershipState::Knock => MembershipAuthStep::CheckKnockRules,
                _ => MembershipAuthStep::Decided(AuthorizationResult::denied("Cannot self-invite or self-ban")),
            }
        } else {
            match new_membership {
                MembershipState::Invite => MembershipAuthStep::ValidateOperation(TargetOperation::Invite),
                MembershipState::Ban => MembershipAuthStep::ValidateOperation(TargetOperation::Ban),
                MembershipState::Leave => MembershipAuthStep::ValidateOperation(TargetOperation::Kick),
                MembershipState::Join => MembershipAuthStep::Decided(AuthorizationResult::denied("Cannot join on behalf of another user")),
                MembershipState::Knock => MembershipAuthStep::Decided(AuthorizationResult::denied("Cannot knock on behalf of another user")),
            }
        }
    }
}

/// A knock is allowed in knock and restricted rooms.
pub fn knock_rules_decision(join_rules: JoinRules) -> (r: AuthorizationResult)
    ensures
        join_rules == JoinRules::Knock || join_rules == JoinRules::Restricted ==> granted(r),
        !(join_rules == JoinRules::Knock || join_rules == JoinRules::Restricted) ==> refused(r, "Room does not allow knocking"@),
{
    match join_rules {
        JoinRules::Knock | JoinRules::Restricted => AuthorizationResult::authorized(),
        _ => AuthorizationResult::denied("Room does not allow knocking"),
    }
}

/// What a state change needs to be authorized.
#[derive(Debug)]
pub enum StateChangeStep {
    Decided(AuthorizationResult),
    /// A membership event: the membership change decides.
    CoordinateMembership,
    /// Another state event: the sender's access for its event type decides.
    CheckAccess,
}

impl<D> RoomAuthorizationService<D> {
    /// Authorizing a state event of `event_type`: the sender must be joined
    /// (except for the create event), the auth chain must hold a create event,
    /// and membership events need a state key.
    pub fn authorize_state_change(&self, sender_joined: bool, event_type: &str, auth_chain_valid: bool, has_state_key: bool) -> (r: StateChangeStep)
        ensures
            !sender_joined && event_type@ != "m.room.create"@ ==> (r matches StateChangeStep::Decided(a) && refused(a, "Sender is not a member of the room"@)),
            (sender_joined || event_type@ == "m.room.create"@) && !auth_chain_valid ==> (r matches StateChangeStep::Decided(a) && refused(a, "Invalid authorization chain"@)),
            (sender_joined || event_type@ == "m.room.create"@) && auth_chain_valid ==> (
                if event_type@ == "m.room.create"@ {
                    (r matches StateChangeStep::Decided(a) && granted(a))
                } else if event_type@ == "m.room.member"@ {
                    if has_state_key { r is CoordinateMembership } else {
                        (r matches StateChangeStep::Decided(a) && refused(a, "Membership event missing state_key"@))
                    }
                } else {
                    r is CheckAccess
                }),
    {
        let is_create = str_eq(event_type, "m.room.create");
        if !sender_joined && !is_create {
            return StateChangeStep::Decided(AuthorizationResult::denied("Sender is not a member of the room"));
        }
        if !auth_chain_valid {
            return StateChangeStep::Decided(AuthorizationResult::denied("Invalid authorization chain"));
        }
        if is_create {
            StateChangeStep::Decided(AuthorizationResult::authorized())
        } else if str_eq(event_type, "m.room.member") {
            if has_state_key {
                StateChangeStep::CoordinateMembership
            } else {
                StateChangeStep::Decided(AuthorizationResult::denied("Membership event missing state_key"))
            }
        } else {
            StateChangeStep::CheckAccess
        }
    }
}

/// Some event of the auth chain (by its looked-up type) is the room's create event.
pub fn auth_chain_has_create(event_types: &Vec<Option<String>>) -> (r: bool)
    ensures
        r == exists|i: int| 0 <= i < event_types@.len() && (#[trigger] event_types@[i]).is_some()
            && event_types@[i].unwrap()@ == "m.room.create"@,
{
    let mut i: usize = 0;
    while i < event_types.len()
        invariant
            i <= event_types@.len(),
            forall|j: int| 0 <= j < i ==> !((#[trigger] event_types@[j]).is_some() && event_types@[j].unwrap()@ == "m.room.create"@),
        decreases event_types@.len() - i,
    {
        if let Some(t) = &event_types[i] {
            if str_eq(t.as_str(), "m.room.create") {
                return true;
            }
        }
        i = i + 1;
    }
    false
}

/// The membership state a membership event's content names.
pub fn membership_from_content(membership: Option<&str>) -> (r: Result<MembershipState, RepositoryError>)
    ensures
        membership.is_none() ==> r.is_err() && is_validation(r->Err_0, "membership"@, "Membership event must have membership field"@),
        membership.is_some() ==> match crate::membership::membership_from_name(membership.unwrap()@) {
            Some(m) => r == Ok::<MembershipState, RepositoryError>(m),
            None => r.is_err() && is_validation(r->Err_0, "membership"@, "Invalid membership state: "@ + membership.unwrap()@),
        },
{
    match membership {
        None => Err(validation("membership", "Membership event must have membership field")),
        Some(s) => match MembershipState::from_name(s) {
            Some(m) => Ok(m),
            None => Err(RepositoryError::Validation { field: owned("membership"), message: concat2("Invalid membership state: ", s) }),
        },
    }
}

impl<D> RoomAuthorizationService<D> {
    /// The level the room demands for an action: the moderation levels for
    /// ban/kick/invite/redact, the listed (else state-default) level for
    /// `m.room.*` event types, the events default otherwise.
    pub fn get_effective_power_level(&self, power_levels: &RoomPowerLevels, action: &str) -> (r: i64)
        ensures
            r == if action@ == "ban"@ {
                power_levels.ban
            } else if action@ == "kick"@ {
                power_levels.kick
            } else if action@ == "invite"@ {
                power_levels.invite
            } else if action@ == "redact"@ {
                power_levels.redact
            } else if is_prefix_of("m.room."@, action@) {
                power_levels.event_level_or(action@, power_levels.state_default)
            } else {
                power_levels.events_default
            },
    {
        if str_eq(action, "ban") {
            power_levels.ban
        } else if str_eq(action, "kick") {
            power_levels.kick
        } else if str_eq(action, "invite") {
            power_levels.invite
        } else if str_eq(action, "redact") {
            power_levels.redact
        } else if starts_with(action, "m.room.") {
            power_levels.event_level(action, power_levels.state_default)
        } else {
            power_levels.events_default
        }
    }
}

impl<D> RoomAuthorizationService<D> {
    /// Administrators hold level 100 or more.
    pub fn is_room_admin(&self, user_power_level: i64) -> (r: bool)
        ensures
            r == (user_power_level >= 100),
    {
        user_power_level >= 100
    }
}

impl<D> RoomAuthorizationService<D> {
    /// Moderators hold level 50 or more.
    pub fn is_room_moderator(&self, user_power_level: i64) -> (r: bool)
        ensures
            r == (user_power_level >= 50),
    {
        user_power_level >= 50
    }
}

impl<D> RoomAuthorizationService<D> {
    /// Whether a user's level reaches a requirement.
    pub fn check_power_level_requirement(&self, user_power_level: i64, required_level: i64) -> (r: bool)
        ensures
            r == (user_power_level >= required_level),
    {
        user_power_level >= required_level
    }
}


/// The fields of a membership event that its context is read from; the
/// content fields are `None` where the content lacks them or holds a value
/// of another kind.
#[derive(Debug)]
pub struct MemberEventFields {
    pub room_id: String,
    pub event_id: String,
    pub sender: String,
    pub state_key: Option<String>,
    pub origin_server_ts: i64,
    pub membership: Option<String>,
    pub reason: Option<String>,
    pub invited_by: Option<String>,
    pub display_name: Option<String>,
    pub avatar_url: Option<String>,
    pub is_direct: Option<bool>,
    /// The third-party invite, as JSON text.
    pub third_party_invite: Option<String>,
    pub join_authorised_via_users_server: Option<String>,
    pub auth_events: Option<Vec<String>>,
    pub prev_events: Option<Vec<String>>,
}

/// `c` is the context of the event `ev`, whose membership reads as `m`.
pub open spec fn context_of_event(c: MembershipContext, ev: MemberEventFields, m: MembershipState) -> bool {
    &&& Some(c.user_id) == ev.state_key
    &&& c.room_id == ev.room_id
    &&& c.membership == m
    &&& c.sender == ev.sender
    &&& c.reason == ev.reason
    &&& c.invited_by == ev.invited_by
    &&& c.display_name == ev.display_name
    &&& c.avatar_url == ev.avatar_url
    &&& c.is_direct == ev.is_direct
    &&& c.third_party_invite == ev.third_party_invite
    &&& c.join_authorised_via_users_server == ev.join_authorised_via_users_server
    &&& c.event_id == ev.event_id
    &&& c.origin_server_ts == ev.origin_server_ts
    &&& c.auth_events@ == match ev.auth_events { Some(v) => v@, None => Seq::empty() }
    &&& c.prev_events@ == match ev.prev_events { Some(v) => v@, None => Seq::empty() }
}

impl<D> RoomAuthorizationService<D> {
    /// The membership context of a membership event: the event must name its
    /// target in its state key and a known membership in its content.
    pub fn extract_membership_context(&self, ev: MemberEventFields) -> (r: Result<MembershipContext, RepositoryError>)
        ensures
            ev.state_key is None ==> r.is_err() && is_validation(r->Err_0, "state_key"@, "Membership event must have state_key"@),
            ev.state_key is Some && ev.membership is None ==> r.is_err() && is_validation(
                r->Err_0,
                "membership"@,
                "Membership event must have membership field"@,
            ),
            ev.state_key is Some && ev.membership is Some ==> match membership_from_name(ev.membership.unwrap()@) {
                None => r.is_err() && is_validation(
                    r->Err_0,
                    "membership"@,
                    "Invalid membership state: "@ + ev.membership.unwrap()@,
                ),
                Some(m) => r.is_ok() && context_of_event(r->Ok_0, ev, m),
            },
    {
        let ghost old_ev = ev;
        let MemberEventFields {
            room_id, event_id, sender, state_key, origin_server_ts, membership, reason, invited_by, display_name,
            avatar_url, is_direct, third_party_invite, join_authorised_via_users_server, auth_events, prev_events,
        } = ev;
        let target = match state_key {
            Some(t) => t,
            None => {
                proof {
                    reveal_strlit("state_key");
                    reveal_strlit("Membership event must have state_key");
                }
                return Err(validation("state_key", "Membership event must have state_key"));
            },
        };
        let name = match membership {
            Some(m) => m,
            None => {
                proof {
                    reveal_strlit("membership");
                    reveal_strlit("Membership event must have membership field");
                }
                return Err(validation("membership", "Membership event must have membership field"));
            },
        };
        let state = match MembershipState::from_name(name.as_str()) {
            Some(s) => s,
            None => {
                proof {
                    reveal_strlit("membership");
                    reveal_strlit("Invalid membership state: ");
                }
                let msg = concat2("Invalid membership state: ", name.as_str());
                return Err(RepositoryError::Validation { field: owned("membership"), message: msg });
            },
        };
        let auth_events = match auth_events {
            Some(v) => v,
            None => Vec::new(),
        };
        let prev_events = match prev_events {
            Some(v) => v,
            None => Vec::new(),
        };
        Ok(MembershipContext {
            user_id: target,
            room_id,
            membership: state,
            sender,
            reason,
            invited_by,
            display_name,
            avatar_url,
            is_direct,
            third_party_invite,
            join_authorised_via_users_server,
            event_id,
            origin_server_ts,
            auth_events,
            prev_events,
        })
    }
}


impl<D> RoomRepository<D> {
    /// An event's authorization in a room from the access check's result:
    /// refused access is forbidden, with the check's reason (`Unauthorized`
    /// when it gives none).
    pub fn validate_room_authorization(&self, access: AuthorizationResult) -> (r: Result<bool, RepositoryError>)
        ensures
            access.authorized ==> r == Ok::<bool, RepositoryError>(true),
            !access.authorized ==> r.is_err() && is_forbidden(r->Err_0, match access.reason {
                Some(m) => m@,
                None => "Unauthorized"@,
            }),
    {
        if access.authorized {
            return Ok(true);
        }
        let reason = match access.reason {
            Some(m) => m,
            None => owned("Unauthorized"),
        };
        Err(RepositoryError::Forbidden { reason })
    }
}


/// Each moderation action needs the level that the power levels set for
/// it: inviting the invite level, kicking the kick level, banning the ban
/// level, redacting the redact level, state events the state default;
/// changing the power levels needs the level of `m.room.power_levels`
/// events, 100 when none is set.
pub proof fn law_action_levels(pl: RoomPowerLevels)
    ensures
        access_level(pl, "invite"@) == pl.invite,
        access_level(pl, "kick"@) == pl.kick,
        access_level(pl, "ban"@) == pl.ban,
        access_level(pl, "redact"@) == pl.redact,
        access_level(pl, "send_state"@) == pl.state_default,
        access_level(pl, "change_power_levels"@) == pl.event_level_or("m.room.power_levels"@, 100),
        lookup(pl.events@, "m.room.power_levels"@) is None ==> access_level(pl, "change_power_levels"@) == 100,
{
    reveal_strlit("send_message");
    reveal_strlit("send_state");
    reveal_strlit("invite");
    reveal_strlit("kick");
    reveal_strlit("ban");
    reveal_strlit("redact");
    reveal_strlit("change_power_levels");
    assert("invite"@ != "send_message"@ && "invite"@ != "send_state"@) by {
        assert("invite"@.len() != "send_message"@.len());
        assert("invite"@[0] != "send_state"@[0]);
    }
    assert("kick"@ != "send_message"@ && "kick"@ != "send_state"@ && "kick"@ != "invite"@) by {
        assert("kick"@.len() != "send_message"@.len());
        assert("kick"@[0] != "send_state"@[0]);
        assert("kick"@[0] != "invite"@[0]);
    }
    assert("send_state"@ != "send_message"@) by {
        assert("send_state"@.len() != "send_message"@.len());
    }
    assert("ban"@ != "send_message"@ && "ban"@ != "send_state"@ && "ban"@ != "invite"@ && "ban"@ != "kick"@) by {
        assert("ban"@[0] != "send_message"@[0]);
        assert("ban"@[0] != "send_state"@[0]);
        assert("ban"@[0] != "invite"@[0]);
        assert("ban"@[0] != "kick"@[0]);
    }
    assert("redact"@ != "send_message"@ && "redact"@ != "send_state"@ && "redact"@ != "invite"@
        && "redact"@ != "kick"@ && "redact"@ != "ban"@) by {
        assert("redact"@[0] != "send_message"@[0]);
        assert("redact"@[0] != "send_state"@[0]);
        assert("redact"@[0] != "invite"@[0]);
        assert("redact"@[0] != "kick"@[0]);
        assert("redact"@[0] != "ban"@[0]);
    }
    let c = "change_power_levels"@;
    assert(c != "send_message"@ && c != "send_state"@ && c != "invite"@ && c != "kick"@ && c != "ban"@
        && c != "redact"@) by {
        assert(c[0] != "send_message"@[0]);
        assert(c[0] != "send_state"@[0]);
        assert(c[0] != "invite"@[0]);
        assert(c[0] != "kick"@[0]);
        assert(c[0] != "ban"@[0]);
        assert(c[0] != "redact"@[0]);
    }
}
} // verus!
