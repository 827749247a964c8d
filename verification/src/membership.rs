//! Room membership: the states a user can be in, which changes between them
//! are allowed, and what a membership operation writes or refuses.
use vstd::prelude::*;
use crate::error::{RepositoryError, is_not_found, is_validation, is_conflict, is_unauthorized, not_found, validation, conflict, unauthorized, owned, concat3};
use crate::text::{str_eq, after_last_colon, after_last_colon_exec, opt_view, opt_str_view};

verus! {

/// The membership state of a user in a room.
#[derive(PartialEq, Eq, Structural, Clone, Copy, Debug)]
pub enum MembershipState {
    Join,
    Leave,
    Invite,
    Ban,
    Knock,
}

/// The wire name of a membership state.
pub open spec fn membership_name(m: MembershipState) -> Seq<char> {
    match m {
        MembershipState::Join => "join"@,
        MembershipState::Leave => "leave"@,
        MembershipState::Invite => "invite"@,
        MembershipState::Ban => "ban"@,
        MembershipState::Knock => "knock"@,
    }
}

/// The membership state that a wire name denotes, if any.
pub open spec fn membership_from_name(s: Seq<char>) -> Option<MembershipState> {
    if s == "join"@ {
        Some(MembershipState::Join)
    } else if s == "leave"@ {
        Some(MembershipState::Leave)
    } else if s == "invite"@ {
        Some(MembershipState::Invite)
    } else if s == "ban"@ {
        Some(MembershipState::Ban)
    } else if s == "knock"@ {
        Some(MembershipState::Knock)
    } else {
        None
    }
}

/// The state a stored membership name stands for: an unknown name reads as `Leave`.
pub open spec fn membership_or_leave(s: Seq<char>) -> MembershipState {
    match membership_from_name(s) {
        Some(m) => m,
        None => MembershipState::Leave,
    }
}

/// Room memberships: the decisions of each operation are here; the handle
/// `D` is what the caller reads and writes the store with.
pub struct MembershipRepository<D> {
    db: D,
}

impl<D> MembershipRepository<D> {
    /// The store handle this repository was made with.
    pub closed spec fn handle(&self) -> D {
        self.db
    }

    pub fn new(db: D) -> (r: Self)
        ensures
            r.handle() == db,
    {
        MembershipRepository { db }
    }

    /// The store handle.
    pub fn db(&self) -> (r: &D)
        ensures
            *r == self.handle(),
    {
        &self.db
    }
}

impl MembershipState {
    /// The wire name of the state.
    pub fn as_str(&self) -> (r: &'static str)
        ensures
            r@ == membership_name(*self),
    {
        match self {
            MembershipState::Join => "join",
            MembershipState::Leave => "leave",
            MembershipState::Invite => "invite",
            MembershipState::Ban => "ban",
            MembershipState::Knock => "knock",
        }
    }

    /// The state that a wire name denotes, if any.
    pub fn from_name(s: &str) -> (r: Option<MembershipState>)
        ensures
            r == membership_from_name(s@),
    {
        if str_eq(s, "join") {
            Some(MembershipState::Join)
        } else if str_eq(s, "leave") {
            Some(MembershipState::Leave)
        } else if str_eq(s, "invite") {
            Some(MembershipState::Invite)
        } else if str_eq(s, "ban") {
            Some(MembershipState::Ban)
        } else if str_eq(s, "knock") {
            Some(MembershipState::Knock)
        } else {
            None
        }
    }

    /// The state that a stored name stands for, `Leave` when the name is unknown.
    pub fn from_name_or_leave(s: &str) -> (r: MembershipState)
        ensures
            r == membership_or_leave(s@),
    {
        match MembershipState::from_name(s) {
            Some(m) => m,
            None => MembershipState::Leave,
        }
    }
}

/// Every state's name reads back as that state.
pub proof fn law_membership_name_roundtrip(m: MembershipState)
    ensures
        membership_from_name(membership_name(m)) == Some(m),
{
    reveal_strlit("join");
    reveal_strlit("leave");
    reveal_strlit("invite");
    reveal_strlit("ban");
    reveal_strlit("knock");
    assert("join"@.len() == 4 && "leave"@.len() == 5 && "invite"@.len() == 6);
    assert("ban"@.len() == 3 && "knock"@.len() == 5);
    assert("knock"@[0] != "leave"@[0]);
}


/// A membership record as the repository stores it (the time of the change
/// is stamped when it is written).
#[derive(Debug)]
pub struct Membership {
    pub user_id: String,
    pub room_id: String,
    pub membership: MembershipState,
    pub reason: Option<String>,
    pub invited_by: Option<String>,
    pub display_name: Option<String>,
    pub avatar_url: Option<String>,
    pub is_direct: Option<bool>,
    /// The third-party invite, as JSON text.
    pub third_party_invite: Option<String>,
    pub join_authorised_via_users_server: Option<String>,
}

/// Whether a membership record is written as a new record or over an existing one.
#[derive(PartialEq, Eq, Structural, Clone, Copy, Debug)]
pub enum WriteMode {
    Create,
    Update,
}

/// A membership record to write, and how.
#[derive(Debug)]
pub struct MembershipWrite {
    pub mode: WriteMode,
    pub record: Membership,
}

/// A copy of an optional text.
pub fn clone_opt(o: &Option<String>) -> (r: Option<String>)
    ensures
        r == *o,
{
    match o {
        Some(t) => Some(t.clone()),
        None => None,
    }
}

/// An optional owned copy of an optional text slice.
pub fn opt_owned(o: Option<&str>) -> (r: Option<String>)
    ensures
        opt_view(r) == opt_str_view(o),
        r.is_some() == o.is_some(),
        r.is_some() ==> r.unwrap()@ == o.unwrap()@,
{
    match o {
        Some(t) => Some(owned(t)),
        None => None,
    }
}

/// A record with only the identifying fields, the state, a reason and an inviter set.
pub open spec fn bare_record(
    rec: Membership,
    room_id: Seq<char>,
    user_id: Seq<char>,
    state: MembershipState,
) -> bool {
    &&& rec.room_id@ == room_id
    &&& rec.user_id@ == user_id
    &&& rec.membership == state
    &&& rec.display_name.is_none()
    &&& rec.avatar_url.is_none()
    &&& rec.is_direct.is_none()
    &&& rec.third_party_invite.is_none()
}

/// Which changes of membership state are allowed. `sender_is_target` tells
/// whether the user sending the change is the user whose membership changes;
/// `sender_in_room` whether the sender is joined to the room.
pub open spec fn transition_allowed(
    old: MembershipState,
    new: MembershipState,
    sender_is_target: bool,
    sender_in_room: bool,
) -> bool {
    match (old, new) {
        (MembershipState::Leave, MembershipState::Join) => true,
        (MembershipState::Leave, MembershipState::Invite) => true,
        (MembershipState::Leave, MembershipState::Knock) => true,
        (MembershipState::Leave, MembershipState::Ban) => true,
        (MembershipState::Invite, MembershipState::Join) => sender_is_target,
        (MembershipState::Invite, MembershipState::Leave) => sender_is_target || sender_in_room,
        (MembershipState::Invite, MembershipState::Ban) => true,
        (MembershipState::Join, MembershipState::Leave) => true,
        (MembershipState::Join, MembershipState::Ban) => true,
        (MembershipState::Knock, MembershipState::Join) => true,
        (MembershipState::Knock, MembershipState::Invite) => true,
        (MembershipState::Knock, MembershipState::Leave) => true,
        (MembershipState::Knock, MembershipState::Ban) => true,
        (MembershipState::Ban, MembershipState::Leave) => true,
        _ => old == new,
    }
}

impl<D> MembershipRepository<D> {
    /// Whether the change of a user's membership from `old_state` to `new_state`
    /// is allowed. `sender_in_room` is consulted only for withdrawing an invite
    /// sent by someone other than the invitee.
    pub fn validate_membership_transition(
        &self,
        old_state: MembershipState,
        new_state: MembershipState,
        user_id: &str,
        sender: &str,
        sender_in_room: bool,
    ) -> (r: bool)
        ensures
            r == transition_allowed(old_state, new_state, sender@ == user_id@, sender_in_room),
    {
        let sender_is_target = str_eq(sender, user_id);
        match (old_state, new_state) {
            (MembershipState::Leave, MembershipState::Join) => true,
            (MembershipState::Leave, MembershipState::Invite) => true,
            (MembershipState::Leave, MembershipState::Knock) => true,
            (MembershipState::Leave, MembershipState::Ban) => true,
            (MembershipState::Invite, MembershipState::Join) => sender_is_target,
            (MembershipState::Invite, MembershipState::Leave) => sender_is_target || sender_in_room,
            (MembershipState::Invite, MembershipState::Ban) => true,
            (MembershipState::Join, MembershipState::Leave) => true,
            (MembershipState::Join, MembershipState::Ban) => true,
            (MembershipState::Knock, MembershipState::Join) => true,
            (MembershipState::Knock, MembershipState::Invite) => true,
            (MembershipState::Knock, MembershipState::Leave) => true,
            (MembershipState::Knock, MembershipState::Ban) => true,
            (MembershipState::Ban, MembershipState::Leave) => true,
            _ => old_state == new_state,
        }
    }
}

/// Whether checking a transition needs to know if the sender is in the room.
pub fn transition_needs_sender_membership(
    old_state: MembershipState,
    new_state: MembershipState,
    user_id: &str,
    sender: &str,
) -> (r: bool)
    ensures
        r == (old_state == MembershipState::Invite && new_state == MembershipState::Leave
            && sender@ != user_id@),
        !r ==> transition_allowed(old_state, new_state, sender@ == user_id@, true)
            == transition_allowed(old_state, new_state, sender@ == user_id@, false),
{
    old_state == MembershipState::Invite && new_state == MembershipState::Leave && !str_eq(
        sender,
        user_id,
    )
}

/// No change leads out of a ban but lifting it: from `Ban` only `Leave` (or
/// staying banned) is allowed, whoever sends the change.
pub proof fn law_ban_only_lifts_to_leave(
    new: MembershipState,
    sender_is_target: bool,
    sender_in_room: bool,
)
    requires
        transition_allowed(MembershipState::Ban, new, sender_is_target, sender_in_room),
    ensures
        new == MembershipState::Leave || new == MembershipState::Ban,
{
}

/// Only the invitee can accept an invite: from `Invite` to `Join` the sender
/// must be the invited user.
pub proof fn law_only_invitee_accepts(sender_is_target: bool, sender_in_room: bool)
    requires
        transition_allowed(
            MembershipState::Invite,
            MembershipState::Join,
            sender_is_target,
            sender_in_room,
        ),
    ensures
        sender_is_target,
{
}

/// A joined member is never invited or made to knock directly.
pub proof fn law_join_moves_only_to_leave_or_ban(
    new: MembershipState,
    sender_is_target: bool,
    sender_in_room: bool,
)
    requires
        transition_allowed(MembershipState::Join, new, sender_is_target, sender_in_room),
    ensures
        new == MembershipState::Join || new == MembershipState::Leave || new
            == MembershipState::Ban,
{
}

/// Every state may be kept (a profile update keeps the state).
pub proof fn law_same_state_allowed(m: MembershipState, sender_is_target: bool, sender_in_room: bool)
    ensures
        transition_allowed(m, m, sender_is_target, sender_in_room),
{
}

/// Whether a requested membership change is acceptable given the sender's and
/// the target's current state.
pub open spec fn membership_change_allowed(
    sender_in_room: bool,
    current: Option<MembershipState>,
    new: MembershipState,
) -> bool {
    sender_in_room && match new {
        MembershipState::Ban => current != Some(MembershipState::Ban),
        MembershipState::Leave => current == Some(MembershipState::Join) || current == Some(
            MembershipState::Invite,
        ),
        MembershipState::Invite => current != Some(MembershipState::Join) && current != Some(
            MembershipState::Invite,
        ),
        MembershipState::Join => true,
        MembershipState::Knock => current != Some(MembershipState::Join),
    }
}

impl<D> MembershipRepository<D> {
    /// Whether the sender (joined to the room or not) may change the target's
    /// membership from `current` to `new_membership`.
    pub fn validate_membership_change(
        &self,
        sender_in_room: bool,
        current: Option<MembershipState>,
        new_membership: MembershipState,
    ) -> (r: bool)
        ensures
            r == membership_change_allowed(sender_in_room, current, new_membership),
    {
        if !sender_in_room {
            return false;
        }
        match new_membership {
            MembershipState::Ban => current != Some(MembershipState::Ban),
            MembershipState::Leave => current == Some(MembershipState::Join) || current == Some(
                MembershipState::Invite,
            ),
            MembershipState::Invite => current != Some(MembershipState::Join) && current != Some(
                MembershipState::Invite,
            ),
            MembershipState::Join => true,
            MembershipState::Knock => current != Some(MembershipState::Join),
        }
    }
}

/// The rules a membership change must satisfy before it is applied.
pub open spec fn membership_rules_allow(
    sender_is_target: bool,
    new: MembershipState,
    target_current: Option<MembershipState>,
    sender_in_room: bool,
) -> bool {
    if sender_is_target {
        match new {
            MembershipState::Join => match target_current {
                Some(m) => m == MembershipState::Invite,
                None => true,
            },
            MembershipState::Leave => true,
            MembershipState::Knock => true,
            _ => false,
        }
    } else {
        match new {
            MembershipState::Invite | MembershipState::Ban | MembershipState::Leave => sender_in_room,
            _ => false,
        }
    }
}

impl<D> MembershipRepository<D> {
    /// Whether the membership rules allow `sender` to move `target_user` to
    /// `new_membership`, given the target's current state and whether the sender
    /// is joined to the room.
    pub fn apply_membership_rules(
        &self,
        sender: &str,
        target_user: &str,
        new_membership: MembershipState,
        target_current: Option<MembershipState>,
        sender_in_room: bool,
    ) -> (r: bool)
        ensures
            r == membership_rules_allow(sender@ == target_user@, new_membership, target_current, sender_in_room),
    {
        if str_eq(sender, target_user) {
            match new_membership {
                MembershipState::Join => match target_current {
                    Some(m) => m == MembershipState::Invite,
                    None => true,
                },
                MembershipState::Leave => true,
                MembershipState::Knock => true,
                _ => false,
            }
        } else {
            match new_membership {
                MembershipState::Invite | MembershipState::Ban | MembershipState::Leave => sender_in_room,
                _ => false,
            }
        }
    }
}

/// Nobody can join or knock on behalf of someone else.
pub proof fn law_no_join_or_knock_for_others(
    new: MembershipState,
    target_current: Option<MembershipState>,
    sender_in_room: bool,
)
    requires
        new == MembershipState::Join || new == MembershipState::Knock,
    ensures
        !membership_rules_allow(false, new, target_current, sender_in_room),
{
}

/// Nobody can invite or ban themselves.
pub proof fn law_no_self_invite_or_ban(
    new: MembershipState,
    target_current: Option<MembershipState>,
    sender_in_room: bool,
)
    requires
        new == MembershipState::Invite || new == MembershipState::Ban,
    ensures
        !membership_rules_allow(true, new, target_current, sender_in_room),
{
}


/// The message of a refusal to let `actor` do `what` in `room_id`.
pub open spec fn not_authorized_msg(actor: Seq<char>, what: Seq<char>, room_id: Seq<char>) -> Seq<char> {
    "User "@ + actor + what + room_id
}

fn not_authorized(actor: &str, what: &str, room_id: &str) -> (e: RepositoryError)
    ensures
        is_unauthorized(e, not_authorized_msg(actor@, what@, room_id@)),
{
    let mut s = concat3("User ", actor, what);
    s.append(room_id);
    unauthorized(s)
}

/// The id of a membership record: `room_id:user_id`.
pub open spec fn membership_key(room_id: Seq<char>, user_id: Seq<char>) -> Seq<char> {
    room_id + ":"@ + user_id
}

fn membership_not_found(room_id: &str, user_id: &str) -> (e: RepositoryError)
    ensures
        is_not_found(e, "Membership"@, membership_key(room_id@, user_id@)),
{
    let id = concat3(room_id, ":", user_id);
    RepositoryError::NotFound { entity_type: owned("Membership"), id }
}

/// The state of an optional record.
pub open spec fn state_of(existing: Option<&Membership>) -> Option<MembershipState> {
    match existing {
        Some(m) => Some(m.membership),
        None => None,
    }
}

/// `Update` over an existing record, `Create` otherwise.
pub open spec fn mode_for(existing: Option<&Membership>) -> WriteMode {
    if existing.is_some() { WriteMode::Update } else { WriteMode::Create }
}

impl<D> MembershipRepository<D> {
    /// Inviting `user_id` by `inviter_id`: refused when the user is already
    /// joined or invited (conflict) or banned (validation), then when the inviter
    /// is not joined; otherwise an invite record is written.
    pub fn invite_user_to_room(
        &self,
        existing: Option<&Membership>,
        inviter_in_room: bool,
        room_id: &str,
        user_id: &str,
        inviter_id: &str,
        reason: Option<String>,
    ) -> (r: Result<MembershipWrite, RepositoryError>)
        ensures
            state_of(existing) == Some(MembershipState::Join) ==> r.is_err() && is_conflict(
                r->Err_0,
                "User is already joined to the room"@,
            ),
            state_of(existing) == Some(MembershipState::Invite) ==> r.is_err() && is_conflict(
                r->Err_0,
                "User is already invited to the room"@,
            ),
            state_of(existing) == Some(MembershipState::Ban) ==> r.is_err() && is_validation(
                r->Err_0,
                "membership"@,
                "Cannot invite banned user"@,
            ),
            (state_of(existing) != Some(MembershipState::Join) && state_of(existing) != Some(
                MembershipState::Invite,
            ) && state_of(existing) != Some(MembershipState::Ban) && !inviter_in_room) ==> r.is_err()
                && is_unauthorized(
                r->Err_0,
                not_authorized_msg(inviter_id@, " not authorized to invite users to room "@, room_id@),
            ),
            r.is_ok() <==> (state_of(existing) != Some(MembershipState::Join) && state_of(existing)
                != Some(MembershipState::Invite) && state_of(existing) != Some(MembershipState::Ban)
                && inviter_in_room),
            r.is_ok() ==> ({
                let w = r->Ok_0;
                &&& w.mode == mode_for(existing)
                &&& bare_record(w.record, room_id@, user_id@, MembershipState::Invite)
                &&& w.record.reason == reason
                &&& w.record.invited_by.is_some() && w.record.invited_by.unwrap()@ == inviter_id@
                &&& w.record.join_authorised_via_users_server.is_none()
            }),
    {
        if let Some(m) = existing {
            match m.membership {
                MembershipState::Join => {
                    return Err(conflict("User is already joined to the room"));
                },
                MembershipState::Invite => {
                    return Err(conflict("User is already invited to the room"));
                },
                MembershipState::Ban => {
                    return Err(validation("membership", "Cannot invite banned user"));
                },
                _ => {},
            }
        }
        if !inviter_in_room {
            return Err(not_authorized(inviter_id, " not authorized to invite users to room ", room_id));
        }
        let record = Membership {
            user_id: owned(user_id),
            room_id: owned(room_id),
            membership: MembershipState::Invite,
            reason,
            invited_by: Some(owned(inviter_id)),
            display_name: None,
            avatar_url: None,
            is_direct: None,
            third_party_invite: None,
            join_authorised_via_users_server: None,
        };
        let mode = if existing.is_some() { WriteMode::Update } else { WriteMode::Create };
        Ok(MembershipWrite { mode, record })
    }
}

impl<D> MembershipRepository<D> {
    /// Banning `user_id` by `banner_id`: refused when the banner is not joined,
    /// then when the user is already banned; otherwise a ban record keeping the
    /// user's display name and avatar is written.
    pub fn ban_user_from_room(
        &self,
        existing: Option<&Membership>,
        banner_in_room: bool,
        room_id: &str,
        user_id: &str,
        banner_id: &str,
        reason: Option<String>,
    ) -> (r: Result<MembershipWrite, RepositoryError>)
        ensures
            !banner_in_room ==> r.is_err() && is_unauthorized(
                r->Err_0,
                not_authorized_msg(banner_id@, " not authorized to ban users from room "@, room_id@),
            ),
            banner_in_room && state_of(existing) == Some(MembershipState::Ban) ==> r.is_err()
                && is_conflict(r->Err_0, "User is already banned from the room"@),
            r.is_ok() <==> (banner_in_room && state_of(existing) != Some(MembershipState::Ban)),
            r.is_ok() ==> ({
                let w = r->Ok_0;
                &&& w.mode == mode_for(existing)
                &&& w.record.room_id@ == room_id@
                &&& w.record.user_id@ == user_id@
                &&& w.record.membership == MembershipState::Ban
                &&& w.record.reason == reason
                &&& w.record.invited_by.is_none()
                &&& w.record.display_name == (match existing {
                    Some(m) => m.display_name,
                    None => None,
                })
                &&& w.record.avatar_url == (match existing {
                    Some(m) => m.avatar_url,
                    None => None,
                })
                &&& w.record.is_direct.is_none()
                &&& w.record.third_party_invite.is_none()
                &&& w.record.join_authorised_via_users_server.is_none()
            }),
    {
        if !banner_in_room {
            return Err(not_authorized(banner_id, " not authorized to ban users from room ", room_id));
        }
        if let Some(m) = existing {
            if m.membership == MembershipState::Ban {
                return Err(conflict("User is already banned from the room"));
            }
        }
        let (display_name, avatar_url) = match existing {
            Some(m) => (clone_opt(&m.display_name), clone_opt(&m.avatar_url)),
            None => (None, None),
        };
        let record = Membership {
            user_id: owned(user_id),
            room_id: owned(room_id),
            membership: MembershipState::Ban,
            reason,
            invited_by: None,
            display_name,
            avatar_url,
            is_direct: None,
            third_party_invite: None,
            join_authorised_via_users_server: None,
        };
        let mode = if existing.is_some() { WriteMode::Update } else { WriteMode::Create };
        Ok(MembershipWrite { mode, record })
    }
}

/// The record keeps everything of `m` but the state and the reason.
pub open spec fn keeps_profile(rec: Membership, m: Membership) -> bool {
    &&& rec.display_name == m.display_name
    &&& rec.avatar_url == m.avatar_url
    &&& rec.is_direct == m.is_direct
    &&& rec.third_party_invite == m.third_party_invite
    &&& rec.join_authorised_via_users_server == m.join_authorised_via_users_server
}

/// A copy of a record's profile fields into a new record.
fn with_state(
    m: &Membership,
    room_id: &str,
    user_id: &str,
    state: MembershipState,
    reason: Option<String>,
    invited_by: Option<String>,
) -> (rec: Membership)
    ensures
        rec.room_id@ == room_id@,
        rec.user_id@ == user_id@,
        rec.membership == state,
        rec.reason == reason,
        rec.invited_by == invited_by,
        keeps_profile(rec, *m),
{
    Membership {
        user_id: owned(user_id),
        room_id: owned(room_id),
        membership: state,
        reason,
        invited_by,
        display_name: clone_opt(&m.display_name),
        avatar_url: clone_opt(&m.avatar_url),
        is_direct: m.is_direct,
        third_party_invite: clone_opt(&m.third_party_invite),
        join_authorised_via_users_server: clone_opt(&m.join_authorised_via_users_server),
    }
}

impl<D> MembershipRepository<D> {
    /// Leaving a room: refused without a membership (not found), after leaving
    /// (conflict) and while banned (validation); otherwise the record becomes
    /// `Leave`, keeping the inviter and the profile.
    pub fn leave_room(
        &self,
        existing: Option<&Membership>,
        room_id: &str,
        user_id: &str,
        reason: Option<String>,
    ) -> (r: Result<MembershipWrite, RepositoryError>)
        ensures
            existing.is_none() ==> r.is_err() && is_not_found(
                r->Err_0,
                "Membership"@,
                membership_key(room_id@, user_id@),
            ),
            state_of(existing) == Some(MembershipState::Leave) ==> r.is_err() && is_conflict(
                r->Err_0,
                "User has already left the room"@,
            ),
            state_of(existing) == Some(MembershipState::Ban) ==> r.is_err() && is_validation(
                r->Err_0,
                "membership"@,
                "Cannot leave room while banned"@,
            ),
            r.is_ok() <==> (state_of(existing) == Some(MembershipState::Join) || state_of(existing)
                == Some(MembershipState::Invite) || state_of(existing) == Some(MembershipState::Knock)),
            r.is_ok() ==> ({
                let w = r->Ok_0;
                let m = *existing.unwrap();
                &&& w.mode == WriteMode::Update
                &&& w.record.room_id@ == room_id@
                &&& w.record.user_id@ == user_id@
                &&& w.record.membership == MembershipState::Leave
                &&& w.record.reason == reason
                &&& w.record.invited_by == m.invited_by
                &&& keeps_profile(w.record, m)
            }),
    {
        match existing {
            None => Err(membership_not_found(room_id, user_id)),
            Some(m) => match m.membership {
                MembershipState::Leave => Err(conflict("User has already left the room")),
                MembershipState::Ban => Err(validation("membership", "Cannot leave room while banned")),
                _ => {
                    let record = with_state(
                        m,
                        room_id,
                        user_id,
                        MembershipState::Leave,
                        reason,
                        clone_opt(&m.invited_by),
                    );
                    Ok(MembershipWrite { mode: WriteMode::Update, record })
                },
            },
        }
    }
}

impl<D> MembershipRepository<D> {
    /// Forgetting a room is allowed only after leaving it or being banned.
    pub fn forget_room_membership(
        &self,
        existing: Option<MembershipState>,
        room_id: &str,
        user_id: &str,
    ) -> (r: Result<(), RepositoryError>)
        ensures
            existing.is_none() ==> r.is_err() && is_not_found(
                r->Err_0,
                "Membership"@,
                membership_key(room_id@, user_id@),
            ),
            r.is_ok() <==> (existing == Some(MembershipState::Leave) || existing == Some(
                MembershipState::Ban,
            )),
            existing.is_some() && r.is_err() ==> is_validation(
                r->Err_0,
                "membership"@,
                "Cannot forget room while still a member. Leave the room first."@,
            ),
    {
        match existing {
            None => Err(membership_not_found(room_id, user_id)),
            Some(MembershipState::Leave) | Some(MembershipState::Ban) => Ok(()),
            Some(_) => Err(
                validation(
                    "membership",
                    "Cannot forget room while still a member. Leave the room first.",
                ),
            ),
        }
    }
}

impl<D> MembershipRepository<D> {
    /// Accepting a knock turns it into an invite by the accepter.
    pub fn accept_knock(
        &self,
        existing: Option<&Membership>,
        accepter_in_room: bool,
        room_id: &str,
        user_id: &str,
        accepter_id: &str,
    ) -> (r: Result<MembershipWrite, RepositoryError>)
        ensures
            existing.is_none() ==> r.is_err() && is_not_found(
                r->Err_0,
                "Membership"@,
                membership_key(room_id@, user_id@),
            ),
            existing.is_some() && state_of(existing) != Some(MembershipState::Knock) ==> r.is_err()
                && is_validation(r->Err_0, "membership"@, "User has not knocked on this room"@),
            state_of(existing) == Some(MembershipState::Knock) && !accepter_in_room ==> r.is_err()
                && is_unauthorized(
                r->Err_0,
                not_authorized_msg(accepter_id@, " not authorized to accept knocks in room "@, room_id@),
            ),
            r.is_ok() <==> (state_of(existing) == Some(MembershipState::Knock) && accepter_in_room),
            r.is_ok() ==> ({
                let w = r->Ok_0;
                &&& w.mode == WriteMode::Update
                &&& w.record.room_id@ == room_id@
                &&& w.record.user_id@ == user_id@
                &&& w.record.membership == MembershipState::Invite
                &&& w.record.reason.is_some() && w.record.reason.unwrap()@ == "Knock accepted"@
                &&& w.record.invited_by.is_some() && w.record.invited_by.unwrap()@ == accepter_id@
                &&& keeps_profile(w.record, *existing.unwrap())
            }),
    {
        match existing {
            None => Err(membership_not_found(room_id, user_id)),
            Some(m) => {
                if m.membership != MembershipState::Knock {
                    return Err(validation("membership", "User has not knocked on this room"));
                }
                if !accepter_in_room {
                    return Err(
                        not_authorized(accepter_id, " not authorized to accept knocks in room ", room_id),
                    );
                }
                let record = with_state(
                    m,
                    room_id,
                    user_id,
                    MembershipState::Invite,
                    Some(owned("Knock accepted")),
                    Some(owned(accepter_id)),
                );
                Ok(MembershipWrite { mode: WriteMode::Update, record })
            },
        }
    }
}

impl<D> MembershipRepository<D> {
    /// Rejecting a knock turns it into `Leave`, with the given reason or
    /// "Knock rejected".
    pub fn reject_knock(
        &self,
        existing: Option<&Membership>,
        rejecter_in_room: bool,
        room_id: &str,
        user_id: &str,
        rejecter_id: &str,
        reason: Option<String>,
    ) -> (r: Result<MembershipWrite, RepositoryError>)
        ensures
            existing.is_none() ==> r.is_err() && is_not_found(
                r->Err_0,
                "Membership"@,
                membership_key(room_id@, user_id@),
            ),
            existing.is_some() && state_of(existing) != Some(MembershipState::Knock) ==> r.is_err()
                && is_validation(r->Err_0, "membership"@, "User has not knocked on this room"@),
            state_of(existing) == Some(MembershipState::Knock) && !rejecter_in_room ==> r.is_err()
                && is_unauthorized(
                r->Err_0,
                not_authorized_msg(rejecter_id@, " not authorized to reject knocks in room "@, room_id@),
            ),
            r.is_ok() <==> (state_of(existing) == Some(MembershipState::Knock) && rejecter_in_room),
            r.is_ok() ==> ({
                let w = r->Ok_0;
                &&& w.mode == WriteMode::Update
                &&& w.record.room_id@ == room_id@
                &&& w.record.user_id@ == user_id@
                &&& w.record.membership == MembershipState::Leave
                &&& w.record.reason.is_some()
                &&& w.record.reason.unwrap()@ == (match reason {
                    Some(t) => t@,
                    None => "Knock rejected"@,
                })
                &&& w.record.invited_by == existing.unwrap().invited_by
                &&& keeps_profile(w.record, *existing.unwrap())
            }),
    {
        match existing {
            None => Err(membership_not_found(room_id, user_id)),
            Some(m) => {
                if m.membership != MembershipState::Knock {
                    return Err(validation("membership", "User has not knocked on this room"));
                }
                if !rejecter_in_room {
                    return Err(
                        not_authorized(rejecter_id, " not authorized to reject knocks in room ", room_id),
                    );
                }
                let reason = match reason {
                    Some(t) => Some(t),
                    None => Some(owned("Knock rejected")),
                };
                let record = with_state(
                    m,
                    room_id,
                    user_id,
                    MembershipState::Leave,
                    reason,
                    clone_opt(&m.invited_by),
                );
                Ok(MembershipWrite { mode: WriteMode::Update, record })
            },
        }
    }
}


/// A joined member may always leave (or be kicked) and may always be
/// banned, whoever sends the change.
pub proof fn law_joined_member_may_leave_or_be_banned(sender_is_target: bool, sender_in_room: bool)
    ensures
        transition_allowed(MembershipState::Join, MembershipState::Leave, sender_is_target, sender_in_room),
        transition_allowed(MembershipState::Join, MembershipState::Ban, sender_is_target, sender_in_room),
{
}

/// Someone who has left may join, be invited, knock or be banned; an
/// invitee may reject the invite; a ban may be lifted; a knock may be
/// accepted or answered in any way.
pub proof fn law_open_transitions(sender_is_target: bool, sender_in_room: bool)
    ensures
        transition_allowed(MembershipState::Leave, MembershipState::Join, sender_is_target, sender_in_room),
        transition_allowed(MembershipState::Leave, MembershipState::Invite, sender_is_target, sender_in_room),
        transition_allowed(MembershipState::Leave, MembershipState::Knock, sender_is_target, sender_in_room),
        transition_allowed(MembershipState::Leave, MembershipState::Ban, sender_is_target, sender_in_room),
        transition_allowed(MembershipState::Invite, MembershipState::Join, true, sender_in_room),
        transition_allowed(MembershipState::Invite, MembershipState::Leave, true, sender_in_room),
        transition_allowed(MembershipState::Invite, MembershipState::Leave, sender_is_target, true),
        transition_allowed(MembershipState::Invite, MembershipState::Ban, sender_is_target, sender_in_room),
        transition_allowed(MembershipState::Ban, MembershipState::Leave, sender_is_target, sender_in_room),
        transition_allowed(MembershipState::Knock, MembershipState::Join, sender_is_target, sender_in_room),
        transition_allowed(MembershipState::Knock, MembershipState::Invite, sender_is_target, sender_in_room),
        transition_allowed(MembershipState::Knock, MembershipState::Leave, sender_is_target, sender_in_room),
        transition_allowed(MembershipState::Knock, MembershipState::Ban, sender_is_target, sender_in_room),
{
}
} // verus!
