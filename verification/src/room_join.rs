//! Joining a room by id or alias: which room is meant, whether the user may
//! join, and the membership the join writes.
use vstd::prelude::*;
use crate::error::{RepositoryError, owned, is_not_found, is_validation, is_unauthorized, not_found, validation, unauthorized};
use crate::membership::{Membership, MembershipState, MembershipRepository};
use crate::room::RoomRepository;
use crate::text::{starts_with, is_prefix_of};

verus! {

/// The outcome of a join.
#[derive(Debug)]
pub struct JoinResult {
    pub room_id: String,
    pub event_id: String,
    pub success: bool,
}

/// What a room identifier names: an alias to resolve, or a room id.
#[derive(Debug)]
pub enum RoomTarget {
    Alias(String),
    RoomId(String),
}

/// Joining rooms, with the repositories it consults; `E` is the event
/// store and `U` the user store.
pub struct RoomJoinService<D, E, U> {
    room_repo: RoomRepository<D>,
    membership_repo: MembershipRepository<D>,
    event_repo: E,
    user_repo: U,
}

impl<D, E, U> RoomJoinService<D, E, U> {
    /// The room repository it was made with.
    pub closed spec fn rooms(&self) -> RoomRepository<D> {
        self.room_repo
    }

    /// The membership repository it was made with.
    pub closed spec fn memberships(&self) -> MembershipRepository<D> {
        self.membership_repo
    }

    /// The event store it was made with.
    pub closed spec fn events(&self) -> E {
        self.event_repo
    }

    /// The user store it was made with.
    pub closed spec fn users(&self) -> U {
        self.user_repo
    }

    pub fn new(room_repo: RoomRepository<D>, membership_repo: MembershipRepository<D>, event_repo: E, user_repo: U) -> (r: Self)
        ensures
            r.rooms() == room_repo,
            r.memberships() == membership_repo,
            r.events() == event_repo,
            r.users() == user_repo,
    {
        RoomJoinService { room_repo, membership_repo, event_repo, user_repo }
    }

    /// The room repository.
    pub fn room_repo(&self) -> (r: &RoomRepository<D>)
        ensures
            *r == self.rooms(),
    {
        &self.room_repo
    }

    /// The membership repository.
    pub fn membership_repo(&self) -> (r: &MembershipRepository<D>)
        ensures
            *r == self.memberships(),
    {
        &self.membership_repo
    }

    /// The event store.
    pub fn event_repo(&self) -> (r: &E)
        ensures
            *r == self.events(),
    {
        &self.event_repo
    }

    /// The user store.
    pub fn user_repo(&self) -> (r: &U)
        ensures
            *r == self.users(),
    {
        &self.user_repo
    }

    /// What `room_id_or_alias` names: an alias when it starts with `#`, a
    /// room id when it starts with `!`; anything else is refused.
    pub fn room_target(&self, room_id_or_alias: &str) -> (r: Result<RoomTarget, RepositoryError>)
        ensures
            is_prefix_of("#"@, room_id_or_alias@) ==> (r matches Ok(RoomTarget::Alias(a)) && a@ == room_id_or_alias@),
            !is_prefix_of("#"@, room_id_or_alias@) && is_prefix_of("!"@, room_id_or_alias@) ==> (r matches Ok(
                RoomTarget::RoomId(id),
            ) && id@ == room_id_or_alias@),
            !is_prefix_of("#"@, room_id_or_alias@) && !is_prefix_of("!"@, room_id_or_alias@) ==> r.is_err()
                && is_validation(r->Err_0, "room_id_or_alias"@, "Invalid room identifier format"@),
    {
        if starts_with(room_id_or_alias, "#") {
            Ok(RoomTarget::Alias(owned(room_id_or_alias)))
        } else if starts_with(room_id_or_alias, "!") {
            Ok(RoomTarget::RoomId(owned(room_id_or_alias)))
        } else {
            Err(validation("room_id_or_alias", "Invalid room identifier format"))
        }
    }

    /// The room an alias resolved to, which must exist.
    pub fn resolved_room(&self, alias: &str, resolved: Option<String>) -> (r: Result<String, RepositoryError>)
        ensures
            match resolved {
                Some(id) => r == Ok::<String, RepositoryError>(id),
                None => r.is_err() && is_not_found(r->Err_0, "Room alias"@, alias@),
            },
    {
        match resolved {
            Some(id) => Ok(id),
            None => Err(not_found("Room alias", alias)),
        }
    }

    /// Whether a user may join: it is valid for joining, the room exists,
    /// it is neither joined nor banned already, and the room is joinable
    /// for it.
    pub fn validate_join_request(
        &self,
        user_valid: bool,
        room_exists: bool,
        membership: Option<MembershipState>,
        room_joinable: bool,
    ) -> (r: bool)
        ensures
            r == (user_valid && room_exists && membership != Some(MembershipState::Join) && membership != Some(
                MembershipState::Ban,
            ) && room_joinable),
    {
        if !user_valid {
            return false;
        }
        if !room_exists {
            return false;
        }
        match membership {
            Some(MembershipState::Join) => { return false; },
            Some(MembershipState::Ban) => { return false; },
            _ => {},
        }
        room_joinable
    }

    /// Whether a join may go ahead once the request was checked.
    pub fn join_room(&self, authorized: bool) -> (r: Result<(), RepositoryError>)
        ensures
            authorized ==> r.is_ok(),
            !authorized ==> r.is_err() && is_unauthorized(r->Err_0, "User not authorized to join room"@),
    {
        if !authorized {
            return Err(unauthorized(owned("User not authorized to join room")));
        }
        Ok(())
    }

    /// The membership record a join writes, and the result the join gives
    /// once its membership event `event_id` is stored.
    pub fn process_join(&self, room_id: &str, user_id: &str, event_id: String) -> (r: (Membership, JoinResult))
        ensures
            r.0.user_id@ == user_id@,
            r.0.room_id@ == room_id@,
            r.0.membership == MembershipState::Join,
            r.0.reason.is_none(),
            r.0.invited_by.is_none(),
            r.0.display_name.is_none(),
            r.0.avatar_url.is_none(),
            r.0.is_direct.is_none(),
            r.0.third_party_invite.is_none(),
            r.0.join_authorised_via_users_server.is_none(),
            r.1.room_id@ == room_id@,
            r.1.event_id == event_id,
            r.1.success,
    {
        let membership = Membership {
            user_id: owned(user_id),
            room_id: owned(room_id),
            membership: MembershipState::Join,
            reason: None,
            invited_by: None,
            display_name: None,
            avatar_url: None,
            is_direct: None,
            third_party_invite: None,
            join_authorised_via_users_server: None,
        };
        (membership, JoinResult { room_id: owned(room_id), event_id, success: true })
    }
}

} // verus!
