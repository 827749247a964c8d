//! User presence: the records that mark a user online, offline or away.
use vstd::prelude::*;
use crate::error::{RepositoryError, owned};
use crate::push_rule::is_database_error;
use crate::text::{opt_view, opt_str_view};

verus! {

/// A presence change as delivered to clients.
#[derive(Debug)]
pub struct PresenceEvent {
    pub user_id: String,
    pub presence: String,
    pub status_msg: Option<String>,
    pub last_active_ago: Option<u64>,
    pub currently_active: bool,
}

/// The presence a user may be in.
#[derive(Debug, Clone, Copy, PartialEq, Eq, Structural)]
pub enum PresenceState {
    Online,
    Offline,
    Unavailable,
}

/// A user's presence as stored.
#[derive(Debug)]
pub struct UserPresenceUpdate {
    pub user_id: String,
    pub presence: String,
    pub last_active_ago: Option<u64>,
    pub status_msg: Option<String>,
    pub currently_active: Option<bool>,
}

/// The stored name of a presence.
pub open spec fn presence_name(p: PresenceState) -> Seq<char> {
    match p {
        PresenceState::Online => "online"@,
        PresenceState::Offline => "offline"@,
        PresenceState::Unavailable => "unavailable"@,
    }
}

impl PresenceState {
    /// The stored name of the presence.
    pub fn as_str(&self) -> (r: &'static str)
        ensures
            r@ == presence_name(*self),
    {
        match self {
            PresenceState::Online => "online",
            PresenceState::Offline => "offline",
            PresenceState::Unavailable => "unavailable",
        }
    }
}

/// The presence event that a presence state gives: only an online user is
/// currently active, and active just now.
pub open spec fn presence_event_of(
    e: PresenceEvent,
    user_id: Seq<char>,
    p: PresenceState,
    status_msg: Option<Seq<char>>,
) -> bool {
    &&& e.user_id@ == user_id
    &&& e.presence@ == presence_name(p)
    &&& opt_view(e.status_msg) == status_msg
    &&& e.currently_active == (p == PresenceState::Online)
    &&& e.last_active_ago == if p == PresenceState::Online { Some(0u64) } else { None }
}

/// User presence; the handle `D` is what the caller reads and writes the
/// store with.
pub struct PresenceRepository<D> {
    db: D,
}

impl<D> PresenceRepository<D> {
    /// The store handle this repository was made with.
    pub closed spec fn handle(&self) -> D {
        self.db
    }

    pub fn new(db: D) -> (r: Self)
        ensures
            r.handle() == db,
    {
        PresenceRepository { db }
    }

    /// The store handle.
    pub fn db(&self) -> (r: &D)
        ensures
            *r == self.handle(),
    {
        &self.db
    }

    /// The stored presence the store gave back, or an error when it gave none.
    pub fn update_user_presence(&self, updated: Option<UserPresenceUpdate>) -> (r: Result<UserPresenceUpdate, RepositoryError>)
        ensures
            match updated {
                Some(u) => r == Ok::<UserPresenceUpdate, RepositoryError>(u),
                None => r.is_err() && is_database_error(r->Err_0, "Failed to update user presence"@, "update"@),
            },
    {
        match updated {
            Some(u) => Ok(u),
            None => Err(RepositoryError::DatabaseError {
                message: owned("Failed to update user presence"),
                operation: owned("update"),
            }),
        }
    }

    /// The presence that marks a user offline.
    pub fn set_user_offline(&self, user_id: &str) -> (r: UserPresenceUpdate)
        ensures
            r.user_id@ == user_id@,
            r.presence@ == "offline"@,
            r.last_active_ago.is_none(),
            r.status_msg.is_none(),
            r.currently_active == Some(false),
    {
        UserPresenceUpdate {
            user_id: owned(user_id),
            presence: owned("offline"),
            last_active_ago: None,
            status_msg: None,
            currently_active: Some(false),
        }
    }

    /// The presence that marks a user online, active just now.
    pub fn set_user_online(&self, user_id: &str, status_msg: Option<String>) -> (r: UserPresenceUpdate)
        ensures
            r.user_id@ == user_id@,
            r.presence@ == "online"@,
            r.last_active_ago == Some(0u64),
            r.status_msg == status_msg,
            r.currently_active == Some(true),
    {
        UserPresenceUpdate {
            user_id: owned(user_id),
            presence: owned("online"),
            last_active_ago: Some(0),
            status_msg,
            currently_active: Some(true),
        }
    }

    /// The presence that marks a user unavailable.
    pub fn set_user_unavailable(&self, user_id: &str, status_msg: Option<String>) -> (r: UserPresenceUpdate)
        ensures
            r.user_id@ == user_id@,
            r.presence@ == "unavailable"@,
            r.last_active_ago.is_none(),
            r.status_msg == status_msg,
            r.currently_active == Some(false),
    {
        UserPresenceUpdate {
            user_id: owned(user_id),
            presence: owned("unavailable"),
            last_active_ago: None,
            status_msg,
            currently_active: Some(false),
        }
    }

    /// The presence event that puts a user in `presence` with a status message.
    pub fn update_user_presence_state(&self, user_id: &str, presence: PresenceState, status_msg: Option<&str>) -> (r: PresenceEvent)
        ensures
            presence_event_of(r, user_id@, presence, opt_str_view(status_msg)),
    {
        let currently_active = presence == PresenceState::Online;
        let last_active_ago = if currently_active { Some(0u64) } else { None };
        PresenceEvent {
            user_id: owned(user_id),
            presence: owned(presence.as_str()),
            status_msg: crate::membership::opt_owned(status_msg),
            last_active_ago,
            currently_active,
        }
    }

    /// The number of presence events a cleanup removes, from the store's
    /// count (absent: 0).
    pub fn cleanup_count(&self, count: Option<i64>) -> (r: u64)
        ensures
            r == match count {
                Some(c) => c as u64,
                None => 0,
            },
    {
        match count {
            Some(c) => c as u64,
            None => 0,
        }
    }
}

} // verus!
