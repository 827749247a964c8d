//! User profiles: display names and avatars.
use vstd::prelude::*;
use crate::error::{RepositoryError, not_found, is_not_found};

verus! {

/// A user's public profile.
#[derive(Debug)]
pub struct UserProfile {
    pub user_id: String,
    pub display_name: Option<String>,
    pub avatar_url: Option<String>,
}

/// User profiles; the handle `D` is what the caller reads and writes the
/// store with.
pub struct ProfileRepository<D> {
    db: D,
}

impl<D> ProfileRepository<D> {
    /// The store handle this repository was made with.
    pub closed spec fn handle(&self) -> D {
        self.db
    }

    pub fn new(db: D) -> (r: Self)
        ensures
            r.handle() == db,
    {
        ProfileRepository { db }
    }

    /// The store handle.
    pub fn db(&self) -> (r: &D)
        ensures
            *r == self.handle(),
    {
        &self.db
    }

    /// Whether a user exists, from the store's count of it (absent: 0).
    pub fn user_exists(&self, count: Option<i64>) -> (r: bool)
        ensures
            r == match count {
                Some(c) => c > 0,
                None => false,
            },
    {
        match count {
            Some(c) => c > 0,
            None => false,
        }
    }

    /// A user's profile, which must exist.
    pub fn get_validated_profile(&self, user_id: &str, profile: Option<UserProfile>) -> (r: Result<UserProfile, RepositoryError>)
        ensures
            match profile {
                Some(p) => r == Ok::<UserProfile, RepositoryError>(p),
                None => r.is_err() && is_not_found(r->Err_0, "User"@, user_id@),
            },
    {
        match profile {
            Some(p) => Ok(p),
            None => Err(not_found("User", user_id)),
        }
    }
}

} // verus!
