//! Profile management: who may see a profile, account-data scope, and the
//! third-party identifier operations.
use vstd::prelude::*;
use crate::error::{RepositoryError, not_found, is_not_found, validation, is_validation};
use crate::reports::ReportsRepository;

verus! {

/// An operation on a user's third-party identifiers.
#[derive(Debug)]
pub enum ThirdPartyOperation {
    Add { medium: String, address: String, validated: bool },
    Remove { medium: String, address: String },
    Validate { medium: String, address: String, token: String },
    List,
}

/// Where account data lives: globally for the user, or in one room.
#[derive(Debug)]
pub enum AccountDataScope {
    Global,
    Room(String),
}

/// Profile management over one store handle: the user, account-data, tag
/// and third-party stores each hold a clone of it, and so does the report
/// repository.
pub struct ProfileManagementService<D> {
    user_repo: D,
    account_data_repo: D,
    tags_repo: D,
    reports_repo: ReportsRepository<D>,
    third_party_repo: D,
}

impl<D: Clone> ProfileManagementService<D> {
    /// The handles of its stores: users, account data, tags, reports,
    /// third-party identifiers.
    pub closed spec fn handles(&self) -> (D, D, D, D, D) {
        (self.user_repo, self.account_data_repo, self.tags_repo, self.reports_repo.handle(), self.third_party_repo)
    }

    /// A service whose stores each hold a clone of `db`.
    pub fn new(db: D) -> (r: Self)
        ensures
            cloned(db, r.handles().0),
            cloned(db, r.handles().1),
            cloned(db, r.handles().2),
            cloned(db, r.handles().3),
            r.handles().4 == db,
    {
        ProfileManagementService {
            user_repo: db.clone(),
            account_data_repo: db.clone(),
            tags_repo: db.clone(),
            reports_repo: ReportsRepository::new(db.clone()),
            third_party_repo: db,
        }
    }

    /// The handle of the user store.
    pub fn user_repo(&self) -> (r: &D)
        ensures
            *r == self.handles().0,
    {
        &self.user_repo
    }

    /// The handle of the account-data store.
    pub fn account_data_repo(&self) -> (r: &D)
        ensures
            *r == self.handles().1,
    {
        &self.account_data_repo
    }

    /// The handle of the tag store.
    pub fn tags_repo(&self) -> (r: &D)
        ensures
            *r == self.handles().2,
    {
        &self.tags_repo
    }

    /// The report repository.
    pub fn reports_repo(&self) -> (r: &ReportsRepository<D>)
        ensures
            r.handle() == self.handles().3,
    {
        &self.reports_repo
    }

    /// The handle of the third-party identifier store.
    pub fn third_party_repo(&self) -> (r: &D)
        ensures
            *r == self.handles().4,
    {
        &self.third_party_repo
    }

    /// Whether a profile may be shown: to anyone allowed to edit it, and
    /// otherwise whenever the user exists.
    pub fn get_user_profile(&self, user_id: &str, may_edit: bool, user_exists: bool) -> (r: Result<(), RepositoryError>)
        ensures
            (may_edit || user_exists) ==> r.is_ok(),
            !may_edit && !user_exists ==> r.is_err() && is_not_found(r->Err_0, "User"@, user_id@),
    {
        if !may_edit && !user_exists {
            return Err(not_found("User", user_id));
        }
        Ok(())
    }

    /// Where account data of `room_id` (or of none) lives.
    pub fn account_data_scope(&self, room_id: Option<String>) -> (r: AccountDataScope)
        ensures
            match room_id {
                Some(id) => r == AccountDataScope::Room(id),
                None => r == AccountDataScope::Global,
            },
    {
        match room_id {
            Some(id) => AccountDataScope::Room(id),
            None => AccountDataScope::Global,
        }
    }

    /// Whether a third-party operation succeeded before the identifiers are
    /// listed again: a validation needs the store to have accepted the
    /// token (`validated`); every other operation stands.
    pub fn manage_third_party_ids(&self, operation: &ThirdPartyOperation, validated: bool) -> (r: Result<(), RepositoryError>)
        ensures
            (operation is Validate && !validated) ==> r.is_err() && is_validation(
                r->Err_0,
                "token"@,
                "Invalid or expired validation token"@,
            ),
            !(operation is Validate && !validated) ==> r.is_ok(),
    {
        match operation {
            ThirdPartyOperation::Validate { .. } => {
                if !validated {
                    return Err(validation("token", "Invalid or expired validation token"));
                }
                Ok(())
            },
            _ => Ok(()),
        }
    }
}

} // verus!
