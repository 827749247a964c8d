//! Stored push rules: their keys, and the outcome of writing them.
use vstd::prelude::*;
use crate::error::{RepositoryError, owned, concat3};

verus! {

/// `e` is a store error with `message`, raised by `operation`.
pub open spec fn is_database_error(e: RepositoryError, message: Seq<char>, operation: Seq<char>) -> bool {
    e matches RepositoryError::DatabaseError { message: m, operation: o } && m@ == message && o@
        == operation
}

fn database_error(message: &str, operation: &str) -> (e: RepositoryError)
    ensures
        is_database_error(e, message@, operation@),
{
    RepositoryError::DatabaseError { message: owned(message), operation: owned(operation) }
}

/// Stored push rules; the handle `D` is
/// what the caller reads and writes the store with.
pub struct PushRuleRepository<D> {
    db: D,
}

impl<D> PushRuleRepository<D> {
    /// The store handle this repository was made with.
    pub closed spec fn handle(&self) -> D {
        self.db
    }

    pub fn new(db: D) -> (r: Self)
        ensures
            r.handle() == db,
    {
        PushRuleRepository { db }
    }

    /// The store handle.
    pub fn db(&self) -> (r: &D)
        ensures
            *r == self.handle(),
    {
        &self.db
    }

    /// The key a user's rule is stored under: `user:rule_id`.
    pub fn rule_key(&self, user_id: &str, rule_id: &str) -> (r: String)
        ensures
            r@ == user_id@ + ":"@ + rule_id@,
    {
        concat3(user_id, ":", rule_id)
    }

    /// The created rule the store gave back, or an error when it gave none.
    pub fn create<R>(&self, created: Option<R>) -> (r: Result<R, RepositoryError>)
        ensures
            match created {
                Some(x) => r == Ok::<R, RepositoryError>(x),
                None => r.is_err() && is_database_error(r->Err_0, "Failed to create push rule"@, "create"@),
            },
    {
        match created {
            Some(x) => Ok(x),
            None => Err(database_error("Failed to create push rule", "create")),
        }
    }

    /// The updated rule the store gave back, or an error when it gave none.
    pub fn update<R>(&self, updated: Option<R>) -> (r: Result<R, RepositoryError>)
        ensures
            match updated {
                Some(x) => r == Ok::<R, RepositoryError>(x),
                None => r.is_err() && is_database_error(r->Err_0, "Failed to update push rule"@, "update"@),
            },
    {
        match updated {
            Some(x) => Ok(x),
            None => Err(database_error("Failed to update push rule", "update")),
        }
    }

    /// The live query that follows a user's rules.
    pub fn subscribe_user_query(&self, user_id: &str) -> (r: String)
        ensures
            r@ == "LIVE SELECT * FROM push_rule WHERE user_id = '"@ + user_id@ + "'"@,
    {
        concat3("LIVE SELECT * FROM push_rule WHERE user_id = '", user_id, "'")
    }
}

} // verus!
