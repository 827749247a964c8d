//! Persistent data units received over federation.
use vstd::prelude::*;
use crate::error::{RepositoryError, owned};
use crate::push_rule::is_database_error;

verus! {

/// Federation PDUs; the handle `D` is what the caller reads and writes the
/// store with.
pub struct PDURepository<D> {
    db: D,
}

impl<D> PDURepository<D> {
    /// The store handle this repository was made with.
    pub closed spec fn handle(&self) -> D {
        self.db
    }

    pub fn new(db: D) -> (r: Self)
        ensures
            r.handle() == db,
    {
        PDURepository { db }
    }

    /// The store handle.
    pub fn db(&self) -> (r: &D)
        ensures
            *r == self.handle(),
    {
        &self.db
    }

    /// The created PDU the store gave back, or an error when it gave none.
    pub fn create<P>(&self, created: Option<P>) -> (r: Result<P, RepositoryError>)
        ensures
            match created {
                Some(p) => r == Ok::<P, RepositoryError>(p),
                None => r.is_err() && is_database_error(r->Err_0, "Failed to create PDU"@, "create"@),
            },
    {
        match created {
            Some(p) => Ok(p),
            None => Err(RepositoryError::DatabaseError { message: owned("Failed to create PDU"), operation: owned("create") }),
        }
    }
}

} // verus!
