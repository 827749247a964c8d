//! To-device messages: their record and which query lists them.
use vstd::prelude::*;

verus! {

/// A message sent to a user's devices; its content is JSON text and
/// `created_at` is in milliseconds since the UNIX epoch.
#[derive(Debug)]
pub struct ToDeviceMessage {
    pub id: String,
    pub sender: String,
    pub event_type: String,
    pub content: String,
    pub target_user_id: String,
    pub target_device_id: Option<String>,
    pub txn_id: String,
    pub created_at: i64,
}

/// To-device messages; the handle `D` is what the caller reads and writes
/// the store with.
pub struct MessagingRepository<D> {
    db: D,
}

impl<D> MessagingRepository<D> {
    /// The store handle this repository was made with.
    pub closed spec fn handle(&self) -> D {
        self.db
    }

    pub fn new(db: D) -> (r: Self)
        ensures
            r.handle() == db,
    {
        MessagingRepository { db }
    }

    /// The store handle.
    pub fn db(&self) -> (r: &D)
        ensures
            *r == self.handle(),
    {
        &self.db
    }

    /// Whether a sender used a transaction id already: the store found a
    /// message with it.
    pub fn check_transaction_exists(&self, existing: Option<String>) -> (r: bool)
        ensures
            r == existing.is_some(),
    {
        existing.is_some()
    }

    /// The query for a user's messages: for one device, also those sent to
    /// all of the user's devices; else all of them.
    pub fn to_device_messages_query(&self, device_id: Option<&str>) -> (r: &'static str)
        ensures
            r@ == if device_id.is_some() {
                "SELECT * FROM to_device_messages WHERE target_user_id = $user_id AND (target_device_id IS NULL OR target_device_id = $device_id) ORDER BY created_at"@
            } else {
                "SELECT * FROM to_device_messages WHERE target_user_id = $user_id ORDER BY created_at"@
            },
    {
        if device_id.is_some() {
            "SELECT * FROM to_device_messages WHERE target_user_id = $user_id AND (target_device_id IS NULL OR target_device_id = $device_id) ORDER BY created_at"
        } else {
            "SELECT * FROM to_device_messages WHERE target_user_id = $user_id ORDER BY created_at"
        }
    }
}

} // verus!
