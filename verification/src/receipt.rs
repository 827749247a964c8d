//! Read receipts: public and private, and which of them a listing shows.
use vstd::prelude::*;
use crate::error::owned;
use crate::text::{str_eq, opt_view, opt_str_view};

verus! {

/// A read receipt; `timestamp` and `received_at` are in milliseconds since
/// the UNIX epoch.
#[derive(Debug)]
pub struct Receipt {
    pub room_id: String,
    pub user_id: String,
    pub event_id: String,
    pub receipt_type: String,
    pub thread_id: Option<String>,
    pub timestamp: i64,
    pub is_private: bool,
    pub server_name: String,
    pub received_at: i64,
}

/// Read receipts; the handle `D` is what the caller reads and writes the
/// store with.
pub struct ReceiptRepository<D> {
    db: D,
}

impl<D> ReceiptRepository<D> {
    /// The store handle this repository was made with.
    pub closed spec fn handle(&self) -> D {
        self.db
    }

    pub fn new(db: D) -> (r: Self)
        ensures
            r.handle() == db,
    {
        ReceiptRepository { db }
    }

    /// The store handle.
    pub fn db(&self) -> (r: &D)
        ensures
            *r == self.handle(),
    {
        &self.db
    }

    /// The receipt a user sends at `now_millis`: private exactly when its
    /// type is `m.read.private`.
    pub fn store_receipt(
        &self,
        room_id: &str,
        user_id: &str,
        event_id: &str,
        receipt_type: &str,
        thread_id: Option<&str>,
        server_name: &str,
        now_millis: i64,
    ) -> (r: Receipt)
        ensures
            r.room_id@ == room_id@,
            r.user_id@ == user_id@,
            r.event_id@ == event_id@,
            r.receipt_type@ == receipt_type@,
            opt_view(r.thread_id) == opt_str_view(thread_id),
            r.timestamp == now_millis,
            r.is_private == (receipt_type@ == "m.read.private"@),
            r.server_name@ == server_name@,
            r.received_at == now_millis,
    {
        Receipt {
            room_id: owned(room_id),
            user_id: owned(user_id),
            event_id: owned(event_id),
            receipt_type: owned(receipt_type),
            thread_id: crate::membership::opt_owned(thread_id),
            timestamp: now_millis,
            is_private: str_eq(receipt_type, "m.read.private"),
            server_name: owned(server_name),
            received_at: now_millis,
        }
    }

    /// The query for a room's receipts, newest first; private ones only
    /// when asked for.
    pub fn room_receipts_query(&self, include_private: bool) -> (r: &'static str)
        ensures
            r@ == if include_private {
                "SELECT * FROM receipts WHERE room_id = $room_id ORDER BY timestamp DESC"@
            } else {
                "SELECT * FROM receipts WHERE room_id = $room_id AND is_private = false ORDER BY timestamp DESC"@
            },
    {
        if include_private {
            "SELECT * FROM receipts WHERE room_id = $room_id ORDER BY timestamp DESC"
        } else {
            "SELECT * FROM receipts WHERE room_id = $room_id AND is_private = false ORDER BY timestamp DESC"
        }
    }
}

} // verus!
