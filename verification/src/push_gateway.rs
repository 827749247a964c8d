//! Pushers and the record of push attempts made through them.
use vstd::prelude::*;
use crate::error::{owned, concat2, concat3, concat4};
use crate::membership::clone_opt;
use crate::numeric::{format_u64, decimal_digits};
use crate::text::{opt_view};

verus! {

/// A pusher of a user; `data` is its JSON data object as text.
#[derive(Debug)]
pub struct Pusher {
    pub pusher_key: String,
    pub kind: String,
    pub app_id: String,
    pub app_display_name: String,
    pub device_display_name: String,
    pub profile_tag: Option<String>,
    pub lang: String,
    pub data: String,
}

/// A pusher as stored; times are milliseconds since the UNIX epoch.
#[derive(Debug)]
pub struct PusherRecord {
    pub id: String,
    pub user_id: String,
    pub pusher_key: String,
    pub pusher_data: Pusher,
    pub created_at: i64,
    pub updated_at: i64,
    pub last_used: Option<i64>,
    pub failure_count: u32,
}

/// One attempt to deliver a notification through a pusher; `attempted_at`
/// is in milliseconds since the UNIX epoch.
#[derive(Debug)]
pub struct PushAttemptRecord {
    pub id: String,
    pub pusher_key: String,
    pub notification_id: String,
    pub success: bool,
    pub attempted_at: i64,
    pub error_message: Option<String>,
    pub response_code: Option<u16>,
}

/// The same pusher, field for field.
pub open spec fn same_pusher(a: Pusher, b: Pusher) -> bool {
    &&& a.pusher_key@ == b.pusher_key@
    &&& a.kind@ == b.kind@
    &&& a.app_id@ == b.app_id@
    &&& a.app_display_name@ == b.app_display_name@
    &&& a.device_display_name@ == b.device_display_name@
    &&& opt_view(a.profile_tag) == opt_view(b.profile_tag)
    &&& a.lang@ == b.lang@
    &&& a.data@ == b.data@
}

/// A copy of `p`.
pub fn clone_pusher(p: &Pusher) -> (r: Pusher)
    ensures
        same_pusher(r, *p),
{
    Pusher {
        pusher_key: p.pusher_key.clone(),
        kind: p.kind.clone(),
        app_id: p.app_id.clone(),
        app_display_name: p.app_display_name.clone(),
        device_display_name: p.device_display_name.clone(),
        profile_tag: clone_opt(&p.profile_tag),
        lang: p.lang.clone(),
        data: p.data.clone(),
    }
}

/// Pushers and push attempts; the handle `D` is what the caller reads and
/// writes the store with.
pub struct PushGatewayRepository<D> {
    db: D,
}

impl<D> PushGatewayRepository<D> {
    /// The store handle this repository was made with.
    pub closed spec fn handle(&self) -> D {
        self.db
    }

    pub fn new(db: D) -> (r: Self)
        ensures
            r.handle() == db,
    {
        PushGatewayRepository { db }
    }

    /// The store handle.
    pub fn db(&self) -> (r: &D)
        ensures
            *r == self.handle(),
    {
        &self.db
    }

    /// The key a user's pusher is stored under: `user:pusher_key`.
    pub fn pusher_record_key(&self, user_id: &str, pusher_key: &str) -> (r: String)
        ensures
            r@ == user_id@ + ":"@ + pusher_key@,
    {
        concat3(user_id, ":", pusher_key)
    }

    /// The record of a newly registered pusher at `now_millis`: never used,
    /// no failures.
    pub fn register_pusher(&self, user_id: &str, pusher: &Pusher, now_millis: i64) -> (r: PusherRecord)
        ensures
            r.id@ == "pusher:"@ + user_id@ + ":"@ + pusher.pusher_key@,
            r.user_id@ == user_id@,
            r.pusher_key@ == pusher.pusher_key@,
            same_pusher(r.pusher_data, *pusher),
            r.created_at == now_millis,
            r.updated_at == now_millis,
            r.last_used.is_none(),
            r.failure_count == 0,
    {
        PusherRecord {
            id: concat4("pusher:", user_id, ":", pusher.pusher_key.as_str()),
            user_id: owned(user_id),
            pusher_key: pusher.pusher_key.clone(),
            pusher_data: clone_pusher(pusher),
            created_at: now_millis,
            updated_at: now_millis,
            last_used: None,
            failure_count: 0,
        }
    }

    /// The record that replaces a pusher at `now_millis`: the creation time
    /// and failure count of the stored record (`existing`) are kept, else
    /// they start afresh; the last use is cleared.
    pub fn update_pusher(
        &self,
        user_id: &str,
        pusher_key: &str,
        pusher: &Pusher,
        existing: Option<(i64, u32)>,
        now_millis: i64,
    ) -> (r: PusherRecord)
        ensures
            r.id@ == "pusher:"@ + user_id@ + ":"@ + pusher_key@,
            r.user_id@ == user_id@,
            r.pusher_key@ == pusher_key@,
            same_pusher(r.pusher_data, *pusher),
            (r.created_at, r.failure_count) == match existing {
                Some(e) => e,
                None => (now_millis, 0u32),
            },
            r.updated_at == now_millis,
            r.last_used.is_none(),
    {
        let (created_at, failure_count) = match existing {
            Some(e) => e,
            None => (now_millis, 0u32),
        };
        PusherRecord {
            id: concat4("pusher:", user_id, ":", pusher_key),
            user_id: owned(user_id),
            pusher_key: owned(pusher_key),
            pusher_data: clone_pusher(pusher),
            created_at,
            updated_at: now_millis,
            last_used: None,
            failure_count,
        }
    }

    /// The record of an attempt to push `notification_id` through
    /// `pusher_key` at `now_millis`: a success answers 200, a failure 500
    /// with a generic message.
    pub fn record_push_attempt(
        &self,
        pusher_key: &str,
        notification_id: &str,
        success: bool,
        now_millis: i64,
    ) -> (r: PushAttemptRecord)
        ensures
            r.id@ == "push_attempt:"@ + pusher_key@ + ":"@ + notification_id@,
            r.pusher_key@ == pusher_key@,
            r.notification_id@ == notification_id@,
            r.success == success,
            r.attempted_at == now_millis,
            opt_view(r.error_message) == if success { None } else { Some("Push delivery failed"@) },
            r.response_code == if success { Some(200u16) } else { Some(500u16) },
    {
        let error_message = if success {
            None
        } else {
            Some(owned("Push delivery failed"))
        };
        PushAttemptRecord {
            id: concat4("push_attempt:", pusher_key, ":", notification_id),
            pusher_key: owned(pusher_key),
            notification_id: owned(notification_id),
            success,
            attempted_at: now_millis,
            error_message,
            response_code: if success { Some(200u16) } else { Some(500u16) },
        }
    }

    /// The record of an attempt with the delivery's own message and code.
    pub fn record_push_attempt_with_details(
        &self,
        pusher_key: &str,
        notification_id: &str,
        success: bool,
        error_message: Option<String>,
        response_code: Option<u16>,
        now_millis: i64,
    ) -> (r: PushAttemptRecord)
        ensures
            r.id@ == "push_attempt:"@ + pusher_key@ + ":"@ + notification_id@,
            r.pusher_key@ == pusher_key@,
            r.notification_id@ == notification_id@,
            r.success == success,
            r.attempted_at == now_millis,
            r.error_message == error_message,
            r.response_code == response_code,
    {
        PushAttemptRecord {
            id: concat4("push_attempt:", pusher_key, ":", notification_id),
            pusher_key: owned(pusher_key),
            notification_id: owned(notification_id),
            success,
            attempted_at: now_millis,
            error_message,
            response_code,
        }
    }

    /// The failed attempts of a pusher: all attempts but the successful
    /// ones, of which there cannot be more.
    pub fn failed_attempts(&self, total_attempts: u64, successful_attempts: u64) -> (r: u64)
        requires
            successful_attempts <= total_attempts,
        ensures
            r == total_attempts - successful_attempts,
    {
        total_attempts - successful_attempts
    }

    /// The query for a pusher's attempts, newest first, at most `limit`.
    pub fn attempt_history_query(&self, limit: Option<u32>) -> (r: String)
        ensures
            r@ == match limit {
                Some(l) => "SELECT * FROM push_attempt WHERE pusher_key = $pusher_key ORDER BY attempted_at DESC LIMIT "@
                    + decimal_digits(l as nat),
                None => "SELECT * FROM push_attempt WHERE pusher_key = $pusher_key ORDER BY attempted_at DESC"@,
            },
    {
        match limit {
            Some(l) => {
                let n = format_u64(l as u64);
                concat2(
                    "SELECT * FROM push_attempt WHERE pusher_key = $pusher_key ORDER BY attempted_at DESC LIMIT ",
                    n.as_str(),
                )
            },
            None => owned("SELECT * FROM push_attempt WHERE pusher_key = $pusher_key ORDER BY attempted_at DESC"),
        }
    }
}

} // verus!
