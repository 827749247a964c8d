//! Push notifications: their records, their delivery states, and the
//! queries that list and count them.
use vstd::prelude::*;
use crate::error::{RepositoryError, owned, concat2, concat3, concat4, not_found, is_not_found};
use crate::numeric::{format_u64, decimal_digits};
use crate::text::opt_view;

verus! {

/// The content of a push notification. The tweaks map each tweak name to
/// its JSON text, each name once.
#[derive(Debug)]
pub struct NotificationContent {
    pub event_type: String,
    pub sender: String,
    pub sender_display_name: Option<String>,
    pub room_name: Option<String>,
    pub body: Option<String>,
    pub image_url: Option<String>,
    pub unread_count: u64,
    pub priority: String,
    pub tweaks: Option<Vec<(String, String)>>,
}

/// Where a push notification stands in its delivery.
#[derive(Debug, Clone, Copy, PartialEq, Eq, Structural)]
pub enum NotificationStatus {
    Pending,
    Sent,
    Delivered,
    Failed,
    Rejected,
}

/// The stored name of a status.
pub open spec fn status_name(s: NotificationStatus) -> Seq<char> {
    match s {
        NotificationStatus::Pending => "Pending"@,
        NotificationStatus::Sent => "Sent"@,
        NotificationStatus::Delivered => "Delivered"@,
        NotificationStatus::Failed => "Failed"@,
        NotificationStatus::Rejected => "Rejected"@,
    }
}

/// The name a count of notifications in a status is reported under.
pub open spec fn status_count_alias(s: NotificationStatus) -> Seq<char> {
    match s {
        NotificationStatus::Pending => "pending"@,
        NotificationStatus::Sent => "sent"@,
        NotificationStatus::Delivered => "delivered"@,
        NotificationStatus::Failed => "failed"@,
        NotificationStatus::Rejected => "rejected"@,
    }
}

impl NotificationStatus {
    /// The stored name of the status.
    pub fn as_str(&self) -> (r: &'static str)
        ensures
            r@ == status_name(*self),
    {
        match self {
            NotificationStatus::Pending => "Pending",
            NotificationStatus::Sent => "Sent",
            NotificationStatus::Delivered => "Delivered",
            NotificationStatus::Failed => "Failed",
            NotificationStatus::Rejected => "Rejected",
        }
    }

    fn count_alias(&self) -> (r: &'static str)
        ensures
            r@ == status_count_alias(*self),
    {
        match self {
            NotificationStatus::Pending => "pending",
            NotificationStatus::Sent => "sent",
            NotificationStatus::Delivered => "delivered",
            NotificationStatus::Failed => "failed",
            NotificationStatus::Rejected => "rejected",
        }
    }
}

/// A push notification; `created_at` is in milliseconds since the UNIX epoch.
#[derive(Debug)]
pub struct PushNotification {
    pub notification_id: String,
    pub user_id: String,
    pub event_id: String,
    pub room_id: String,
    pub pusher_key: String,
    pub content: NotificationContent,
    pub created_at: i64,
    pub status: NotificationStatus,
}

/// A push notification as stored with its delivery history; times are in
/// milliseconds since the UNIX epoch.
#[derive(Debug)]
pub struct PushNotificationRecord {
    pub id: String,
    pub notification_data: PushNotification,
    pub attempts: u32,
    pub last_attempt: Option<i64>,
    pub delivered_at: Option<i64>,
    pub error_message: Option<String>,
}

/// `base`, followed by ` LIMIT n` when there is a limit `n`.
pub open spec fn limited(base: Seq<char>, limit: Option<u32>) -> Seq<char> {
    match limit {
        Some(l) => base + " LIMIT "@ + decimal_digits(l as nat),
        None => base,
    }
}

/// The `FROM` part of the statistics queries, for one user or for all.
pub open spec fn statistics_from(user_id: Option<Seq<char>>) -> Seq<char> {
    match user_id {
        Some(u) => "FROM push_notification WHERE notification_data.user_id = '"@ + u + "'"@,
        None => "FROM push_notification"@,
    }
}

fn with_limit(base: &str, limit: Option<u32>) -> (r: String)
    ensures
        r@ == limited(base@, limit),
{
    match limit {
        Some(l) => {
            let n = format_u64(l as u64);
            concat3(base, " LIMIT ", n.as_str())
        },
        None => owned(base),
    }
}

/// Push notifications; the handle `D` is what the caller reads and writes
/// the store with.
pub struct PushNotificationRepository<D> {
    db: D,
}

impl<D> PushNotificationRepository<D> {
    /// The store handle this repository was made with.
    pub closed spec fn handle(&self) -> D {
        self.db
    }

    pub fn new(db: D) -> (r: Self)
        ensures
            r.handle() == db,
    {
        PushNotificationRepository { db }
    }

    /// The store handle.
    pub fn db(&self) -> (r: &D)
        ensures
            *r == self.handle(),
    {
        &self.db
    }

    /// The record a new notification is stored as: no attempt made yet.
    pub fn create_notification(&self, notification: PushNotification) -> (r: PushNotificationRecord)
        ensures
            r.id@ == "push_notification:"@ + notification.notification_id@,
            r.notification_data == notification,
            r.attempts == 0,
            r.last_attempt.is_none(),
            r.delivered_at.is_none(),
            r.error_message.is_none(),
    {
        let id = concat2("push_notification:", notification.notification_id.as_str());
        PushNotificationRecord {
            id,
            notification_data: notification,
            attempts: 0,
            last_attempt: None,
            delivered_at: None,
            error_message: None,
        }
    }

    /// The stored record after a delivery attempt at `now_millis` that left
    /// it in `status`; `NotFound` when there is no record.
    pub fn update_notification_status(
        &self,
        notification_id: &str,
        existing: Option<PushNotificationRecord>,
        status: NotificationStatus,
        now_millis: i64,
    ) -> (r: Result<PushNotificationRecord, RepositoryError>)
        requires
            existing.is_some() ==> existing.unwrap().attempts < u32::MAX,
        ensures
            match existing {
                None => r.is_err() && is_not_found(r->Err_0, "push_notification"@, notification_id@),
                Some(old) => r.is_ok() && r->Ok_0 == (PushNotificationRecord {
                    notification_data: PushNotification { status, ..old.notification_data },
                    attempts: (old.attempts + 1) as u32,
                    last_attempt: Some(now_millis),
                    ..old
                }),
            },
    {
        match existing {
            Some(mut record) => {
                record.notification_data.status = status;
                record.attempts = record.attempts + 1;
                record.last_attempt = Some(now_millis);
                Ok(record)
            },
            None => Err(not_found("push_notification", notification_id)),
        }
    }

    /// The stored record once delivered at `delivered_at`; `NotFound` when
    /// there is no record.
    pub fn mark_notification_delivered(
        &self,
        notification_id: &str,
        existing: Option<PushNotificationRecord>,
        delivered_at: i64,
    ) -> (r: Result<PushNotificationRecord, RepositoryError>)
        ensures
            match existing {
                None => r.is_err() && is_not_found(r->Err_0, "push_notification"@, notification_id@),
                Some(old) => r.is_ok() && r->Ok_0 == (PushNotificationRecord {
                    notification_data: PushNotification {
                        status: NotificationStatus::Delivered,
                        ..old.notification_data
                    },
                    delivered_at: Some(delivered_at),
                    ..old
                }),
            },
    {
        match existing {
            Some(mut record) => {
                record.notification_data.status = NotificationStatus::Delivered;
                record.delivered_at = Some(delivered_at);
                Ok(record)
            },
            None => Err(not_found("push_notification", notification_id)),
        }
    }

    /// The stored record after a failed attempt at `now_millis` with
    /// `error_message`; `NotFound` when there is no record.
    pub fn mark_notification_failed(
        &self,
        notification_id: &str,
        existing: Option<PushNotificationRecord>,
        error_message: &str,
        now_millis: i64,
    ) -> (r: Result<PushNotificationRecord, RepositoryError>)
        requires
            existing.is_some() ==> existing.unwrap().attempts < u32::MAX,
        ensures
            match existing {
                None => r.is_err() && is_not_found(r->Err_0, "push_notification"@, notification_id@),
                Some(old) => r.is_ok() && ({
                    let new = r->Ok_0;
                    &&& new.notification_data == (PushNotification {
                        status: NotificationStatus::Failed,
                        ..old.notification_data
                    })
                    &&& opt_view(new.error_message) == Some(error_message@)
                    &&& new.attempts == old.attempts + 1
                    &&& new.last_attempt == Some(now_millis)
                    &&& new.id == old.id
                    &&& new.delivered_at == old.delivered_at
                }),
            },
    {
        match existing {
            Some(mut record) => {
                record.notification_data.status = NotificationStatus::Failed;
                record.error_message = Some(owned(error_message));
                record.attempts = record.attempts + 1;
                record.last_attempt = Some(now_millis);
                Ok(record)
            },
            None => Err(not_found("push_notification", notification_id)),
        }
    }

    /// How many delivery attempts a notification has had (none stored: 0).
    pub fn get_notification_attempts(&self, existing: Option<&PushNotificationRecord>) -> (r: u32)
        ensures
            r == match existing {
                Some(rec) => rec.attempts,
                None => 0,
            },
    {
        match existing {
            Some(rec) => rec.attempts,
            None => 0,
        }
    }

    /// The query for pending notifications, oldest first.
    pub fn pending_notifications_query(&self, limit: Option<u32>) -> (r: String)
        ensures
            r@ == limited(
                "SELECT * FROM push_notification WHERE notification_data.status = 'Pending' ORDER BY notification_data.created_at ASC"@,
                limit,
            ),
    {
        with_limit(
            "SELECT * FROM push_notification WHERE notification_data.status = 'Pending' ORDER BY notification_data.created_at ASC",
            limit,
        )
    }

    /// The query for a user's notifications, newest first.
    pub fn user_notifications_query(&self, limit: Option<u32>) -> (r: String)
        ensures
            r@ == limited(
                "SELECT * FROM push_notification WHERE notification_data.user_id = $user_id ORDER BY notification_data.created_at DESC"@,
                limit,
            ),
    {
        with_limit(
            "SELECT * FROM push_notification WHERE notification_data.user_id = $user_id ORDER BY notification_data.created_at DESC",
            limit,
        )
    }

    /// The query for failed notifications, newest first.
    pub fn failed_notifications_query(&self, limit: Option<u32>) -> (r: String)
        ensures
            r@ == limited(
                "SELECT * FROM push_notification WHERE notification_data.status = 'Failed' ORDER BY notification_data.created_at DESC"@,
                limit,
            ),
    {
        with_limit(
            "SELECT * FROM push_notification WHERE notification_data.status = 'Failed' ORDER BY notification_data.created_at DESC",
            limit,
        )
    }

    /// The query for a room's notifications, newest first.
    pub fn room_notifications_query(&self, limit: Option<u32>) -> (r: String)
        ensures
            r@ == limited(
                "SELECT * FROM push_notification WHERE notification_data.room_id = $room_id ORDER BY notification_data.created_at DESC"@,
                limit,
            ),
    {
        with_limit(
            "SELECT * FROM push_notification WHERE notification_data.room_id = $room_id ORDER BY notification_data.created_at DESC",
            limit,
        )
    }

    /// The query for a pusher's notifications, newest first.
    pub fn pusher_notifications_query(&self, limit: Option<u32>) -> (r: String)
        ensures
            r@ == limited(
                "SELECT * FROM push_notification WHERE notification_data.pusher_key = $pusher_key ORDER BY notification_data.created_at DESC"@,
                limit,
            ),
    {
        with_limit(
            "SELECT * FROM push_notification WHERE notification_data.pusher_key = $pusher_key ORDER BY notification_data.created_at DESC",
            limit,
        )
    }

    /// The query that counts the notifications of `user_id` (or all), in
    /// `status` when one is given, under the status's own name (else `total`).
    pub fn statistics_query(&self, user_id: Option<&str>, status: Option<NotificationStatus>) -> (r: String)
        ensures
            r@ == match status {
                None => "SELECT count() AS total "@ + statistics_from(match user_id {
                    Some(u) => Some(u@),
                    None => None,
                }),
                Some(s) => "SELECT count() AS "@ + status_count_alias(s) + " "@ + statistics_from(
                    match user_id {
                        Some(u) => Some(u@),
                        None => None,
                    },
                ) + " AND notification_data.status = '"@ + status_name(s) + "'"@,
            },
    {
        let base = match user_id {
            Some(u) => concat3("FROM push_notification WHERE notification_data.user_id = '", u, "'"),
            None => owned("FROM push_notification"),
        };
        match status {
            None => concat2("SELECT count() AS total ", base.as_str()),
            Some(s) => {
                let mut q = concat4("SELECT count() AS ", s.count_alias(), " ", base.as_str());
                let tail = concat3(" AND notification_data.status = '", s.as_str(), "'");
                q.append(tail.as_str());
                q
            },
        }
    }
}


/// The notification counts by status; the delivery rate is computed from
/// them outside the library.
#[derive(Debug)]
pub struct NotificationCounts {
    pub total_notifications: u64,
    pub pending_notifications: u64,
    pub sent_notifications: u64,
    pub delivered_notifications: u64,
    pub failed_notifications: u64,
}

impl<D> PushNotificationRepository<D> {
    /// The counts that the statistics queries (see `statistics_query`) read
    /// back, each 0 when its query returned no row.
    pub fn get_notification_statistics(
        &self,
        total: Option<u64>,
        pending: Option<u64>,
        sent: Option<u64>,
        delivered: Option<u64>,
        failed: Option<u64>,
    ) -> (r: NotificationCounts)
        ensures
            r.total_notifications == total.unwrap_or(0),
            r.pending_notifications == pending.unwrap_or(0),
            r.sent_notifications == sent.unwrap_or(0),
            r.delivered_notifications == delivered.unwrap_or(0),
            r.failed_notifications == failed.unwrap_or(0),
    {
        NotificationCounts {
            total_notifications: total.unwrap_or(0),
            pending_notifications: pending.unwrap_or(0),
            sent_notifications: sent.unwrap_or(0),
            delivered_notifications: delivered.unwrap_or(0),
            failed_notifications: failed.unwrap_or(0),
        }
    }
}

} // verus!
