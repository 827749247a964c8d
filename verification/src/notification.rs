//! User notifications: their kinds, priorities and default actions, and the
//! pagination tokens that carry a notification's creation time.
use vstd::prelude::*;
use vstd::utf8::{valid_utf8, decode_utf8, encode_utf8, encode_utf8_decode_utf8, encode_utf8_valid_utf8, is_ascii_chars_encode_utf8};
use crate::codec::{
    base64_standard_encode, base64_standard_decode, base64_standard_of, base64_standard_decoded,
    text_from_utf8, timestamp_in_range, chrono_timestamp_valid, i64_parse, new_uuid_v4,
    uuid_text_shape, base64_decode_message, utf8_error_message, i64_parse_message,
};
use crate::error::{RepositoryError, owned, concat2, is_validation_error};
use crate::numeric::{format_i64, parse_i64_spec, signed_decimal, lemma_parse_signed_decimal, lemma_signed_decimal_i64};
use crate::text::{is_prefix_of, opt_view};

verus! {

/// What a notification is about.
#[derive(Debug)]
pub enum NotificationType {
    Message,
    Invite,
    Mention,
    Reaction,
    Call,
    Custom(String),
}

/// An action a notification offers.
#[derive(Debug)]
pub struct NotificationAction {
    pub action_id: String,
    pub action_type: String,
    pub label: String,
    pub url: Option<String>,
    pub method: Option<String>,
}

/// How urgent a notification is.
#[derive(Debug, Clone, Copy, PartialEq, Eq, Structural)]
pub enum NotificationPriority {
    Low,
    Normal,
    High,
    Critical,
}

/// A user's notification settings for one room.
#[derive(Debug)]
pub struct RoomNotificationSettings {
    pub room_id: String,
    pub enabled: bool,
    pub sound: Option<String>,
    pub highlight: bool,
    pub mention_only: bool,
}

/// A notification as stored: its content is the event's content as JSON
/// text; `created_at` is in milliseconds since the UNIX epoch.
#[derive(Debug)]
pub struct Notification {
    pub notification_id: String,
    pub user_id: String,
    pub event_id: String,
    pub room_id: String,
    pub notification_type: NotificationType,
    pub content: String,
    pub created_at: i64,
    pub read: bool,
    pub delivered: bool,
    pub actions: Vec<NotificationAction>,
    pub priority: NotificationPriority,
}

/// The priority of a kind of notification.
pub open spec fn priority_for(t: NotificationType) -> NotificationPriority {
    match t {
        NotificationType::Call => NotificationPriority::Critical,
        NotificationType::Mention => NotificationPriority::High,
        NotificationType::Invite => NotificationPriority::High,
        NotificationType::Message => NotificationPriority::Normal,
        NotificationType::Reaction => NotificationPriority::Low,
        NotificationType::Custom(_) => NotificationPriority::Normal,
    }
}

/// The action `a` has the id and type `id`, the label `label`, no URL, and
/// the method `method`.
pub open spec fn action_is(a: NotificationAction, id: Seq<char>, label: Seq<char>, method: Seq<char>) -> bool {
    &&& a.action_id@ == id
    &&& a.action_type@ == id
    &&& a.label@ == label
    &&& a.url.is_none()
    &&& opt_view(a.method) == Some(method)
}

/// The actions a kind of notification offers by default: view and reply
/// for a message, accept and decline for an invite, none otherwise.
pub open spec fn default_actions(t: NotificationType, actions: Seq<NotificationAction>) -> bool {
    match t {
        NotificationType::Message => actions.len() == 2
            && action_is(actions[0], "view"@, "View"@, "GET"@)
            && action_is(actions[1], "reply"@, "Reply"@, "POST"@),
        NotificationType::Invite => actions.len() == 2
            && action_is(actions[0], "accept"@, "Accept"@, "POST"@)
            && action_is(actions[1], "decline"@, "Decline"@, "POST"@),
        _ => actions.len() == 0,
    }
}

/// The token of a time (whole seconds since the UNIX epoch): the standard
/// base64 of the seconds' decimal text.
pub open spec fn token_of(secs: int) -> Seq<char> {
    base64_standard_of(encode_utf8(signed_decimal(secs)))
}

/// The time (whole seconds since the UNIX epoch) that `token` carries, if
/// it carries one: it decodes as standard base64 to UTF-8 text, the text
/// is a 64-bit decimal number, and chrono represents that time.
pub open spec fn token_time(token: Seq<char>) -> Option<i64> {
    match base64_standard_decoded(token) {
        None => None,
        Some(b) => if !valid_utf8(b) {
            None
        } else {
            match parse_i64_spec(decode_utf8(b)) {
                None => None,
                Some(t) => if chrono_timestamp_valid(t) { Some(t) } else { None },
            }
        },
    }
}

/// The message of the first stage at which reading `token` fails: the
/// stage's prefix, then the decoder's or parser's own message.
pub open spec fn token_failure(token: Seq<char>) -> Seq<char> {
    match base64_standard_decoded(token) {
        None => "Invalid token format: "@ + base64_decode_message(token),
        Some(b) => if !valid_utf8(b) {
            "Invalid token encoding: "@ + utf8_error_message(b)
        } else {
            match parse_i64_spec(decode_utf8(b)) {
                None => "Invalid timestamp in token: "@ + i64_parse_message(decode_utf8(b)),
                Some(t) => "Invalid timestamp value"@,
            }
        },
    }
}

/// The whole seconds, rounded down, of a time in milliseconds.
pub fn secs_of_millis(millis: i64) -> (r: i64)
    ensures
        r == millis / 1000,
{
    if millis >= 0 {
        let q: u64 = (millis as u64) / 1000;
        assert(q == millis / 1000);
        q as i64
    } else {
        let m: u64 = (0i128 - millis as i128) as u64;
        let q: u64 = (m + 999) / 1000;
        proof {
            let mi = millis as int;
            let qi = q as int;
            assert(m as int == -mi);
            assert(qi * 1000 <= m + 999 < qi * 1000 + 1000) by (nonlinear_arith)
                requires
                    qi == (m as int + 999) / 1000,
                    m >= 1,
            ;
            assert(-qi * 1000 <= mi < -qi * 1000 + 1000);
            assert((-qi) == mi / 1000) by (nonlinear_arith)
                requires
                    -qi * 1000 <= mi < -qi * 1000 + 1000,
            ;
        }
        (0i128 - q as i128) as i64
    }
}

/// User notifications; the handle `D` is what the caller reads and writes
/// the store with.
pub struct NotificationRepository<D> {
    db: D,
}

fn action(id: &str, label: &str, method: &str) -> (r: NotificationAction)
    ensures
        action_is(r, id@, label@, method@),
{
    NotificationAction {
        action_id: owned(id),
        action_type: owned(id),
        label: owned(label),
        url: None,
        method: Some(owned(method)),
    }
}

/// The messages of the errors that reading a token gives.
fn token_error(prefix: &str, reason: &str) -> (e: RepositoryError)
    ensures
        e matches RepositoryError::ValidationError { field, message } && field@ == "notification_token"@
            && message@ == prefix@ + reason@ && is_prefix_of(prefix@, message@),
{
    assert((prefix@ + reason@).subrange(0, prefix@.len() as int) =~= prefix@);
    RepositoryError::ValidationError { field: owned("notification_token"), message: concat2(prefix, reason) }
}

impl<D> NotificationRepository<D> {
    /// The store handle this repository was made with.
    pub closed spec fn handle(&self) -> D {
        self.db
    }

    pub fn new(db: D) -> (r: Self)
        ensures
            r.handle() == db,
    {
        NotificationRepository { db }
    }

    /// The store handle.
    pub fn db(&self) -> (r: &D)
        ensures
            *r == self.handle(),
    {
        &self.db
    }

    /// The actions a kind of notification offers by default.
    pub fn get_default_actions_for_type(&self, notification_type: &NotificationType) -> (r: Vec<NotificationAction>)
        ensures
            default_actions(*notification_type, r@),
    {
        let mut v: Vec<NotificationAction> = Vec::new();
        match notification_type {
            NotificationType::Message => {
                v.push(action("view", "View", "GET"));
                v.push(action("reply", "Reply", "POST"));
            },
            NotificationType::Invite => {
                v.push(action("accept", "Accept", "POST"));
                v.push(action("decline", "Decline", "POST"));
            },
            _ => {},
        }
        v
    }

    /// The priority of a kind of notification: calls are critical, mentions
    /// and invites high, reactions low, the rest normal.
    pub fn get_priority_for_type(&self, notification_type: &NotificationType) -> (r: NotificationPriority)
        ensures
            r == priority_for(*notification_type),
    {
        match notification_type {
            NotificationType::Call => NotificationPriority::Critical,
            NotificationType::Mention => NotificationPriority::High,
            NotificationType::Invite => NotificationPriority::High,
            NotificationType::Message => NotificationPriority::Normal,
            NotificationType::Reaction => NotificationPriority::Low,
            NotificationType::Custom(_) => NotificationPriority::Normal,
        }
    }

    /// The pagination token of a notification created at `created_at`
    /// (milliseconds): it carries the whole seconds, which reading it gives
    /// back whenever chrono represents them.
    pub fn create_notification_token(&self, created_at: i64) -> (r: String)
        ensures
            r@ == token_of(created_at / 1000),
            chrono_timestamp_valid((created_at / 1000) as i64) ==> token_time(r@) == Some((created_at / 1000) as i64),
    {
        let secs = secs_of_millis(created_at);
        let text = format_i64(secs);
        proof {
            lemma_signed_decimal_i64(secs);
            is_ascii_chars_encode_utf8(text@);
            encode_utf8_decode_utf8(text@);
            encode_utf8_valid_utf8(text@);
            lemma_parse_signed_decimal(secs as int);
        }
        base64_standard_encode(text.as_str().as_bytes())
    }

    /// The time, in whole seconds since the UNIX epoch, that a pagination
    /// token carries; a `ValidationError` on `notification_token` at the
    /// first stage that fails.
    pub fn parse_notification_token(&self, token: &str) -> (r: Result<i64, RepositoryError>)
        ensures
            r.is_ok() <==> token_time(token@).is_some(),
            r.is_ok() ==> r->Ok_0 == token_time(token@).unwrap(),
            r.is_err() ==> (r->Err_0 matches RepositoryError::ValidationError { field, message }
                && field@ == "notification_token"@ && message@ == token_failure(token@)),
    {
        let decoded = match base64_standard_decode(token) {
            Ok(b) => b,
            Err(e) => {
                let err = token_error("Invalid token format: ", e.as_str());
                return Err(err);
            },
        };
        let text = match text_from_utf8(decoded) {
            Ok(t) => t,
            Err(e) => {
                let err = token_error("Invalid token encoding: ", e.as_str());
                return Err(err);
            },
        };
        let secs = match i64_parse(text.as_str()) {
            Ok(t) => t,
            Err(reason) => {
                let err = token_error("Invalid timestamp in token: ", reason.as_str());
                return Err(err);
            },
        };
        if !timestamp_in_range(secs) {
            proof {
                reveal_strlit("");
                assert("Invalid timestamp value"@ + ""@ =~= "Invalid timestamp value"@);
            }
            let err = token_error("Invalid timestamp value", "");
            return Err(err);
        }
        Ok(secs)
    }

    /// A new notification of `notification_type` on an event, created at
    /// `now_millis`: a random id, unread and undelivered, with the kind's
    /// default actions and priority.
    pub fn create_notification(
        &self,
        user_id: &str,
        event_id: &str,
        room_id: &str,
        notification_type: NotificationType,
        event_content: String,
        now_millis: i64,
    ) -> (r: Notification)
        ensures
            uuid_text_shape(r.notification_id@),
            r.user_id@ == user_id@,
            r.event_id@ == event_id@,
            r.room_id@ == room_id@,
            r.notification_type == notification_type,
            r.content == event_content,
            r.created_at == now_millis,
            !r.read,
            !r.delivered,
            default_actions(notification_type, r.actions@),
            r.priority == priority_for(notification_type),
    {
        let actions = self.get_default_actions_for_type(&notification_type);
        let priority = self.get_priority_for_type(&notification_type);
        Notification {
            notification_id: new_uuid_v4(),
            user_id: owned(user_id),
            event_id: owned(event_id),
            room_id: owned(room_id),
            notification_type,
            content: event_content,
            created_at: now_millis,
            read: false,
            delivered: false,
            actions,
            priority,
        }
    }

    /// The time bound and page size of a notification listing: the time
    /// that the `from` token carries, when it can be read, and the limit,
    /// 50 by default.
    pub fn notification_page_request(&self, from: Option<&str>, limit: Option<u32>) -> (r: (Option<i64>, u32))
        ensures
            r.0 == match from {
                Some(t) => token_time(t@),
                None => None,
            },
            r.1 == match limit {
                Some(l) => l,
                None => 50u32,
            },
    {
        let from_time = match from {
            Some(t) => match self.parse_notification_token(t) {
                Ok(secs) => Some(secs),
                Err(_) => None,
            },
            None => None,
        };
        let limit_value = match limit {
            Some(l) => l,
            None => 50u32,
        };
        (from_time, limit_value)
    }

    /// The tokens of a page of notifications created at `created_at`
    /// (newest first): the next token is the last one's when the page is
    /// full, the previous token the first one's.
    pub fn notification_page_tokens(&self, created_at: &Vec<i64>, limit_value: u32) -> (r: (Option<String>, Option<String>))
        ensures
            r.0.is_some() <==> created_at@.len() == limit_value && created_at@.len() > 0,
            r.0.is_some() ==> r.0.unwrap()@ == token_of(created_at@.last() / 1000),
            r.1.is_some() <==> created_at@.len() > 0,
            r.1.is_some() ==> r.1.unwrap()@ == token_of(created_at@[0] / 1000),
    {
        let n = created_at.len();
        let next = if n == limit_value as usize && n > 0 {
            Some(self.create_notification_token(created_at[n - 1]))
        } else {
            None
        };
        let prev = if n > 0 {
            Some(self.create_notification_token(created_at[0]))
        } else {
            None
        };
        (next, prev)
    }

    /// The unread count of a user: the first count row, else none.
    pub fn get_notification_count(&self, counts: &Vec<u64>) -> (r: u64)
        ensures
            r == if counts@.len() > 0 { counts@[0] } else { 0 },
    {
        if counts.len() > 0 {
            counts[0]
        } else {
            0
        }
    }
}


/// A user's notification settings; `room_notifications` lists each room once.
#[derive(Debug)]
pub struct NotificationSettings {
    pub user_id: String,
    pub enabled: bool,
    pub sound_enabled: bool,
    pub badge_enabled: bool,
    pub room_notifications: Vec<(String, RoomNotificationSettings)>,
    pub keyword_notifications: Vec<String>,
    pub push_rules: Vec<crate::push::PushRule>,
    pub updated_at: i64,
}

impl<D> NotificationRepository<D> {
    /// The settings of a user who has stored none, at `now_millis`:
    /// notifications, sounds and badges on, nothing per room, no keywords,
    /// no rules.
    pub fn get_notification_settings(&self, user_id: &str, now_millis: i64) -> (r: NotificationSettings)
        ensures
            r.user_id@ == user_id@,
            r.enabled && r.sound_enabled && r.badge_enabled,
            r.room_notifications@.len() == 0,
            r.keyword_notifications@.len() == 0,
            r.push_rules@.len() == 0,
            r.updated_at == now_millis,
    {
        NotificationSettings {
            user_id: owned(user_id),
            enabled: true,
            sound_enabled: true,
            badge_enabled: true,
            room_notifications: Vec::new(),
            keyword_notifications: Vec::new(),
            push_rules: Vec::new(),
            updated_at: now_millis,
        }
    }
}

} // verus!
