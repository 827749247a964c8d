//! Deciding, per room member, whether an event is pushed and with what
//! notification content.
use vstd::prelude::*;
use crate::error::{owned, concat3};
use crate::numeric::{format_i64, signed_decimal};
use crate::push::{
    PushAction, PushEvent, ContentField, PushRule, PushRuleEvaluation, RoomContext, PushRepository,
    evaluation_of, default_rules,
};
use crate::push_gateway::{Pusher, PushGatewayRepository};
use crate::push_notification::{
    PushNotification, PushNotificationRecord, PushNotificationRepository, NotificationStatus,
};
use crate::pusher::PusherRepository;
use crate::room::RoomRepository;
use crate::error::RepositoryError;
use crate::text::str_eq;
use crate::push_notification::NotificationContent;

verus! {

/// A user's push settings for one room.
#[derive(Debug)]
pub struct RoomPushSettings {
    pub muted: bool,
    pub sound: Option<String>,
    pub highlight: bool,
}

/// A user's push settings; `room_overrides` lists each room once.
#[derive(Debug)]
pub struct PushSettings {
    pub enabled: bool,
    pub default_sound: Option<String>,
    pub default_highlight: bool,
    pub global_mute: bool,
    pub room_overrides: Vec<(String, RoomPushSettings)>,
}

/// What a cleanup of push data removed.
#[derive(Debug)]
pub struct PushCleanupResult {
    pub deleted_notifications: u64,
    pub deleted_attempts: u64,
    pub deleted_failed_pushers: u64,
}

/// The override for `room`, if any (the first listed).
pub open spec fn override_for(o: Seq<(String, RoomPushSettings)>, room: Seq<char>) -> Option<RoomPushSettings>
    decreases o.len(),
{
    if o.len() == 0 {
        None
    } else if o[0].0@ == room {
        Some(o[0].1)
    } else {
        override_for(o.drop_first(), room)
    }
}

/// Whether pushes reach a user in `room`: pushes are enabled, not globally
/// muted, and the room is not muted.
pub open spec fn pushes_allowed(s: PushSettings, room: Seq<char>) -> bool {
    s.enabled && !s.global_mute && match override_for(s.room_overrides@, room) {
        Some(o) => !o.muted,
        None => true,
    }
}

impl PushSettings {
    /// The settings every user starts with: pushes on, the default sound, no
    /// highlight, no mute, no room overrides.
    pub fn defaults() -> (r: PushSettings)
        ensures
            r.enabled,
            r.default_sound.is_some() && r.default_sound.unwrap()@ == "default"@,
            !r.default_highlight,
            !r.global_mute,
            r.room_overrides@.len() == 0,
    {
        PushSettings {
            enabled: true,
            default_sound: Some(owned("default")),
            default_highlight: false,
            global_mute: false,
            room_overrides: Vec::new(),
        }
    }

    /// Whether pushes for `room_id` reach the user.
    pub fn allows_push_in(&self, room_id: &str) -> (r: bool)
        ensures
            r == pushes_allowed(*self, room_id@),
    {
        if !self.enabled || self.global_mute {
            return false;
        }
        let o = &self.room_overrides;
        let mut i: usize = 0;
        assert(o@.subrange(0, o@.len() as int) =~= o@);
        while i < o.len()
            invariant
                i <= o@.len(),
                o@ == self.room_overrides@,
                self.enabled && !self.global_mute,
                override_for(o@, room_id@) == override_for(o@.subrange(i as int, o@.len() as int), room_id@),
            decreases o@.len() - i,
        {
            let ghost rest = o@.subrange(i as int, o@.len() as int);
            assert(rest.drop_first() =~= o@.subrange(i + 1, o@.len() as int));
            if str_eq(o[i].0.as_str(), room_id) {
                return !o[i].1.muted;
            }
            i = i + 1;
        }
        true
    }

}

/// The value that the last `SetTweak` of `actions` named `name` sets, if any.
pub open spec fn last_tweak(actions: Seq<PushAction>, name: Seq<char>) -> Option<String>
    decreases actions.len(),
{
    if actions.len() == 0 {
        None
    } else {
        match actions.last() {
            PushAction::SetTweak { set_tweak, value } => if set_tweak@ == name {
                Some(value)
            } else {
                last_tweak(actions.drop_last(), name)
            },
            _ => last_tweak(actions.drop_last(), name),
        }
    }
}

/// Whether `k` is the key of some entry of `t`.
pub open spec fn has_key(t: Seq<(String, String)>, k: Seq<char>) -> bool {
    exists|i: int| 0 <= i < t.len() && (#[trigger] t[i]).0@ == k
}

/// The value of the entry keyed `k` in `t` (keys distinct), if any.
pub open spec fn value_at(t: Seq<(String, String)>, k: Seq<char>) -> Option<String> {
    if has_key(t, k) {
        Some(t[choose|i: int| 0 <= i < t.len() && (#[trigger] t[i]).0@ == k].1)
    } else {
        None
    }
}

/// In `t` with distinct keys, the entry at `m` is the value of its key.
pub proof fn lemma_value_at_index(t: Seq<(String, String)>, m: int)
    requires
        crate::power_levels::keys_distinct(t),
        0 <= m < t.len(),
    ensures
        value_at(t, t[m].0@) == Some(t[m].1),
{
    assert(has_key(t, t[m].0@));
    let c = choose|i: int| 0 <= i < t.len() && (#[trigger] t[i]).0@ == t[m].0@;
    assert(c == m);
}

/// The position of the entry keyed `key`, if any.
fn find_key(t: &Vec<(String, String)>, key: &str) -> (r: Option<usize>)
    ensures
        r matches Some(j) ==> j < t@.len() && t@[j as int].0@ == key@,
        r.is_none() ==> !has_key(t@, key@),
{
    let mut j: usize = 0;
    while j < t.len()
        invariant
            j <= t@.len(),
            forall|m: int| 0 <= m < j ==> (#[trigger] t@[m]).0@ != key@,
        decreases t@.len() - j,
    {
        if str_eq(t[j].0.as_str(), key) {
            return Some(j);
        }
        j = j + 1;
    }
    None
}

/// The tweaks that a rule's actions set: each name once, with the value of
/// its last `SetTweak`.
pub fn collect_tweaks(actions: &Vec<PushAction>) -> (r: Vec<(String, String)>)
    ensures
        crate::power_levels::keys_distinct(r@),
        forall|k: Seq<char>| #[trigger] value_at(r@, k) == last_tweak(actions@, k),
{
    let mut t: Vec<(String, String)> = Vec::new();
    let mut i: usize = 0;
    while i < actions.len()
        invariant
            i <= actions@.len(),
            crate::power_levels::keys_distinct(t@),
            forall|k: Seq<char>| #[trigger] value_at(t@, k) == last_tweak(actions@.subrange(0, i as int), k),
        decreases actions@.len() - i,
    {
        let ghost before = t@;
        proof {
            assert(actions@.subrange(0, i + 1).drop_last() =~= actions@.subrange(0, i as int));
            assert(actions@.subrange(0, i + 1).last() == actions@[i as int]);
        }
        if let PushAction::SetTweak { set_tweak, value } = &actions[i] {
            match find_key(&t, set_tweak.as_str()) {
                Some(j) => {
                    let key = t[j].0.clone();
                    t.set(j, (key, value.clone()));
                    proof {
                        assert forall|a: int, b: int| 0 <= a < t@.len() && 0 <= b < t@.len() && a != b
                            implies t@[a].0@ != t@[b].0@ by {
                            assert(t@[a].0@ == before[a].0@ && t@[b].0@ == before[b].0@);
                        }
                        assert forall|k: Seq<char>| #[trigger] value_at(t@, k) == last_tweak(actions@.subrange(0, i + 1), k) by {
                            let p1 = actions@.subrange(0, i + 1);
                            assert(p1.last() == PushAction::SetTweak { set_tweak: *set_tweak, value: *value });
                            assert(last_tweak(p1, k) == (if set_tweak@ == k { Some(*value) } else {
                                last_tweak(p1.drop_last(), k) }));
                            assert(value_at(before, k) == last_tweak(actions@.subrange(0, i as int), k));
                            if k == set_tweak@ {
                                lemma_value_at_index(t@, j as int);
                            } else {
                                if has_key(before, k) {
                                    let m = choose|m: int| 0 <= m < before.len() && (#[trigger] before[m]).0@ == k;
                                    lemma_value_at_index(before, m);
                                    assert(t@[m] == before[m]);
                                    lemma_value_at_index(t@, m);
                                } else if has_key(t@, k) {
                                    let m = choose|m: int| 0 <= m < t@.len() && (#[trigger] t@[m]).0@ == k;
                                    assert(before[m].0@ == k);
                                }
                            }
                        }
                    }
                },
                None => {
                    t.push((set_tweak.clone(), value.clone()));
                    proof {
                        assert forall|a: int, b: int| 0 <= a < t@.len() && 0 <= b < t@.len() && a != b
                            implies t@[a].0@ != t@[b].0@ by {
                            if a < before.len() && b < before.len() {
                                assert(t@[a] == before[a] && t@[b] == before[b]);
                            } else if a < before.len() {
                                assert(t@[a] == before[a]);
                                assert(!has_key(before, set_tweak@));
                            } else {
                                assert(t@[b] == before[b]);
                                assert(!has_key(before, set_tweak@));
                            }
                        }
                        assert forall|k: Seq<char>| #[trigger] value_at(t@, k) == last_tweak(actions@.subrange(0, i + 1), k) by {
                            let p1 = actions@.subrange(0, i + 1);
                            assert(p1.last() == PushAction::SetTweak { set_tweak: *set_tweak, value: *value });
                            assert(last_tweak(p1, k) == (if set_tweak@ == k { Some(*value) } else {
                                last_tweak(p1.drop_last(), k) }));
                            assert(value_at(before, k) == last_tweak(actions@.subrange(0, i as int), k));
                            if k == set_tweak@ {
                                lemma_value_at_index(t@, before.len() as int);
                            } else {
                                if has_key(before, k) {
                                    let m = choose|m: int| 0 <= m < before.len() && (#[trigger] before[m]).0@ == k;
                                    lemma_value_at_index(before, m);
                                    assert(t@[m] == before[m]);
                                    lemma_value_at_index(t@, m);
                                } else if has_key(t@, k) {
                                    let m = choose|m: int| 0 <= m < t@.len() && (#[trigger] t@[m]).0@ == k;
                                    assert(m < before.len());
                                    assert(before[m].0@ == k);
                                }
                            }
                        }
                    }
                },
            }
        } else {
            proof {
                assert forall|k: Seq<char>| #[trigger] value_at(t@, k) == last_tweak(actions@.subrange(0, i + 1), k) by {
                    assert(value_at(t@, k) == last_tweak(actions@.subrange(0, i as int), k));
                }
            }
        }
        i = i + 1;
    }
    assert(actions@.subrange(0, actions@.len() as int) =~= actions@);
    t
}

/// The text of a content field, when it is text.
pub open spec fn text_of(f: ContentField) -> Option<String> {
    match f {
        ContentField::Text(s) => Some(s),
        _ => None,
    }
}

/// The notification content for `event` pushed with `actions`: the event's
/// type, sender, body and image URL, high priority, and the actions' tweaks
/// (none when no action sets one).
pub fn notification_content(
    event: &PushEvent,
    actions: &Vec<PushAction>,
    sender_display_name: Option<String>,
    room_name: Option<String>,
    unread_count: u64,
) -> (r: NotificationContent)
    ensures
        r.event_type == event.event_type,
        r.sender == event.sender,
        r.sender_display_name == sender_display_name,
        r.room_name == room_name,
        r.body == text_of(event.body),
        r.image_url == event.url,
        r.unread_count == unread_count,
        r.priority@ == "high"@,
        r.tweaks.is_none() <==> forall|k: Seq<char>| last_tweak(actions@, k).is_none(),
        r.tweaks.is_some() ==> crate::power_levels::keys_distinct(r.tweaks.unwrap()@)
            && forall|k: Seq<char>| #[trigger] value_at(r.tweaks.unwrap()@, k) == last_tweak(actions@, k),
{
    let tweaks = collect_tweaks(actions);
    let body = match &event.body {
        ContentField::Text(b) => Some(b.clone()),
        _ => None,
    };
    let image_url = crate::membership::clone_opt(&event.url);
    let t = if tweaks.len() == 0 {
        proof {
            assert forall|k: Seq<char>| last_tweak(actions@, k).is_none() by {
                assert(value_at(tweaks@, k).is_none());
            }
        }
        None
    } else {
        proof {
            let k = tweaks@[0].0@;
            assert(has_key(tweaks@, k));
            assert(value_at(tweaks@, k).is_some());
            assert(last_tweak(actions@, k).is_some());
        }
        Some(tweaks)
    };
    NotificationContent {
        event_type: event.event_type.clone(),
        sender: event.sender.clone(),
        sender_display_name,
        room_name,
        body,
        image_url,
        unread_count,
        priority: owned("high"),
        tweaks: t,
    }
}

/// The id of a push notification: `event_id:user_id:timestamp`.
pub fn notification_id(event_id: &str, user_id: &str, timestamp: i64) -> (r: String)
    ensures
        r@ == event_id@ + ":"@ + user_id@ + ":"@ + signed_decimal(timestamp as int),
{
    let ts = format_i64(timestamp);
    let mut s = concat3(event_id, ":", user_id);
    s.append(":");
    s.append(ts.as_str());
    s
}

/// The members of `members` other than `sender`, in order.
pub open spec fn others_than(members: Seq<String>, sender: Seq<char>) -> Seq<String>
    decreases members.len(),
{
    if members.len() == 0 {
        Seq::empty()
    } else {
        let rest = others_than(members.drop_last(), sender);
        if members.last()@ != sender {
            rest.push(members.last())
        } else {
            rest
        }
    }
}

/// The members an event is pushed to: everyone but its sender, in order.
pub fn push_recipients(members: &Vec<String>, sender: &str) -> (r: Vec<String>)
    ensures
        r@ == others_than(members@, sender@),
{
    let mut r: Vec<String> = Vec::new();
    let mut i: usize = 0;
    while i < members.len()
        invariant
            i <= members@.len(),
            r@ == others_than(members@.subrange(0, i as int), sender@),
        decreases members@.len() - i,
    {
        proof {
            assert(members@.subrange(0, i + 1).drop_last() =~= members@.subrange(0, i as int));
        }
        if !str_eq(members[i].as_str(), sender) {
            r.push(members[i].clone());
        }
        i = i + 1;
    }
    assert(members@.subrange(0, members@.len() as int) =~= members@);
    r
}

/// The receipt a push gateway gives for a notification; `timestamp` is in
/// milliseconds since the UNIX epoch.
#[derive(Debug)]
pub struct PushReceipt {
    pub notification_id: String,
    pub delivered: bool,
    pub timestamp: i64,
    pub error_message: Option<String>,
}

/// How far back push data is kept: thirty days, in milliseconds.
pub const PUSH_DATA_RETENTION_MILLIS: i64 = 2_592_000_000;

/// The failure count at which a pusher is dropped.
pub const PUSHER_FAILURE_THRESHOLD: u32 = 10;

/// Push delivery: rules, gateways, notifications, rooms and members, each
/// through its repository over a clone of one store handle.
pub struct PushService<D> {
    push_repo: PushRepository<D>,
    gateway_repo: PushGatewayRepository<D>,
    notification_repo: PushNotificationRepository<D>,
    room_repo: RoomRepository<D>,
    pusher_repo: PusherRepository<D>,
}

impl<D: Clone> PushService<D> {
    /// The store handles of its repositories, in field order.
    pub closed spec fn handles(&self) -> (D, D, D, D, D) {
        (
            self.push_repo.handle(),
            self.gateway_repo.handle(),
            self.notification_repo.handle(),
            self.room_repo.handle(),
            self.pusher_repo.handle(),
        )
    }

    /// A service whose repositories each hold a clone of `db`.
    pub fn new(db: D) -> (r: Self)
        ensures
            cloned(db, r.handles().0),
            cloned(db, r.handles().1),
            cloned(db, r.handles().2),
            cloned(db, r.handles().3),
            r.handles().4 == db,
    {
        PushService {
            push_repo: PushRepository::new(db.clone()),
            gateway_repo: PushGatewayRepository::new(db.clone()),
            notification_repo: PushNotificationRepository::new(db.clone()),
            room_repo: RoomRepository::new(db.clone()),
            pusher_repo: PusherRepository::new(db),
        }
    }

    /// The push-rule repository.
    pub fn push_repo(&self) -> (r: &PushRepository<D>)
        ensures
            r.handle() == self.handles().0,
    {
        &self.push_repo
    }

    /// The pusher and attempt repository.
    pub fn gateway_repo(&self) -> (r: &PushGatewayRepository<D>)
        ensures
            r.handle() == self.handles().1,
    {
        &self.gateway_repo
    }

    /// The notification repository.
    pub fn notification_repo(&self) -> (r: &PushNotificationRepository<D>)
        ensures
            r.handle() == self.handles().2,
    {
        &self.notification_repo
    }

    /// The room repository.
    pub fn room_repo(&self) -> (r: &RoomRepository<D>)
        ensures
            r.handle() == self.handles().3,
    {
        &self.room_repo
    }

    /// The member and room-fact repository.
    pub fn pusher_repo(&self) -> (r: &PusherRepository<D>)
        ensures
            r.handle() == self.handles().4,
    {
        &self.pusher_repo
    }

    /// A user's push settings: every user has the defaults.
    pub fn get_user_push_settings(&self, user_id: &str) -> (r: PushSettings)
        ensures
            r.enabled,
            r.default_sound.is_some() && r.default_sound.unwrap()@ == "default"@,
            !r.default_highlight,
            !r.global_mute,
            r.room_overrides@.len() == 0,
    {
        PushSettings::defaults()
    }

    /// The notification, if any, that `event` in the room of
    /// `room_context` gives `user_id`, from the user's settings, push rules
    /// and pushers and the facts the content shows. None when the settings
    /// mute the room, the rules do not notify, or the user has no pusher;
    /// else a pending notification through the first pusher, created at
    /// `now_millis` and named with `now_secs`.
    pub fn evaluate_push_for_user(
        &self,
        user_id: &str,
        event: &PushEvent,
        room_context: &RoomContext,
        settings: &PushSettings,
        user_rules: &Vec<PushRule>,
        pushers: &Vec<Pusher>,
        sender_display_name: Option<String>,
        room_name: Option<String>,
        unread_count: u64,
        now_secs: i64,
        now_millis: i64,
    ) -> (r: Option<PushNotification>)
        ensures
            !pushes_allowed(*settings, room_context.room_id@) ==> r.is_none(),
            pushes_allowed(*settings, room_context.room_id@) ==> exists|ev: PushRuleEvaluation|
                #[trigger] rules_give(*user_rules, *event, *room_context, ev) && push_for(
                    r,
                    ev,
                    user_id@,
                    *event,
                    *room_context,
                    pushers@,
                    sender_display_name,
                    room_name,
                    unread_count,
                    now_secs,
                    now_millis,
                ),
    {
        if !settings.allows_push_in(room_context.room_id.as_str()) {
            return None;
        }
        let evaluation = self.push_repo.evaluate_push_rules(user_rules, event, room_context);
        assert(rules_give(*user_rules, *event, *room_context, evaluation));
        if !evaluation.should_notify || pushers.len() == 0 {
            return None;
        }
        let id = notification_id(event.event_id.as_str(), user_id, now_secs);
        let ghost sdn = sender_display_name;
        let ghost rn = room_name;
        let content = notification_content(event, &evaluation.actions, sender_display_name, room_name, unread_count);
        let r = Some(PushNotification {
            notification_id: id,
            user_id: owned(user_id),
            event_id: event.event_id.clone(),
            room_id: room_context.room_id.clone(),
            pusher_key: pushers[0].pusher_key.clone(),
            content,
            created_at: now_millis,
            status: NotificationStatus::Pending,
        });
        assert(push_for(r, evaluation, user_id@, *event, *room_context, pushers@, sdn, rn, unread_count, now_secs, now_millis));
        r
    }

    /// The stored notification after its gateway's receipt: delivered at the
    /// receipt's time, or failed with the receipt's message (else
    /// `Delivery failed`) at `now_millis`.
    pub fn handle_push_receipt(
        &self,
        notification_id: &str,
        receipt: &PushReceipt,
        existing: Option<PushNotificationRecord>,
        now_millis: i64,
    ) -> (r: Result<PushNotificationRecord, RepositoryError>)
        requires
            existing.is_some() ==> existing.unwrap().attempts < u32::MAX,
        ensures
            existing.is_none() ==> r.is_err(),
            existing.is_some() ==> r.is_ok() && ({
                let old = existing.unwrap();
                let new = r->Ok_0;
                if receipt.delivered {
                    &&& new.notification_data.status == NotificationStatus::Delivered
                    &&& new.delivered_at == Some(receipt.timestamp)
                    &&& new.attempts == old.attempts
                } else {
                    &&& new.notification_data.status == NotificationStatus::Failed
                    &&& crate::text::opt_view(new.error_message) == Some(match receipt.error_message {
                        Some(m) => m@,
                        None => "Delivery failed"@,
                    })
                    &&& new.attempts == old.attempts + 1
                    &&& new.last_attempt == Some(now_millis)
                }
            }),
    {
        if receipt.delivered {
            self.notification_repo.mark_notification_delivered(notification_id, existing, receipt.timestamp)
        } else {
            let msg: &str = match &receipt.error_message {
                Some(m) => m.as_str(),
                None => "Delivery failed",
            };
            self.notification_repo.mark_notification_failed(notification_id, existing, msg, now_millis)
        }
    }

    /// The time before which push data is dropped: thirty days before
    /// `now_millis`.
    pub fn cleanup_cutoff(&self, now_millis: i64) -> (r: i64)
        requires
            now_millis >= i64::MIN + PUSH_DATA_RETENTION_MILLIS,
        ensures
            r == now_millis - PUSH_DATA_RETENTION_MILLIS,
    {
        now_millis - PUSH_DATA_RETENTION_MILLIS
    }
}

/// `ev` is what the user's rules (or the default rules, when the user has
/// none) give for the event.
pub open spec fn rules_give(user_rules: Vec<PushRule>, e: PushEvent, c: RoomContext, ev: PushRuleEvaluation) -> bool {
    &&& (user_rules@.len() > 0 ==> evaluation_of(user_rules@, e, c, ev))
    &&& (user_rules@.len() == 0 ==> exists|d: Seq<PushRule>| default_rules(d) && evaluation_of(d, e, c, ev))
}

/// `r` is the push outcome when the rules gave `ev`: a pending notification
/// through the first pusher exactly when `ev` notifies and there is one.
pub open spec fn push_for(
    r: Option<PushNotification>,
    ev: PushRuleEvaluation,
    user_id: Seq<char>,
    e: PushEvent,
    c: RoomContext,
    pushers: Seq<Pusher>,
    sender_display_name: Option<String>,
    room_name: Option<String>,
    unread_count: u64,
    now_secs: i64,
    now_millis: i64,
) -> bool {
    &&& (r.is_some() <==> ev.should_notify && pushers.len() > 0)
    &&& r.is_some() ==> {
        let n = r.unwrap();
        &&& n.notification_id@ == e.event_id@ + ":"@ + user_id + ":"@ + signed_decimal(now_secs as int)
        &&& n.user_id@ == user_id
        &&& n.event_id@ == e.event_id@
        &&& n.room_id@ == c.room_id@
        &&& n.pusher_key@ == pushers[0].pusher_key@
        &&& n.created_at == now_millis
        &&& n.status == NotificationStatus::Pending
        &&& content_for(n.content, e, ev.actions@, sender_display_name, room_name, unread_count)
    }
}

/// `c` is the content of a notification for `e` pushed with `actions`.
pub open spec fn content_for(
    c: NotificationContent,
    e: PushEvent,
    actions: Seq<PushAction>,
    sender_display_name: Option<String>,
    room_name: Option<String>,
    unread_count: u64,
) -> bool {
    &&& c.event_type == e.event_type
    &&& c.sender == e.sender
    &&& c.sender_display_name == sender_display_name
    &&& c.room_name == room_name
    &&& c.body == text_of(e.body)
    &&& c.image_url == e.url
    &&& c.unread_count == unread_count
    &&& c.priority@ == "high"@
    &&& (c.tweaks.is_none() <==> forall|k: Seq<char>| last_tweak(actions, k).is_none())
    &&& c.tweaks.is_some() ==> crate::power_levels::keys_distinct(c.tweaks.unwrap()@)
        && forall|k: Seq<char>| #[trigger] value_at(c.tweaks.unwrap()@, k) == last_tweak(actions, k)
}


/// The overrides without those for `room`, in order.
pub open spec fn without_room(o: Seq<(String, RoomPushSettings)>, room: Seq<char>) -> Seq<(String, RoomPushSettings)>
    decreases o.len(),
{
    if o.len() == 0 {
        Seq::empty()
    } else {
        let rest = without_room(o.drop_last(), room);
        if o.last().0@ == room { rest } else { rest.push(o.last()) }
    }
}

/// The override found in `a + b` is the one found in `a`, else in `b`.
pub proof fn lemma_override_for_append(a: Seq<(String, RoomPushSettings)>, b: Seq<(String, RoomPushSettings)>, room: Seq<char>)
    ensures
        override_for(a + b, room) == match override_for(a, room) {
            Some(x) => Some(x),
            None => override_for(b, room),
        },
    decreases a.len(),
{
    if a.len() > 0 {
        assert((a + b).drop_first() =~= a.drop_first() + b);
        lemma_override_for_append(a.drop_first(), b, room);
    } else {
        assert(a + b =~= b);
    }
}

/// Dropping the overrides of `room` leaves the others as they were.
pub proof fn lemma_override_without_room(o: Seq<(String, RoomPushSettings)>, room: Seq<char>, r: Seq<char>)
    ensures
        override_for(without_room(o, room), r) == if r == room { None } else { override_for(o, r) },
    decreases o.len(),
{
    if o.len() > 0 {
        let p = o.drop_last();
        let x = o.last();
        lemma_override_without_room(p, room, r);
        assert(o =~= p + seq![x]);
        lemma_override_for_append(p, seq![x], r);
        let e = Seq::<(String, RoomPushSettings)>::empty();
        assert(override_for(e, r) == None::<RoomPushSettings>);
        assert(seq![x].drop_first() =~= e);
        assert(override_for(seq![x], r) == if x.0@ == r { Some(x.1) } else { None::<RoomPushSettings> });
        let w = without_room(p, room);
        if x.0@ != room {
            assert(w.push(x) =~= w + seq![x]);
            lemma_override_for_append(w, seq![x], r);
        }
    }
}

impl<D: Clone> PushService<D> {
    /// The settings with the room `room_id` muted or unmuted: its override
    /// becomes `muted`, without sound or highlight; other rooms keep theirs.
    /// A muted room then gets no pushes.
    pub fn mute_room_notifications(&self, settings: PushSettings, room_id: &str, muted: bool) -> (r: PushSettings)
        ensures
            r.enabled == settings.enabled,
            r.default_sound == settings.default_sound,
            r.default_highlight == settings.default_highlight,
            r.global_mute == settings.global_mute,
            override_for(r.room_overrides@, room_id@) == Some(RoomPushSettings { muted, sound: None, highlight: false }),
            forall|other: Seq<char>| other != room_id@ ==> #[trigger] override_for(r.room_overrides@, other)
                == override_for(settings.room_overrides@, other),
            muted ==> !pushes_allowed(r, room_id@),
            !muted ==> (pushes_allowed(r, room_id@) <==> (r.enabled && !r.global_mute)),
    {
        let ghost old = settings.room_overrides@;
        let PushSettings { enabled, default_sound, default_highlight, global_mute, room_overrides } = settings;
        let mut rest = room_overrides;
        let total: usize = rest.len();
        let mut kept: Vec<(String, RoomPushSettings)> = Vec::new();
        let mut taken: usize = 0;
        while taken < total
            invariant
                taken <= total,
                old.len() == total,
                rest@ =~= old.subrange(taken as int, old.len() as int),
                kept@ == without_room(old.subrange(0, taken as int), room_id@),
            decreases total - taken,
        {
            let ghost p = old.subrange(0, taken as int);
            let ghost q = old.subrange(0, taken + 1);
            assert(q.drop_last() =~= p);
            let entry = rest.remove(0);
            assert(entry == old[taken as int]);
            if !str_eq(entry.0.as_str(), room_id) {
                kept.push(entry);
            }
            taken = taken + 1;
            assert(rest@ =~= old.subrange(taken as int, old.len() as int));
        }
        assert(old.subrange(0, old.len() as int) =~= old);
        let ghost w = kept@;
        let pair = (owned(room_id), RoomPushSettings { muted, sound: None, highlight: false });
        let ghost pg = pair;
        kept.push(pair);
        proof {
            assert(kept@ =~= w.push(pg));
            assert(kept@ =~= w + seq![pg]);
            assert forall|r: Seq<char>| #![trigger override_for(kept@, r)] override_for(kept@, r) == if r == room_id@ {
                Some(RoomPushSettings { muted, sound: None, highlight: false })
            } else {
                override_for(old, r)
            } by {
                lemma_override_without_room(old, room_id@, r);
                lemma_override_for_append(w, seq![pg], r);
                assert(seq![pg].drop_first() =~= Seq::<(String, RoomPushSettings)>::empty());
                assert(override_for(Seq::<(String, RoomPushSettings)>::empty(), r) == None::<RoomPushSettings>);
            }
            assert(override_for(kept@, room_id@) == Some(RoomPushSettings { muted, sound: None, highlight: false }));
        }
        PushSettings { enabled, default_sound, default_highlight, global_mute, room_overrides: kept }
    }
}

} // verus!
