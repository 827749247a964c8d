//! Room power levels: who may do what, and which changes of the levels
//! themselves a sender may make.
use vstd::prelude::*;
use crate::error::{RepositoryError, is_forbidden, owned, concat2, concat3};
use crate::numeric::{format_i64, signed_decimal};
use crate::text::str_eq;
use crate::codec::{new_uuid_v4, uuid_text_shape};

verus! {

/// The power levels of a room. `users` and `events` map user ids and event
/// types to levels; no key occurs twice in either (see `wf`).
#[derive(Debug)]
pub struct PowerLevels {
    pub users: Vec<(String, i32)>,
    pub users_default: i32,
    pub events: Vec<(String, i32)>,
    pub events_default: i32,
    pub state_default: i32,
    pub ban: i32,
    pub kick: i32,
    pub redact: i32,
    pub invite: i32,
}

/// An action whose required power level is looked up.
#[derive(Debug)]
pub enum PowerLevelAction {
    Ban,
    Kick,
    Invite,
    Redact,
    SendMessage,
    SendState(String),
    ChangeSettings,
    ChangePowerLevels,
}

/// The level that `entries` give `key`, if any (the first entry with that key).
pub open spec fn lookup<T>(entries: Seq<(String, T)>, key: Seq<char>) -> Option<T>
    decreases entries.len(),
{
    if entries.len() == 0 {
        None
    } else if entries[0].0@ == key {
        Some(entries[0].1)
    } else {
        lookup(entries.drop_first(), key)
    }
}

/// No key occurs twice in `entries`.
pub open spec fn keys_distinct<T>(entries: Seq<(String, T)>) -> bool {
    forall|i: int, j: int|
        0 <= i < entries.len() && 0 <= j < entries.len() && i != j ==> entries[i].0@
            != entries[j].0@
}

pub proof fn lemma_lookup<T>(entries: Seq<(String, T)>, key: Seq<char>)
    ensures
        lookup(entries, key).is_some() <==> exists|i: int|
            0 <= i < entries.len() && (#[trigger] entries[i]).0@ == key,
        lookup(entries, key).is_some() ==> exists|i: int|
            0 <= i < entries.len() && (#[trigger] entries[i]).0@ == key && entries[i].1 == lookup(
                entries,
                key,
            ).unwrap() && forall|j: int| 0 <= j < i ==> entries[j].0@ != key,
    decreases entries.len(),
{
    if entries.len() > 0 && entries[0].0@ != key {
        let rest = entries.drop_first();
        lemma_lookup(rest, key);
        if lookup(rest, key).is_some() {
            let i = choose|i: int|
                0 <= i < rest.len() && (#[trigger] rest[i]).0@ == key && rest[i].1 == lookup(
                    rest,
                    key,
                ).unwrap() && forall|j: int| 0 <= j < i ==> rest[j].0@ != key;
            assert(entries[i + 1] == rest[i]);
            assert forall|j: int| 0 <= j < i + 1 implies entries[j].0@ != key by {
                if j > 0 {
                    assert(entries[j] == rest[j - 1]);
                }
            }
        }
        if exists|i: int| 0 <= i < entries.len() && (#[trigger] entries[i]).0@ == key {
            let i = choose|i: int| 0 <= i < entries.len() && (#[trigger] entries[i]).0@ == key;
            assert(rest[i - 1] == entries[i]);
        }
    }
}

/// The level that `entries` give `key`, if any.
pub fn find_level<T: Copy>(entries: &Vec<(String, T)>, key: &str) -> (r: Option<T>)
    ensures
        r == lookup(entries@, key@),
{
    let mut i: usize = 0;
    assert(entries@.subrange(0, entries@.len() as int) =~= entries@);
    while i < entries.len()
        invariant
            i <= entries@.len(),
            lookup(entries@, key@) == lookup(entries@.subrange(i as int, entries@.len() as int), key@),
        decreases entries@.len() - i,
    {
        let ghost rest = entries@.subrange(i as int, entries@.len() as int);
        assert(rest.drop_first() =~= entries@.subrange(i + 1, entries@.len() as int));
        if str_eq(entries[i].0.as_str(), key) {
            return Some(entries[i].1);
        }
        i = i + 1;
    }
    None
}

/// The required-level table of actions.
pub open spec fn required_level_spec(pl: PowerLevels, action: PowerLevelAction) -> i32 {
    match action {
        PowerLevelAction::Ban => pl.ban,
        PowerLevelAction::Kick => pl.kick,
        PowerLevelAction::Invite => pl.invite,
        PowerLevelAction::Redact => pl.redact,
        PowerLevelAction::SendMessage => pl.events_default,
        PowerLevelAction::SendState(t) => match lookup(pl.events@, t@) {
            Some(l) => l,
            None => pl.state_default,
        },
        PowerLevelAction::ChangeSettings => pl.state_default,
        PowerLevelAction::ChangePowerLevels => match lookup(pl.events@, "m.room.power_levels"@) {
            Some(l) => l,
            None => 100,
        },
    }
}

/// Power levels: the decisions of each operation are here; the handle `D`
/// is what the caller reads and writes the store with.
pub struct PowerLevelsRepository<D> {
    db: D,
}

impl<D> PowerLevelsRepository<D> {
    /// The store handle this repository was made with.
    pub closed spec fn handle(&self) -> D {
        self.db
    }

    pub fn new(db: D) -> (r: Self)
        ensures
            r.handle() == db,
    {
        PowerLevelsRepository { db }
    }

    /// The store handle.
    pub fn db(&self) -> (r: &D)
        ensures
            *r == self.handle(),
    {
        &self.db
    }
}

impl PowerLevels {
    /// No user and no event type is listed twice.
    pub open spec fn wf(&self) -> bool {
        keys_distinct(self.users@) && keys_distinct(self.events@)
    }

    /// The level of `user`: the listed one, else the users' default.
    pub open spec fn level_of(&self, user: Seq<char>) -> i32 {
        match lookup(self.users@, user) {
            Some(l) => l,
            None => self.users_default,
        }
    }

    /// The level needed to change the power levels: the one listed for
    /// `m.room.power_levels`, else 100.
    pub open spec fn power_levels_change_level(&self) -> i32 {
        match lookup(self.events@, "m.room.power_levels"@) {
            Some(l) => l,
            None => 100,
        }
    }

    /// The power levels of a room that has no power-levels event.
    pub fn defaults() -> (r: PowerLevels)
        ensures
            r.users@.len() == 0,
            r.events@.len() == 0,
            r.users_default == 0,
            r.events_default == 0,
            r.state_default == 50,
            r.ban == 50,
            r.kick == 50,
            r.redact == 50,
            r.invite == 50,
            r.wf(),
    {
        PowerLevels {
            users: Vec::new(),
            users_default: 0,
            events: Vec::new(),
            events_default: 0,
            state_default: 50,
            ban: 50,
            kick: 50,
            redact: 50,
            invite: 50,
        }
    }

    /// The power levels read from a power-levels event's content: each
    /// missing number takes its default, and every number is cut to 32 bits.
    pub fn from_content(
        users: Vec<(String, i64)>,
        users_default: Option<i64>,
        events: Vec<(String, i64)>,
        events_default: Option<i64>,
        state_default: Option<i64>,
        ban: Option<i64>,
        kick: Option<i64>,
        redact: Option<i64>,
        invite: Option<i64>,
    ) -> (r: PowerLevels)
        ensures
            r.users@.len() == users@.len(),
            forall|i: int| 0 <= i < users@.len() ==> (#[trigger] r.users@[i]).0 == users@[i].0
                && r.users@[i].1 == users@[i].1 as i32,
            r.events@.len() == events@.len(),
            forall|i: int| 0 <= i < events@.len() ==> (#[trigger] r.events@[i]).0 == events@[i].0
                && r.events@[i].1 == events@[i].1 as i32,
            r.users_default == users_default.unwrap_or(0) as i32,
            r.events_default == events_default.unwrap_or(0) as i32,
            r.state_default == state_default.unwrap_or(50) as i32,
            r.ban == ban.unwrap_or(50) as i32,
            r.kick == kick.unwrap_or(50) as i32,
            r.redact == redact.unwrap_or(50) as i32,
            r.invite == invite.unwrap_or(50) as i32,
    {
        PowerLevels {
            users: cut_levels(&users),
            users_default: users_default.unwrap_or(0) as i32,
            events: cut_levels(&events),
            events_default: events_default.unwrap_or(0) as i32,
            state_default: state_default.unwrap_or(50) as i32,
            ban: ban.unwrap_or(50) as i32,
            kick: kick.unwrap_or(50) as i32,
            redact: redact.unwrap_or(50) as i32,
            invite: invite.unwrap_or(50) as i32,
        }
    }

    /// The level of `user_id`.
    pub fn user_level(&self, user_id: &str) -> (r: i32)
        ensures
            r == self.level_of(user_id@),
    {
        match find_level(&self.users, user_id) {
            Some(l) => l,
            None => self.users_default,
        }
    }

    /// The level that `action` requires.
    pub fn required_level(&self, action: &PowerLevelAction) -> (r: i32)
        ensures
            r == required_level_spec(*self, *action),
    {
        match action {
            PowerLevelAction::Ban => self.ban,
            PowerLevelAction::Kick => self.kick,
            PowerLevelAction::Invite => self.invite,
            PowerLevelAction::Redact => self.redact,
            PowerLevelAction::SendMessage => self.events_default,
            PowerLevelAction::SendState(t) => match find_level(&self.events, t.as_str()) {
                Some(l) => l,
                None => self.state_default,
            },
            PowerLevelAction::ChangeSettings => self.state_default,
            PowerLevelAction::ChangePowerLevels => match find_level(
                &self.events,
                "m.room.power_levels",
            ) {
                Some(l) => l,
                None => 100,
            },
        }
    }

    /// Whether `user_id` may perform `action`: its level reaches the required one.
    pub fn can_user_perform_action(&self, user_id: &str, action: &PowerLevelAction) -> (r: bool)
        ensures
            r == (self.level_of(user_id@) >= required_level_spec(*self, *action)),
    {
        self.user_level(user_id) >= self.required_level(action)
    }
}

fn cut_levels(v: &Vec<(String, i64)>) -> (r: Vec<(String, i32)>)
    ensures
        r@.len() == v@.len(),
        forall|i: int| 0 <= i < v@.len() ==> (#[trigger] r@[i]).0 == v@[i].0 && r@[i].1
            == v@[i].1 as i32,
{
    let mut r: Vec<(String, i32)> = Vec::new();
    let mut i: usize = 0;
    while i < v.len()
        invariant
            i <= v@.len(),
            r@.len() == i,
            forall|k: int| 0 <= k < i ==> (#[trigger] r@[k]).0 == v@[k].0 && r@[k].1
                == v@[k].1 as i32,
        decreases v@.len() - i,
    {
        r.push((v[i].0.clone(), v[i].1 as i32));
        i = i + 1;
    }
    r
}

/// The level of `user` in `pl`, widened.
pub open spec fn lvl(pl: PowerLevels, user: Seq<char>) -> int {
    pl.level_of(user) as int
}

/// Why a sender may not replace `current` by `new`, if it may not. The
/// checks run in order: the sender's right to change power levels, each
/// user's new level (demotions, then promotions), each event level, and the
/// sender's own level.
pub open spec fn first_user_violation(
    current: PowerLevels,
    sender_level: int,
    users: Seq<(String, i32)>,
) -> Option<Seq<char>>
    decreases users.len(),
{
    if users.len() == 0 {
        None
    } else {
        let (u, new_level) = users[0];
        let old_level = lvl(current, u@);
        if (new_level as int) < old_level && sender_level <= old_level {
            Some("Cannot demote user "@ + u@ + " with equal or higher power level"@)
        } else if (new_level as int) > old_level && sender_level < new_level {
            Some("Cannot promote user "@ + u@ + " above your power level"@)
        } else {
            first_user_violation(current, sender_level, users.drop_first())
        }
    }
}

pub open spec fn first_event_violation(sender_level: int, events: Seq<(String, i32)>) -> Option<
    Seq<char>,
>
    decreases events.len(),
{
    if events.len() == 0 {
        None
    } else if sender_level < events[0].1 {
        Some("Cannot set power level for "@ + events[0].0@ + " above your own level"@)
    } else {
        first_event_violation(sender_level, events.drop_first())
    }
}

/// The refusal reason of a power-levels update, or `None` when it is allowed.
pub open spec fn update_refusal(current: PowerLevels, sender: Seq<char>, new: PowerLevels) -> Option<
    Seq<char>,
> {
    let s = lvl(current, sender);
    let req = current.power_levels_change_level() as int;
    if s < req {
        Some(
            "Insufficient power level to change power levels: "@ + signed_decimal(s) + " < "@
                + signed_decimal(req),
        )
    } else if first_user_violation(current, s, new.users@).is_some() {
        first_user_violation(current, s, new.users@)
    } else if first_event_violation(s, new.events@).is_some() {
        first_event_violation(s, new.events@)
    } else if lookup(new.users@, sender).is_some() && lookup(new.users@, sender).unwrap() > s {
        Some("Cannot increase own power level"@)
    } else {
        None
    }
}

pub proof fn lemma_no_user_violation(current: PowerLevels, s: int, users: Seq<(String, i32)>)
    requires
        first_user_violation(current, s, users).is_none(),
    ensures
        forall|i: int|
            0 <= i < users.len() ==> {
                let (u, l) = #[trigger] users[i];
                &&& (l as int) < lvl(current, u@) ==> lvl(current, u@) < s
                &&& (l as int) > lvl(current, u@) ==> l <= s
            },
    decreases users.len(),
{
    if users.len() > 0 {
        lemma_no_user_violation(current, s, users.drop_first());
        assert forall|i: int| 0 < i < users.len() implies users[i] == users.drop_first()[i - 1] by {}
    }
}

pub proof fn lemma_no_event_violation(s: int, events: Seq<(String, i32)>)
    requires
        first_event_violation(s, events).is_none(),
    ensures
        forall|i: int| 0 <= i < events.len() ==> (#[trigger] events[i]).1 <= s,
    decreases events.len(),
{
    if events.len() > 0 {
        lemma_no_event_violation(s, events.drop_first());
        assert forall|i: int| 0 < i < events.len() implies events[i] == events.drop_first()[i - 1] by {}
    }
}

/// An accepted power-levels update never gives anyone more power than the
/// sender has, never demotes anyone at or above the sender's level, never
/// sets an event level above the sender's, and needs the sender to hold the
/// level for changing power levels.
pub proof fn law_accepted_update_respects_sender(
    current: PowerLevels,
    sender: Seq<char>,
    new: PowerLevels,
)
    requires
        update_refusal(current, sender, new).is_none(),
    ensures
        lvl(current, sender) >= current.power_levels_change_level(),
        forall|i: int|
            0 <= i < new.users@.len() ==> {
                let (u, l) = #[trigger] new.users@[i];
                &&& (l as int) > lvl(current, u@) ==> l <= lvl(current, sender)
                &&& (l as int) < lvl(current, u@) ==> lvl(current, u@) < lvl(current, sender)
            },
        forall|i: int| 0 <= i < new.events@.len() ==> (#[trigger] new.events@[i]).1 <= lvl(current, sender),
        lookup(new.users@, sender).is_some() ==> lookup(new.users@, sender).unwrap() <= lvl(current, sender),
{
    lemma_no_user_violation(current, lvl(current, sender), new.users@);
    lemma_no_event_violation(lvl(current, sender), new.events@);
}

impl<D> PowerLevelsRepository<D> {
    /// Whether `sender` may replace the power levels `current` by `new`: `Ok`
    /// exactly when `update_refusal` finds nothing, else `Forbidden` with its reason.
    pub fn validate_power_levels_update(
        &self,
        current: &PowerLevels,
        sender_id: &str,
        new_power_levels: &PowerLevels,
    ) -> (r: Result<(), RepositoryError>)
        ensures
            r.is_ok() <==> update_refusal(*current, sender_id@, *new_power_levels).is_none(),
            r.is_err() ==> is_forbidden(
                r->Err_0,
                update_refusal(*current, sender_id@, *new_power_levels).unwrap(),
            ),
    {
        let sender_power = current.user_level(sender_id);
        let required_power = match find_level(&current.events, "m.room.power_levels") {
            Some(l) => l,
            None => 100,
        };
        if sender_power < required_power {
            let a = format_i64(sender_power as i64);
            let b = format_i64(required_power as i64);
            let mut reason = concat3("Insufficient power level to change power levels: ", a.as_str(), " < ");
            reason.append(b.as_str());
            return Err(RepositoryError::Forbidden { reason });
        }
        let users = &new_power_levels.users;
        let mut i: usize = 0;
        assert(users@.subrange(0, users@.len() as int) =~= users@);
        while i < users.len()
            invariant
                i <= users@.len(),
                users@ == new_power_levels.users@,
                sender_power == current.level_of(sender_id@),
                sender_power >= current.power_levels_change_level(),
                first_user_violation(*current, sender_power as int, users@) == first_user_violation(
                    *current,
                    sender_power as int,
                    users@.subrange(i as int, users@.len() as int),
                ),
            decreases users@.len() - i,
        {
            let ghost rest = users@.subrange(i as int, users@.len() as int);
            assert(rest.drop_first() =~= users@.subrange(i + 1, users@.len() as int));
            let user_id = users[i].0.as_str();
            let new_level = users[i].1;
            let old_level = current.user_level(user_id);
            if new_level < old_level && sender_power <= old_level {
                let reason = concat3("Cannot demote user ", user_id, " with equal or higher power level");
                return Err(RepositoryError::Forbidden { reason });
            }
            if new_level > old_level && sender_power < new_level {
                let reason = concat3("Cannot promote user ", user_id, " above your power level");
                return Err(RepositoryError::Forbidden { reason });
            }
            i = i + 1;
        }
        let events = &new_power_levels.events;
        let mut j: usize = 0;
        assert(events@.subrange(0, events@.len() as int) =~= events@);
        assert(users@.subrange(users@.len() as int, users@.len() as int) =~= Seq::<(String, i32)>::empty());
        while j < events.len()
            invariant
                j <= events@.len(),
                events@ == new_power_levels.events@,
                sender_power == current.level_of(sender_id@),
                sender_power >= current.power_levels_change_level(),
                first_user_violation(*current, sender_power as int, new_power_levels.users@).is_none(),
                first_event_violation(sender_power as int, events@) == first_event_violation(
                    sender_power as int,
                    events@.subrange(j as int, events@.len() as int),
                ),
            decreases events@.len() - j,
        {
            let ghost rest = events@.subrange(j as int, events@.len() as int);
            assert(rest.drop_first() =~= events@.subrange(j + 1, events@.len() as int));
            if sender_power < events[j].1 {
                let reason = concat3(
                    "Cannot set power level for ",
                    events[j].0.as_str(),
                    " above your own level",
                );
                return Err(RepositoryError::Forbidden { reason });
            }
            j = j + 1;
        }
        if let Some(own) = find_level(&new_power_levels.users, sender_id) {
            if own > sender_power {
                return Err(RepositoryError::Forbidden { reason: owned("Cannot increase own power level") });
            }
        }
        Ok(())
    }
}

impl<D> PowerLevelsRepository<D> {
    /// Whether `user_id` may set `target_user`'s level to `new_level`: it may
    /// change the power levels, and its level is above both the target's
    /// current level and the new one.
    pub fn validate_power_level_change(
        &self,
        power_levels: &PowerLevels,
        user_id: &str,
        target_user: &str,
        new_level: i32,
    ) -> (r: bool)
        ensures
            r == (power_levels.level_of(user_id@) >= power_levels.power_levels_change_level()
                && power_levels.level_of(user_id@) > power_levels.level_of(target_user@)
                && power_levels.level_of(user_id@) > new_level),
    {
        let user_level = power_levels.user_level(user_id);
        let target_current_level = power_levels.user_level(target_user);
        let can_change = power_levels.can_user_perform_action(user_id, &PowerLevelAction::ChangePowerLevels);
        can_change && user_level > target_current_level && user_level > new_level
    }
}

impl<D> PowerLevelsRepository<D> {
    /// The level of `user_id` under `power_levels`.
    pub fn get_user_power_level(&self, power_levels: &PowerLevels, user_id: &str) -> (r: i32)
        ensures
            r == power_levels.level_of(user_id@),
    {
        power_levels.user_level(user_id)
    }
}

impl<D> PowerLevelsRepository<D> {
    /// Whether `user_id` may perform `action` under `power_levels`.
    pub fn can_user_perform_action(&self, power_levels: &PowerLevels, user_id: &str, action: PowerLevelAction) -> (r: bool)
        ensures
            r == (power_levels.level_of(user_id@) >= required_level_spec(*power_levels, action)),
    {
        power_levels.can_user_perform_action(user_id, &action)
    }
}

/// The power levels of a room as the room layer reads them: levels are
/// 64-bit, and `users`/`events` list each key once (see `wf`).
#[derive(Debug)]
pub struct RoomPowerLevels {
    pub users: Vec<(String, i64)>,
    pub users_default: i64,
    pub events: Vec<(String, i64)>,
    pub events_default: i64,
    pub state_default: i64,
    pub ban: i64,
    pub kick: i64,
    pub redact: i64,
    pub invite: i64,
}

impl RoomPowerLevels {
    pub open spec fn wf(&self) -> bool {
        keys_distinct(self.users@) && keys_distinct(self.events@)
    }

    /// The level of `user`: the listed one, else the users' default.
    pub open spec fn level_of(&self, user: Seq<char>) -> i64 {
        match lookup(self.users@, user) {
            Some(l) => l,
            None => self.users_default,
        }
    }

    /// The level listed for the event type `t`, else `default`.
    pub open spec fn event_level_or(&self, t: Seq<char>, default: i64) -> i64 {
        match lookup(self.events@, t) {
            Some(l) => l,
            None => default,
        }
    }

    /// The power levels of a room without a power-levels event.
    pub fn defaults() -> (r: RoomPowerLevels)
        ensures
            r.users@.len() == 0,
            r.events@.len() == 0,
            r.users_default == 0,
            r.events_default == 0,
            r.state_default == 50,
            r.ban == 50,
            r.kick == 50,
            r.redact == 50,
            r.invite == 50,
            r.wf(),
    {
        RoomPowerLevels {
            users: Vec::new(),
            users_default: 0,
            events: Vec::new(),
            events_default: 0,
            state_default: 50,
            ban: 50,
            kick: 50,
            redact: 50,
            invite: 50,
        }
    }

    /// The power levels read from a power-levels event's content, each
    /// missing number taking its default.
    pub fn from_content(
        users: Vec<(String, i64)>,
        users_default: Option<i64>,
        events: Vec<(String, i64)>,
        events_default: Option<i64>,
        state_default: Option<i64>,
        ban: Option<i64>,
        kick: Option<i64>,
        redact: Option<i64>,
        invite: Option<i64>,
    ) -> (r: RoomPowerLevels)
        ensures
            r.users == users,
            r.events == events,
            r.users_default == users_default.unwrap_or(0),
            r.events_default == events_default.unwrap_or(0),
            r.state_default == state_default.unwrap_or(50),
            r.ban == ban.unwrap_or(50),
            r.kick == kick.unwrap_or(50),
            r.redact == redact.unwrap_or(50),
            r.invite == invite.unwrap_or(50),
    {
        RoomPowerLevels {
            users,
            users_default: users_default.unwrap_or(0),
            events,
            events_default: events_default.unwrap_or(0),
            state_default: state_default.unwrap_or(50),
            ban: ban.unwrap_or(50),
            kick: kick.unwrap_or(50),
            redact: redact.unwrap_or(50),
            invite: invite.unwrap_or(50),
        }
    }

    /// The level of `user_id`.
    pub fn user_level(&self, user_id: &str) -> (r: i64)
        ensures
            r == self.level_of(user_id@),
    {
        match find_level(&self.users, user_id) {
            Some(l) => l,
            None => self.users_default,
        }
    }

    /// The level listed for `event_type`, else `default`.
    pub fn event_level(&self, event_type: &str, default: i64) -> (r: i64)
        ensures
            r == self.event_level_or(event_type@, default),
    {
        match find_level(&self.events, event_type) {
            Some(l) => l,
            None => default,
        }
    }
}


/// A stored power-levels state event.
#[derive(Debug)]
pub struct PowerLevelsEvent {
    pub event_id: String,
    pub room_id: String,
    pub sender: String,
    pub event_type: String,
    pub state_key: Option<String>,
    pub content: PowerLevels,
    pub origin_server_ts: i64,
    pub received_ts: Option<i64>,
    pub outlier: Option<bool>,
    pub soft_failed: Option<bool>,
}

/// `a` and `b` list the same keys with the same levels, in the same order.
pub open spec fn same_level_list(a: Seq<(String, i32)>, b: Seq<(String, i32)>) -> bool {
    &&& a.len() == b.len()
    &&& forall|i: int| 0 <= i < a.len() ==> (#[trigger] a[i]).0@ == b[i].0@ && a[i].1 == b[i].1
}

/// `a` and `b` are the same power levels.
pub open spec fn same_levels(a: PowerLevels, b: PowerLevels) -> bool {
    &&& same_level_list(a.users@, b.users@)
    &&& a.users_default == b.users_default
    &&& same_level_list(a.events@, b.events@)
    &&& a.events_default == b.events_default
    &&& a.state_default == b.state_default
    &&& a.ban == b.ban
    &&& a.kick == b.kick
    &&& a.redact == b.redact
    &&& a.invite == b.invite
}

/// `e` is the power-levels event setting `levels` in `room_id`, sent by
/// `sender_id` at `now_millis`: type `m.room.power_levels`, empty state key,
/// neither an outlier nor soft-failed.
pub open spec fn power_levels_event_is(
    e: PowerLevelsEvent,
    room_id: Seq<char>,
    sender_id: Seq<char>,
    levels: PowerLevels,
    now_millis: i64,
) -> bool {
    &&& e.event_id@.len() == 37
    &&& e.event_id@[0] == '$'
    &&& uuid_text_shape(e.event_id@.subrange(1, 37))
    &&& e.room_id@ == room_id
    &&& e.sender@ == sender_id
    &&& e.event_type@ == "m.room.power_levels"@
    &&& e.state_key matches Some(k) && k@.len() == 0
    &&& same_levels(e.content, levels)
    &&& e.origin_server_ts == now_millis
    &&& e.received_ts == Some(now_millis)
    &&& e.outlier == Some(false)
    &&& e.soft_failed == Some(false)
}

fn copy_level_list(v: &Vec<(String, i32)>) -> (r: Vec<(String, i32)>)
    ensures
        same_level_list(r@, v@),
{
    let mut r: Vec<(String, i32)> = Vec::new();
    let mut i: usize = 0;
    while i < v.len()
        invariant
            i <= v@.len(),
            r@.len() == i,
            forall|j: int| 0 <= j < i ==> (#[trigger] r@[j]).0@ == v@[j].0@ && r@[j].1 == v@[j].1,
        decreases v@.len() - i,
    {
        let k = owned(v[i].0.as_str());
        r.push((k, v[i].1));
        i = i + 1;
    }
    r
}

/// A copy of `levels`.
pub fn copy_levels(levels: &PowerLevels) -> (r: PowerLevels)
    ensures
        same_levels(r, *levels),
{
    PowerLevels {
        users: copy_level_list(&levels.users),
        users_default: levels.users_default,
        events: copy_level_list(&levels.events),
        events_default: levels.events_default,
        state_default: levels.state_default,
        ban: levels.ban,
        kick: levels.kick,
        redact: levels.redact,
        invite: levels.invite,
    }
}

impl<D> PowerLevelsRepository<D> {
    /// Replacing the power levels `current` of `room_id` by `new_power_levels`,
    /// sent by `sender_id` at `now_millis`: refused as
    /// `validate_power_levels_update` says; otherwise the power-levels event
    /// to store, with id `$` and a fresh UUID and the new levels as content.
    pub fn update_power_levels(
        &self,
        room_id: &str,
        current: &PowerLevels,
        sender_id: &str,
        new_power_levels: &PowerLevels,
        now_millis: i64,
    ) -> (r: Result<PowerLevelsEvent, RepositoryError>)
        ensures
            r.is_ok() <==> update_refusal(*current, sender_id@, *new_power_levels).is_none(),
            r.is_err() ==> is_forbidden(
                r->Err_0,
                update_refusal(*current, sender_id@, *new_power_levels).unwrap(),
            ),
            r.is_ok() ==> power_levels_event_is(r->Ok_0, room_id@, sender_id@, *new_power_levels, now_millis),
    {
        match self.validate_power_levels_update(current, sender_id, new_power_levels) {
            Err(e) => Err(e),
            Ok(()) => {
                let u = new_uuid_v4();
                proof { reveal_strlit("$"); reveal_strlit("m.room.power_levels"); reveal_strlit(""); }
                let id = concat2("$", u.as_str());
                assert(id@.subrange(1, 37) =~= u@);
                Ok(PowerLevelsEvent {
                    event_id: id,
                    room_id: owned(room_id),
                    sender: owned(sender_id),
                    event_type: owned("m.room.power_levels"),
                    state_key: Some(owned("")),
                    content: copy_levels(new_power_levels),
                    origin_server_ts: now_millis,
                    received_ts: Some(now_millis),
                    outlier: Some(false),
                    soft_failed: Some(false),
                })
            },
        }
    }
}


proof fn lemma_user_violation_free(current: PowerLevels, s: int, users: Seq<(String, i32)>)
    requires
        forall|i: int|
            0 <= i < users.len() ==> {
                let (u, l) = #[trigger] users[i];
                &&& (l as int) < lvl(current, u@) ==> lvl(current, u@) < s
                &&& (l as int) > lvl(current, u@) ==> l <= s
            },
    ensures
        first_user_violation(current, s, users).is_none(),
    decreases users.len(),
{
    if users.len() > 0 {
        assert forall|i: int| 0 <= i < users.drop_first().len() implies {
            let (u, l) = #[trigger] users.drop_first()[i];
            &&& (l as int) < lvl(current, u@) ==> lvl(current, u@) < s
            &&& (l as int) > lvl(current, u@) ==> l <= s
        } by {
            assert(users.drop_first()[i] == users[i + 1]);
        }
        lemma_user_violation_free(current, s, users.drop_first());
        let (u, l) = users[0];
        assert(users[0] == (u, l));
    }
}

proof fn lemma_event_violation_free(s: int, events: Seq<(String, i32)>)
    requires
        forall|i: int| 0 <= i < events.len() ==> (#[trigger] events[i]).1 <= s,
    ensures
        first_event_violation(s, events).is_none(),
    decreases events.len(),
{
    if events.len() > 0 {
        assert forall|i: int| 0 <= i < events.drop_first().len() implies (#[trigger] events.drop_first()[i]).1 <= s by {
            assert(events.drop_first()[i] == events[i + 1]);
        }
        lemma_event_violation_free(s, events.drop_first());
        assert(events[0].1 <= s);
    }
}

/// A sender who may change power levels may make any change within its own
/// power: demote users whose old level is below its own, promote users up
/// to its own level, set event levels up to its own level, and keep or
/// lower its own level. Such an update is accepted.
pub proof fn law_update_within_sender_power_accepted(
    current: PowerLevels,
    sender: Seq<char>,
    new: PowerLevels,
)
    requires
        lvl(current, sender) >= current.power_levels_change_level(),
        forall|i: int|
            0 <= i < new.users@.len() ==> {
                let (u, l) = #[trigger] new.users@[i];
                &&& (l as int) < lvl(current, u@) ==> lvl(current, u@) < lvl(current, sender)
                &&& (l as int) > lvl(current, u@) ==> l <= lvl(current, sender)
            },
        forall|i: int| 0 <= i < new.events@.len() ==> (#[trigger] new.events@[i]).1 <= lvl(current, sender),
        lookup(new.users@, sender).is_some() ==> lookup(new.users@, sender).unwrap() <= lvl(current, sender),
    ensures
        update_refusal(current, sender, new).is_none(),
{
    lemma_user_violation_free(current, lvl(current, sender), new.users@);
    lemma_event_violation_free(lvl(current, sender), new.events@);
}

/// A demotion by a sender who may change power levels is accepted whenever
/// the demoted user's old level is below the sender's: an update `new`
/// that only lowers one other user `u` from below the sender's level is
/// accepted.
pub proof fn law_demotion_below_sender_accepted(
    current: PowerLevels,
    sender: Seq<char>,
    new: PowerLevels,
    u: String,
    new_level: i32,
)
    requires
        lvl(current, sender) >= current.power_levels_change_level(),
        new.users@ == seq![(u, new_level)],
        new.events@.len() == 0,
        new_level < lvl(current, u@),
        lvl(current, u@) < lvl(current, sender),
        u@ != sender,
    ensures
        update_refusal(current, sender, new).is_none(),
{
    assert(new.users@[0] == (u, new_level));
    assert(new.users@.drop_first() =~= Seq::<(String, i32)>::empty());
    assert(lookup(new.users@.drop_first(), sender).is_none());
    assert(lookup(new.users@, sender).is_none());
    law_update_within_sender_power_accepted(current, sender, new);
}

} // verus!
