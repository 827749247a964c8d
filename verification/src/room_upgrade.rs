//! Upgrading a room: who may, the id of the replacement room, what the
//! replacement keeps of the old room, and the tombstone left in the old
//! room; and who may replace a room's power levels.
use vstd::prelude::*;
use crate::error::{RepositoryError, is_not_found, is_unauthorized, not_found, unauthorized, concat2, concat3, owned};
use crate::codec::{new_uuid_v4, uuid_text_shape};
use crate::room::{RoomRepository, action_level};
use crate::power_levels::RoomPowerLevels;

verus! {

/// The body of the tombstone an upgrade leaves.
pub open spec fn tombstone_body() -> Seq<char> {
    "This room has been replaced"@
}

/// What an upgrade reads of the room it replaces: its creator and the
/// settings the replacement keeps (`power_levels` as JSON text).
#[derive(Debug)]
pub struct UpgradeSource {
    pub creator: String,
    pub name: Option<String>,
    pub topic: Option<String>,
    pub avatar_url: Option<String>,
    pub is_public: Option<bool>,
    pub is_direct: Option<bool>,
    pub join_rule: Option<String>,
    pub join_rules: Option<String>,
    pub guest_access: Option<String>,
    pub history_visibility: Option<String>,
    pub power_levels: Option<String>,
    pub encryption: Option<String>,
    pub room_type: Option<String>,
    pub federate: Option<bool>,
}

/// The replacement room an upgrade creates.
#[derive(Debug)]
pub struct UpgradePlan {
    pub new_room_id: String,
    /// The upgrading user.
    pub creator: String,
    pub room_version: String,
    /// The old room and its creation event.
    pub predecessor_room_id: String,
    pub predecessor_event_id: String,
    /// Aliases do not move to the new room.
    pub canonical_alias: Option<String>,
    pub alt_aliases: Vec<String>,
    pub state_events_count: i64,
    /// Settings kept from the old room.
    pub name: Option<String>,
    pub topic: Option<String>,
    pub avatar_url: Option<String>,
    pub is_public: Option<bool>,
    pub is_direct: Option<bool>,
    pub join_rule: Option<String>,
    pub join_rules: Option<String>,
    pub guest_access: Option<String>,
    pub history_visibility: Option<String>,
    pub power_levels: Option<String>,
    pub encryption: Option<String>,
    pub room_type: Option<String>,
    pub federate: Option<bool>,
    /// Who sends the tombstone in the old room: the old room's creator.
    pub tombstone_sender: String,
}

/// The tombstone state event left in an upgraded room.
#[derive(Debug)]
pub struct TombstoneEvent {
    pub room_id: String,
    pub event_type: String,
    pub sender: String,
    pub state_key: String,
    pub body: String,
    pub replacement_room: String,
}

/// A tombstone: the room that replaces this one, and the tombstone event once
/// it is stored.
#[derive(Debug)]
pub struct RoomTombstone {
    pub replacement_room: String,
    pub body: String,
    pub event_id: Option<String>,
}

/// `id` is the id of a replacement room: `!`, a UUID and `:localhost`.
pub open spec fn replacement_id_shape(id: Seq<char>) -> bool {
    &&& id.len() == 47
    &&& id[0] == '!'
    &&& uuid_text_shape(id.subrange(1, 37))
    &&& id.subrange(37, 47) == ":localhost"@
}

/// `p` is the plan for upgrading `room_id`, created by `user_id` at
/// `creation_event_id`, to `new_version` as `new_room_id`, keeping the
/// settings of `old`.
pub open spec fn plan_is(
    p: UpgradePlan,
    new_room_id: Seq<char>,
    room_id: Seq<char>,
    user_id: Seq<char>,
    new_version: Seq<char>,
    creation_event_id: Seq<char>,
    old: UpgradeSource,
) -> bool {
    &&& p.new_room_id@ == new_room_id
    &&& p.creator@ == user_id
    &&& p.room_version@ == new_version
    &&& p.predecessor_room_id@ == room_id
    &&& p.predecessor_event_id@ == creation_event_id
    &&& p.canonical_alias is None
    &&& p.alt_aliases@.len() == 0
    &&& p.state_events_count == 0
    &&& p.name == old.name
    &&& p.topic == old.topic
    &&& p.avatar_url == old.avatar_url
    &&& p.is_public == old.is_public
    &&& p.is_direct == old.is_direct
    &&& p.join_rule == old.join_rule
    &&& p.join_rules == old.join_rules
    &&& p.guest_access == old.guest_access
    &&& p.history_visibility == old.history_visibility
    &&& p.power_levels == old.power_levels
    &&& p.encryption == old.encryption
    &&& p.room_type == old.room_type
    &&& p.federate == old.federate
    &&& p.tombstone_sender == old.creator
}

impl<D> RoomRepository<D> {
    /// A fresh id for a replacement room.
    pub fn new_replacement_room_id(&self) -> (r: String)
        ensures
            replacement_id_shape(r@),
    {
        let u = new_uuid_v4();
        proof { reveal_strlit("!"); reveal_strlit(":localhost"); }
        let r = concat3("!", u.as_str(), ":localhost");
        assert(r@.subrange(1, 37) =~= u@);
        assert(r@.subrange(37, 47) =~= ":localhost"@);
        r
    }

    /// Upgrading `room_id` to `new_version`: the user needs level 100 (their
    /// level is read from `power_levels`), then the room must exist
    /// (`current_room` is what is read of it) and have a creation event
    /// (`creation_event_id`). The replacement gets a fresh id, keeps the old
    /// room's settings but not its aliases, and names the old room and its
    /// creation event as its predecessor.
    pub fn upgrade_room(
        &self,
        room_id: &str,
        new_version: &str,
        user_id: &str,
        power_levels: &RoomPowerLevels,
        current_room: Option<UpgradeSource>,
        creation_event_id: Option<&str>,
    ) -> (r: Result<UpgradePlan, RepositoryError>)
        ensures
            power_levels.level_of(user_id@) < action_level(*power_levels, "upgrade"@, Some(100)) ==> r.is_err()
                && is_unauthorized(r->Err_0, "User not authorized to upgrade room "@ + room_id@),
            power_levels.level_of(user_id@) >= action_level(*power_levels, "upgrade"@, Some(100)) ==> match current_room {
                None => r.is_err() && is_not_found(r->Err_0, "Room"@, room_id@),
                Some(old) => match creation_event_id {
                    None => r.is_err() && is_not_found(r->Err_0, "Room creation event"@, room_id@),
                    Some(e) => r.is_ok() && replacement_id_shape(r->Ok_0.new_room_id@) && plan_is(
                        r->Ok_0,
                        r->Ok_0.new_room_id@,
                        room_id@,
                        user_id@,
                        new_version@,
                        e@,
                        old,
                    ),
                },
            },
    {
        proof { reveal_strlit("upgrade"); }
        if !self.can_user_perform_action(power_levels, user_id, "upgrade", Some(100)) {
            proof { reveal_strlit("User not authorized to upgrade room "); }
            return Err(unauthorized(concat2("User not authorized to upgrade room ", room_id)));
        }
        let new_room_id = self.new_replacement_room_id();
        let old = match current_room {
            Some(old) => old,
            None => {
                proof { reveal_strlit("Room"); }
                return Err(not_found("Room", room_id));
            },
        };
        let e = match creation_event_id {
            Some(e) => e,
            None => {
                proof { reveal_strlit("Room creation event"); }
                return Err(not_found("Room creation event", room_id));
            },
        };
        Ok(UpgradePlan {
            new_room_id,
            creator: owned(user_id),
            room_version: owned(new_version),
            predecessor_room_id: owned(room_id),
            predecessor_event_id: owned(e),
            canonical_alias: None,
            alt_aliases: Vec::new(),
            state_events_count: 0,
            name: old.name,
            topic: old.topic,
            avatar_url: old.avatar_url,
            is_public: old.is_public,
            is_direct: old.is_direct,
            join_rule: old.join_rule,
            join_rules: old.join_rules,
            guest_access: old.guest_access,
            history_visibility: old.history_visibility,
            power_levels: old.power_levels,
            encryption: old.encryption,
            room_type: old.room_type,
            federate: old.federate,
            tombstone_sender: old.creator,
        })
    }

    /// The tombstone state event an upgrade sends in the old room `room_id`:
    /// from the old room's creator, with an empty state key, pointing at the
    /// replacement.
    pub fn tombstone_event(&self, room_id: &str, plan: &UpgradePlan) -> (r: TombstoneEvent)
        ensures
            r.room_id@ == room_id@,
            r.event_type@ == "m.room.tombstone"@,
            r.sender@ == plan.tombstone_sender@,
            r.state_key@ == ""@,
            r.body@ == tombstone_body(),
            r.replacement_room@ == plan.new_room_id@,
    {
        proof {
            reveal_strlit("m.room.tombstone");
            reveal_strlit("");
            reveal_strlit("This room has been replaced");
        }
        TombstoneEvent {
            room_id: owned(room_id),
            event_type: owned("m.room.tombstone"),
            sender: owned(plan.tombstone_sender.as_str()),
            state_key: owned(""),
            body: owned("This room has been replaced"),
            replacement_room: owned(plan.new_room_id.as_str()),
        }
    }

    /// The tombstone left in an upgraded room, pointing at its replacement;
    /// `event_id` is the tombstone event once stored.
    pub fn upgrade_tombstone(&self, new_room_id: &str, event_id: Option<String>) -> (r: RoomTombstone)
        ensures
            r.replacement_room@ == new_room_id@,
            r.body@ == tombstone_body(),
            r.event_id == event_id,
    {
        proof { reveal_strlit("This room has been replaced"); }
        RoomTombstone { replacement_room: owned(new_room_id), body: owned("This room has been replaced"), event_id }
    }
}


/// `id` is the id of a new event: `$`, a UUID and `:localhost`.
pub open spec fn event_id_shape(id: Seq<char>) -> bool {
    &&& id.len() == 47
    &&& id[0] == '$'
    &&& uuid_text_shape(id.subrange(1, 37))
    &&& id.subrange(37, 47) == ":localhost"@
}

impl<D> RoomRepository<D> {
    /// Replacing a room's power levels: the sender needs level 100 (their
    /// level is read from the current `power_levels`); the new power-levels
    /// event gets a fresh id, which is returned.
    pub fn update_room_power_levels(
        &self,
        room_id: &str,
        sender: &str,
        power_levels: &RoomPowerLevels,
    ) -> (r: Result<String, RepositoryError>)
        ensures
            power_levels.level_of(sender@) < action_level(*power_levels, "m.room.power_levels"@, Some(100)) ==> r.is_err()
                && is_unauthorized(
                r->Err_0,
                "User "@ + sender@ + " not authorized to update power levels in room "@ + room_id@,
            ),
            power_levels.level_of(sender@) >= action_level(*power_levels, "m.room.power_levels"@, Some(100)) ==> r.is_ok()
                && event_id_shape(r->Ok_0@),
    {
        proof { reveal_strlit("m.room.power_levels"); }
        if !self.can_user_perform_action(power_levels, sender, "m.room.power_levels", Some(100)) {
            proof {
                reveal_strlit("User ");
                reveal_strlit(" not authorized to update power levels in room ");
            }
            let mut reason = concat3("User ", sender, " not authorized to update power levels in room ");
            reason.append(room_id);
            return Err(unauthorized(reason));
        }
        let u = new_uuid_v4();
        proof { reveal_strlit("$"); reveal_strlit(":localhost"); }
        let id = concat3("$", u.as_str(), ":localhost");
        assert(id@.subrange(1, 37) =~= u@);
        assert(id@.subrange(37, 47) =~= ":localhost"@);
        Ok(id)
    }
}

} // verus!
