//! More membership operations: the records of direct membership changes,
//! changes received over federation, membership-event checks, history, and
//! conflicts between membership events.
use vstd::prelude::*;
use crate::error::{
    RepositoryError, owned, concat2, concat3, concat4, is_validation, is_not_found, validation, not_found,
};
use crate::membership::{
    Membership, MembershipState, MembershipRepository, MembershipWrite, WriteMode, membership_name,
    membership_from_name, membership_or_leave, transition_allowed, clone_opt, opt_owned,
};
use crate::codec::{datetime_from_millis, chrono_millis_valid};
use crate::numeric::{format_i64, signed_decimal};
use crate::text::{second_field, second_field_exec, str_eq, after_last_colon, after_last_colon_exec, has_char, has_char_exec, opt_view, opt_str_view};

verus! {

/// `rec` is the record of `user_id` in `room_id` in `state`, with the given
/// reason, inviter and authorising server, and no profile data.
pub open spec fn record_is(
    rec: Membership,
    room_id: Seq<char>,
    user_id: Seq<char>,
    state: MembershipState,
    reason: Option<Seq<char>>,
    invited_by: Option<Seq<char>>,
    authorised_via: Option<Seq<char>>,
) -> bool {
    &&& rec.room_id@ == room_id
    &&& rec.user_id@ == user_id
    &&& rec.membership == state
    &&& opt_view(rec.reason) == reason
    &&& opt_view(rec.invited_by) == invited_by
    &&& rec.display_name.is_none()
    &&& rec.avatar_url.is_none()
    &&& rec.is_direct.is_none()
    &&& rec.third_party_invite.is_none()
    &&& opt_view(rec.join_authorised_via_users_server) == authorised_via
}

fn record(
    room_id: &str,
    user_id: &str,
    state: MembershipState,
    reason: Option<String>,
    invited_by: Option<String>,
    authorised_via: Option<String>,
) -> (rec: Membership)
    ensures
        record_is(rec, room_id@, user_id@, state, opt_view(reason), opt_view(invited_by), opt_view(authorised_via)),
{
    Membership {
        user_id: owned(user_id),
        room_id: owned(room_id),
        membership: state,
        reason,
        invited_by,
        display_name: None,
        avatar_url: None,
        is_direct: None,
        third_party_invite: None,
        join_authorised_via_users_server: authorised_via,
    }
}

/// The server of a user id: what follows its last `:`.
pub open spec fn server_of(user_id: Seq<char>) -> Option<Seq<char>> {
    after_last_colon(user_id)
}

/// The outcome of checking that a federated membership event about `who`
/// comes from `who`'s own server `origin`: `field` names what `who` is.
pub open spec fn origin_checked(
    who: Seq<char>,
    origin: Seq<char>,
    field: Seq<char>,
    format_message: Seq<char>,
    mismatch_message: Seq<char>,
    r: Result<MembershipWrite, RepositoryError>,
) -> bool {
    match server_of(who) {
        None => r.is_err() && is_validation(r->Err_0, field, format_message),
        Some(s) => if s != origin {
            r.is_err() && is_validation(r->Err_0, "origin"@, mismatch_message)
        } else {
            r.is_ok()
        },
    }
}

fn check_origin(who: &str, origin: &str, field: &str, format_message: &str, mismatch_message: &str) -> (r: Result<(), RepositoryError>)
    ensures
        match server_of(who@) {
            None => r.is_err() && is_validation(r->Err_0, field@, format_message@),
            Some(s) => if s != origin@ {
                r.is_err() && is_validation(r->Err_0, "origin"@, mismatch_message@)
            } else {
                r.is_ok()
            },
        },
{
    match after_last_colon_exec(who) {
        None => Err(validation(field, format_message)),
        Some(s) => if !str_eq(s.as_str(), origin) {
            Err(validation("origin", mismatch_message))
        } else {
            Ok(())
        },
    }
}

/// A membership as the federation API lists it; `updated_at` is in
/// milliseconds since the UNIX epoch.
#[derive(Debug)]
pub struct FederationMember {
    pub user_id: String,
    pub membership: MembershipState,
    pub display_name: Option<String>,
    pub avatar_url: Option<String>,
    pub reason: Option<String>,
    pub invited_by: Option<String>,
    pub updated_at: i64,
}

/// A membership row as the store gives it: each text field absent when
/// missing or not text, `updated_at` as its RFC 3339 text.
#[derive(Debug)]
pub struct FederationMemberRow {
    pub user_id: Option<String>,
    pub membership: Option<String>,
    pub display_name: Option<String>,
    pub avatar_url: Option<String>,
    pub reason: Option<String>,
    pub invited_by: Option<String>,
    pub updated_at: Option<String>,
}

/// The membership a row's state name stands for (`leave` when missing or unknown).
pub open spec fn row_membership(m: Option<String>) -> MembershipState {
    match m {
        Some(s) => membership_or_leave(s@),
        None => MembershipState::Leave,
    }
}

/// The members that rows with a user id give, in order, as
/// `(row index, member)` facts: `rows_members(rows)` lists the row indices.
pub open spec fn rows_with_user(rows: Seq<FederationMemberRow>) -> Seq<int>
    decreases rows.len(),
{
    if rows.len() == 0 {
        Seq::empty()
    } else {
        let rest = rows_with_user(rows.drop_last());
        if rows.last().user_id.is_some() { rest.push(rows.len() - 1) } else { rest }
    }
}

/// Every index that `rows_with_user` lists is a position of `rows`.
pub proof fn lemma_rows_with_user_bounds(rows: Seq<FederationMemberRow>)
    ensures
        forall|i: int| 0 <= i < rows_with_user(rows).len() ==> 0 <= #[trigger] rows_with_user(rows)[i] < rows.len(),
    decreases rows.len(),
{
    if rows.len() > 0 {
        let rest = rows.drop_last();
        lemma_rows_with_user_bounds(rest);
        assert forall|i: int| 0 <= i < rows_with_user(rows).len() implies 0 <= #[trigger] rows_with_user(rows)[i] < rows.len() by {
            if i < rows_with_user(rest).len() {
                assert(rows_with_user(rows)[i] == rows_with_user(rest)[i]);
            }
        }
    }
}

/// `m` is the member that `row` gives, at `now` when its time cannot be read.
pub open spec fn member_of_row(m: FederationMember, row: FederationMemberRow, now: i64) -> bool {
    &&& Some(m.user_id) == row.user_id
    &&& m.membership == row_membership(row.membership)
    &&& m.display_name == row.display_name
    &&& m.avatar_url == row.avatar_url
    &&& m.reason == row.reason
    &&& m.invited_by == row.invited_by
    &&& m.updated_at == match row.updated_at {
        Some(t) => match crate::relations::rfc3339_millis(t@) {
            Some(ms) => ms,
            None => now,
        },
        None => now,
    }
}

/// How many joined members each server has, servers in order of first
/// appearance.
pub open spec fn server_counts(members: Seq<FederationMember>) -> Seq<(Seq<char>, nat)>
    decreases members.len(),
{
    if members.len() == 0 {
        Seq::empty()
    } else {
        let rest = server_counts(members.drop_last());
        let m = members.last();
        if m.membership == MembershipState::Join && server_of(m.user_id@).is_some() {
            count_server(rest, server_of(m.user_id@).unwrap())
        } else {
            rest
        }
    }
}

/// The counts with one more member on `server` (a new entry at the end
/// when the server has none).
pub open spec fn count_server(counts: Seq<(Seq<char>, nat)>, server: Seq<char>) -> Seq<(Seq<char>, nat)> {
    if exists|j: int| 0 <= j < counts.len() && (#[trigger] counts[j]).0 == server {
        let j = choose|j: int| 0 <= j < counts.len() && (#[trigger] counts[j]).0 == server;
        counts.update(j, (server, counts[j].1 + 1))
    } else {
        counts.push((server, 1nat))
    }
}

/// No server is listed twice.
pub open spec fn servers_distinct(c: Seq<(Seq<char>, nat)>) -> bool {
    forall|a: int, b: int| 0 <= a < b < c.len() ==> (#[trigger] c[a]).0 != (#[trigger] c[b]).0
}

/// The view of server counts.
pub open spec fn counts_view(v: Seq<(String, u64)>) -> Seq<(Seq<char>, nat)> {
    Seq::new(v.len(), |i: int| (v[i].0@, v[i].1 as nat))
}

/// The total of the counts.
pub open spec fn counts_total(c: Seq<(Seq<char>, nat)>) -> nat
    decreases c.len(),
{
    if c.len() == 0 {
        0
    } else {
        counts_total(c.drop_last()) + c.last().1
    }
}

proof fn lemma_counts_total_update(c: Seq<(Seq<char>, nat)>, j: int, e: (Seq<char>, nat))
    requires
        0 <= j < c.len(),
    ensures
        counts_total(c.update(j, e)) == counts_total(c) - c[j].1 + e.1,
    decreases c.len(),
{
    let u = c.update(j, e);
    if j == c.len() - 1 {
        assert(u.drop_last() =~= c.drop_last());
    } else {
        assert(u.drop_last() =~= c.drop_last().update(j, e));
        lemma_counts_total_update(c.drop_last(), j, e);
    }
}

/// Counting members by server lists each server once, and the counts add up
/// to at most the number of members.
pub proof fn law_server_counts_distinct_and_bounded(members: Seq<FederationMember>)
    ensures
        servers_distinct(server_counts(members)),
        counts_total(server_counts(members)) <= members.len(),
    decreases members.len(),
{
    if members.len() > 0 {
        let p = members.drop_last();
        law_server_counts_distinct_and_bounded(p);
        let rest = server_counts(p);
        let m = members.last();
        if m.membership == MembershipState::Join && server_of(m.user_id@).is_some() {
            let s = server_of(m.user_id@).unwrap();
            let r = count_server(rest, s);
            if exists|j: int| 0 <= j < rest.len() && (#[trigger] rest[j]).0 == s {
                let j = choose|j: int| 0 <= j < rest.len() && (#[trigger] rest[j]).0 == s;
                lemma_counts_total_update(rest, j, (s, rest[j].1 + 1));
                assert forall|a: int, b: int| 0 <= a < b < r.len() implies (#[trigger] r[a]).0 != (#[trigger] r[b]).0 by {
                    assert(r[a].0 == rest[a].0 && r[b].0 == rest[b].0);
                }
            } else {
                assert(r.drop_last() =~= rest);
                assert forall|a: int, b: int| 0 <= a < b < r.len() implies (#[trigger] r[a]).0 != (#[trigger] r[b]).0 by {
                    if b < rest.len() {
                        assert(r[a] == rest[a] && r[b] == rest[b]);
                    } else {
                        assert(r[a] == rest[a]);
                    }
                }
            }
        }
    }
}

/// The state a membership-event check reads the event's membership as.
pub open spec fn event_state(m: Seq<char>) -> Option<MembershipState> {
    membership_from_name(m)
}

/// The name `{:?}` gives a state.
pub open spec fn debug_name(m: MembershipState) -> Seq<char> {
    match m {
        MembershipState::Join => "Join"@,
        MembershipState::Leave => "Leave"@,
        MembershipState::Invite => "Invite"@,
        MembershipState::Ban => "Ban"@,
        MembershipState::Knock => "Knock"@,
    }
}

fn debug_str(m: MembershipState) -> (r: &'static str)
    ensures
        r@ == debug_name(m),
{
    match m {
        MembershipState::Join => "Join",
        MembershipState::Leave => "Leave",
        MembershipState::Invite => "Invite",
        MembershipState::Ban => "Ban",
        MembershipState::Knock => "Knock",
    }
}

/// A membership action that needs power.
#[derive(Debug, Clone, Copy, PartialEq, Eq, Structural)]
pub enum MembershipAction {
    Kick,
    Ban,
    Unban,
    Invite,
    Join,
    Leave,
    Forget,
}

/// The level a membership action needs.
pub open spec fn action_power(a: MembershipAction) -> i64 {
    match a {
        MembershipAction::Kick | MembershipAction::Ban | MembershipAction::Unban => 50,
        _ => 0,
    }
}

/// The outcome of checking a membership event's authorization chain (see
/// `validate_membership_auth`).
pub open spec fn auth_outcome(
    event_type: Seq<char>,
    state_key: Option<Seq<char>>,
    chain: Seq<Option<String>>,
    membership: Option<Seq<char>>,
    r: Result<bool, RepositoryError>,
) -> bool {
    if event_type != "m.room.member"@ {
        r == Ok::<bool, RepositoryError>(false)
    } else if state_key.is_none() {
        r.is_err() && is_validation(r->Err_0, "state_key"@, "Membership event must have state_key"@)
    } else if !has_char(state_key.unwrap(), ':') || state_key.unwrap().len() == 0 {
        r.is_err() && is_validation(r->Err_0, "state_key"@, "Invalid user ID format in state_key"@)
    } else if !chain_has(chain, "m.room.create"@) {
        r == Ok::<bool, RepositoryError>(false)
    } else {
        r == Ok::<bool, RepositoryError>(match membership {
            Some(m) => if m == "join"@ || m == "knock"@ {
                chain_has(chain, "m.room.join_rules"@)
            } else if m == "invite"@ || m == "ban"@ || m == "kick"@ {
                chain_has(chain, "m.room.power_levels"@)
            } else {
                m == "leave"@
            },
            None => false,
        })
    }
}

/// Some event of the authorization chain has the type `t`.
pub open spec fn chain_has(chain: Seq<Option<String>>, t: Seq<char>) -> bool {
    exists|i: int| 0 <= i < chain.len() && (#[trigger] chain[i]) is Some && chain[i].unwrap()@ == t
}

fn chain_contains(chain: &Vec<Option<String>>, t: &str) -> (r: bool)
    ensures
        r == chain_has(chain@, t@),
{
    let mut i: usize = 0;
    while i < chain.len()
        invariant
            i <= chain@.len(),
            forall|k: int| 0 <= k < i ==> !((#[trigger] chain@[k]) is Some && chain@[k].unwrap()@ == t@),
        decreases chain@.len() - i,
    {
        match &chain[i] {
            Some(s) => {
                if str_eq(s.as_str(), t) {
                    assert(chain@[i as int] is Some && chain@[i as int].unwrap()@ == t@);
                    return true;
                }
            },
            None => {},
        }
        i = i + 1;
    }
    false
}

impl<D> MembershipRepository<D> {
    /// The record that removes a user from a room, with a reason.
    pub fn kick_user(&self, room_id: &str, user_id: &str, reason: Option<String>) -> (r: MembershipWrite)
        ensures
            r.mode == WriteMode::Update,
            record_is(r.record, room_id@, user_id@, MembershipState::Leave, opt_view(reason), None, None),
    {
        MembershipWrite { mode: WriteMode::Update, record: record(room_id, user_id, MembershipState::Leave, reason, None, None) }
    }

    /// The record that bans a user from a room, with a reason.
    pub fn ban_user(&self, room_id: &str, user_id: &str, reason: Option<String>) -> (r: MembershipWrite)
        ensures
            r.mode == WriteMode::Update,
            record_is(r.record, room_id@, user_id@, MembershipState::Ban, opt_view(reason), None, None),
    {
        MembershipWrite { mode: WriteMode::Update, record: record(room_id, user_id, MembershipState::Ban, reason, None, None) }
    }

    /// The record that lifts a ban: the user leaves, `Unbanned`.
    pub fn unban_user(&self, room_id: &str, user_id: &str) -> (r: MembershipWrite)
        ensures
            r.mode == WriteMode::Update,
            record_is(r.record, room_id@, user_id@, MembershipState::Leave, Some("Unbanned"@), None, None),
    {
        MembershipWrite {
            mode: WriteMode::Update,
            record: record(room_id, user_id, MembershipState::Leave, Some(owned("Unbanned")), None, None),
        }
    }

    /// The new record of a user invited by `inviter`.
    pub fn invite_user(&self, room_id: &str, user_id: &str, inviter: &str) -> (r: MembershipWrite)
        ensures
            r.mode == WriteMode::Create,
            record_is(r.record, room_id@, user_id@, MembershipState::Invite, None, Some(inviter@), None),
    {
        MembershipWrite {
            mode: WriteMode::Create,
            record: record(room_id, user_id, MembershipState::Invite, None, Some(owned(inviter)), None),
        }
    }

    /// The new record of a user knocking on a room, with a reason.
    pub fn knock_on_room(&self, room_id: &str, user_id: &str, reason: Option<String>) -> (r: MembershipWrite)
        ensures
            r.mode == WriteMode::Create,
            record_is(r.record, room_id@, user_id@, MembershipState::Knock, opt_view(reason), None, None),
    {
        MembershipWrite { mode: WriteMode::Create, record: record(room_id, user_id, MembershipState::Knock, reason, None, None) }
    }

    /// The knock record of a user received over federation, and the key it
    /// is stored under: `room:user`.
    pub fn create_knock_membership(&self, room_id: &str, user_id: &str, reason: Option<String>) -> (r: (Membership, String))
        ensures
            record_is(r.0, room_id@, user_id@, MembershipState::Knock, opt_view(reason), None, None),
            r.1@ == room_id@ + ":"@ + user_id@,
    {
        (record(room_id, user_id, MembershipState::Knock, reason, None, None), concat3(room_id, ":", user_id))
    }

    /// The stored knock record the store gave back, or not found under its key.
    pub fn knock_membership_stored(&self, key: &str, created: Option<Membership>) -> (r: Result<Membership, RepositoryError>)
        ensures
            match created {
                Some(m) => r == Ok::<Membership, RepositoryError>(m),
                None => r.is_err() && is_not_found(r->Err_0, "membership"@, key@),
            },
    {
        match created {
            Some(m) => Ok(m),
            None => Err(not_found("membership", key)),
        }
    }

    /// The record a join received from `origin` writes: the user's server
    /// must be the origin, which authorised the join.
    pub fn process_federation_join(&self, room_id: &str, user_id: &str, origin: &str) -> (r: Result<MembershipWrite, RepositoryError>)
        ensures
            origin_checked(user_id@, origin@, "user_id"@, "Invalid user ID format"@, "User server does not match origin"@, r),
            r.is_ok() ==> r->Ok_0.mode == WriteMode::Update && record_is(
                r->Ok_0.record,
                room_id@,
                user_id@,
                MembershipState::Join,
                None,
                None,
                Some(origin@),
            ),
    {
        check_origin(user_id, origin, "user_id", "Invalid user ID format", "User server does not match origin")?;
        Ok(MembershipWrite {
            mode: WriteMode::Update,
            record: record(room_id, user_id, MembershipState::Join, None, None, Some(owned(origin))),
        })
    }

    /// The record a leave received from `origin` writes: the user's server
    /// must be the origin.
    pub fn process_federation_leave(&self, room_id: &str, user_id: &str, origin: &str) -> (r: Result<MembershipWrite, RepositoryError>)
        ensures
            origin_checked(user_id@, origin@, "user_id"@, "Invalid user ID format"@, "User server does not match origin"@, r),
            r.is_ok() ==> r->Ok_0.mode == WriteMode::Update && record_is(
                r->Ok_0.record,
                room_id@,
                user_id@,
                MembershipState::Leave,
                None,
                None,
                None,
            ),
    {
        check_origin(user_id, origin, "user_id", "Invalid user ID format", "User server does not match origin")?;
        Ok(MembershipWrite { mode: WriteMode::Update, record: record(room_id, user_id, MembershipState::Leave, None, None, None) })
    }

    /// The record a knock received from `origin` writes: the user's server
    /// must be the origin.
    pub fn process_federation_knock(&self, room_id: &str, user_id: &str, origin: &str) -> (r: Result<MembershipWrite, RepositoryError>)
        ensures
            origin_checked(user_id@, origin@, "user_id"@, "Invalid user ID format"@, "User server does not match origin"@, r),
            r.is_ok() ==> r->Ok_0.mode == WriteMode::Create && record_is(
                r->Ok_0.record,
                room_id@,
                user_id@,
                MembershipState::Knock,
                None,
                None,
                None,
            ),
    {
        check_origin(user_id, origin, "user_id", "Invalid user ID format", "User server does not match origin")?;
        Ok(MembershipWrite { mode: WriteMode::Create, record: record(room_id, user_id, MembershipState::Knock, None, None, None) })
    }

    /// The record an invite received from `origin` writes: the inviter's
    /// (the sender's) server must be the origin.
    pub fn process_federation_invite(&self, room_id: &str, user_id: &str, sender: &str, origin: &str) -> (r: Result<MembershipWrite, RepositoryError>)
        ensures
            origin_checked(sender@, origin@, "sender"@, "Invalid sender format"@, "Inviter server does not match origin"@, r),
            r.is_ok() ==> r->Ok_0.mode == WriteMode::Create && record_is(
                r->Ok_0.record,
                room_id@,
                user_id@,
                MembershipState::Invite,
                None,
                Some(sender@),
                None,
            ),
    {
        check_origin(sender, origin, "sender", "Invalid sender format", "Inviter server does not match origin")?;
        Ok(MembershipWrite {
            mode: WriteMode::Create,
            record: record(room_id, user_id, MembershipState::Invite, None, Some(owned(sender)), None),
        })
    }

    /// Whether a membership event received over federation is acceptable:
    /// it must be a membership event with a target; a join, leave or knock
    /// must come from its target; an invite or ban stands; any other named
    /// membership is refused; an event naming none stands.
    pub fn validate_federation_membership_change(
        &self,
        event_type: &str,
        state_key: Option<&str>,
        sender: &str,
        membership: Option<&str>,
    ) -> (r: Result<bool, RepositoryError>)
        ensures
            event_type@ != "m.room.member"@ ==> r == Ok::<bool, RepositoryError>(false),
            event_type@ == "m.room.member"@ && state_key.is_none() ==> r.is_err() && is_validation(
                r->Err_0,
                "state_key"@,
                "Missing state key for membership event"@,
            ),
            event_type@ == "m.room.member"@ && state_key.is_some() ==> r == Ok::<bool, RepositoryError>(match membership {
                Some(m) => if m@ == "join"@ || m@ == "leave"@ || m@ == "knock"@ {
                    sender@ == state_key.unwrap()@
                } else {
                    m@ == "invite"@ || m@ == "ban"@
                },
                None => true,
            }),
    {
        if !str_eq(event_type, "m.room.member") {
            return Ok(false);
        }
        let target = match state_key {
            Some(t) => t,
            None => { return Err(validation("state_key", "Missing state key for membership event")); },
        };
        match membership {
            Some(m) => {
                if str_eq(m, "join") || str_eq(m, "leave") || str_eq(m, "knock") {
                    Ok(str_eq(sender, target))
                } else {
                    Ok(str_eq(m, "invite") || str_eq(m, "ban"))
                }
            },
            None => Ok(true),
        }
    }

    /// Whether a membership event's content names a known membership.
    pub fn validate_federation_membership_content(&self, membership: Option<&str>) -> (r: bool)
        ensures
            r == match membership {
                Some(m) => membership_from_name(m@).is_some(),
                None => false,
            },
    {
        match membership {
            Some(m) => MembershipState::from_name(m).is_some(),
            None => false,
        }
    }

    /// The members that a room's membership rows give for federation, in
    /// order: rows without a user are skipped; an unknown state reads as
    /// `leave`; a time chrono cannot read is `now_millis`.
    pub fn get_room_members_for_federation(&self, rows: &Vec<FederationMemberRow>, now_millis: i64) -> (r: Vec<FederationMember>)
        ensures
            r@.len() == rows_with_user(rows@).len(),
            forall|i: int| 0 <= i < r@.len() ==> 0 <= #[trigger] rows_with_user(rows@)[i] < rows@.len(),
            forall|i: int| 0 <= i < r@.len() ==> member_of_row(#[trigger] r@[i], rows@[rows_with_user(rows@)[i]], now_millis),
    {
        let mut out: Vec<FederationMember> = Vec::new();
        let mut i: usize = 0;
        while i < rows.len()
            invariant
                i <= rows@.len(),
                out@.len() == rows_with_user(rows@.subrange(0, i as int)).len(),
                forall|j: int| 0 <= j < out@.len() ==> member_of_row(#[trigger] out@[j], rows@[rows_with_user(rows@.subrange(0, i as int))[j]], now_millis),
            decreases rows@.len() - i,
        {
            let ghost p = rows@.subrange(0, i as int);
            let ghost q = rows@.subrange(0, i + 1);
            assert(q.drop_last() =~= p);
            assert(q.last() == rows@[i as int]);
            let row = &rows[i];
            match &row.user_id {
                Some(u) => {
                    let membership = match &row.membership {
                        Some(m) => MembershipState::from_name_or_leave(m.as_str()),
                        None => MembershipState::Leave,
                    };
                    let updated_at = match &row.updated_at {
                        Some(t) => match crate::relations::parse_rfc3339_millis(t.as_str()) {
                            Some(ms) => ms,
                            None => now_millis,
                        },
                        None => now_millis,
                    };
                    out.push(FederationMember {
                        user_id: u.clone(),
                        membership,
                        display_name: clone_opt(&row.display_name),
                        avatar_url: clone_opt(&row.avatar_url),
                        reason: clone_opt(&row.reason),
                        invited_by: clone_opt(&row.invited_by),
                        updated_at,
                    });
                    proof {
                        assert(member_of_row(out@[out@.len() - 1], rows@[i as int], now_millis));
                        assert(rows_with_user(q) == rows_with_user(p).push(i as int));
                        assert forall|j: int| 0 <= j < out@.len() implies member_of_row(#[trigger] out@[j], rows@[rows_with_user(q)[j]], now_millis) by {
                            if j < out@.len() - 1 {
                                assert(rows_with_user(q)[j] == rows_with_user(p)[j]);
                            }
                        }
                    }
                },
                None => {
                    assert(rows_with_user(q) == rows_with_user(p));
                },
            }
            i = i + 1;
        }
        assert(rows@.subrange(0, rows@.len() as int) =~= rows@);
        proof { lemma_rows_with_user_bounds(rows@); }
        out
    }

    /// How many joined members each server has in a room, servers in order
    /// of first appearance.
    pub fn get_federation_member_count_by_server(&self, members: &Vec<FederationMember>) -> (r: Vec<(String, u64)>)
        ensures
            counts_view(r@) == server_counts(members@),
    {
        let mut counts: Vec<(String, u64)> = Vec::new();
        let mut i: usize = 0;
        while i < members.len()
            invariant
                i <= members@.len(),
                counts_view(counts@) == server_counts(members@.subrange(0, i as int)),
            decreases members@.len() - i,
        {
            let ghost p = members@.subrange(0, i as int);
            let ghost q = members@.subrange(0, i + 1);
            let ghost before = counts_view(counts@);
            assert(q.drop_last() =~= p);
            assert(q.last() == members@[i as int]);
            proof {
                law_server_counts_distinct_and_bounded(p);
                assert(p.len() == i);
            }
            let m = &members[i];
            if m.membership == MembershipState::Join {
                match after_last_colon_exec(m.user_id.as_str()) {
                    Some(server) => {
                        let mut j: usize = 0;
                        while j < counts.len()
                            invariant
                                j <= counts@.len(),
                                forall|k: int| 0 <= k < j ==> (#[trigger] counts@[k]).0@ != server@,
                            ensures
                                j <= counts@.len(),
                                j < counts@.len() ==> counts@[j as int].0@ == server@,
                                forall|k: int| 0 <= k < j ==> (#[trigger] counts@[k]).0@ != server@,
                            decreases counts@.len() - j,
                        {
                            if str_eq(counts[j].0.as_str(), server.as_str()) {
                                break;
                            }
                            j = j + 1;
                        }
                        if j < counts.len() {
                            proof {
                                assert(before[j as int].0 == server@);
                                let c = choose|c: int| 0 <= c < before.len() && (#[trigger] before[c]).0 == server@;
                                assert(c == j as int) by {
                                    if c != j as int {
                                        if c < j {
                                            assert(before[c].0 == counts@[c].0@);
                                        } else {
                                            assert(before[c].0 != before[j as int].0);
                                        }
                                    }
                                }
                                lemma_counts_total_update(before, j as int, (server@, before[j as int].1 + 1));
                                assert(counts_total(before) >= before[j as int].1) by {
                                    lemma_counts_total_ge(before, j as int);
                                }
                            }
                            let n = counts[j].1;
                            let entry = (server, n + 1);
                            counts.set(j, entry);
                            proof {
                                assert(counts_view(counts@) =~= count_server(before, server@));
                            }
                        } else {
                            counts.push((server, 1));
                            proof {
                                assert(!exists|c: int| 0 <= c < before.len() && (#[trigger] before[c]).0 == server@) by {
                                    assert forall|c: int| 0 <= c < before.len() implies (#[trigger] before[c]).0 != server@ by {
                                        assert(before[c].0 == counts@[c].0@);
                                    }
                                }
                                assert(counts_view(counts@) =~= count_server(before, server@));
                            }
                        }
                    },
                    None => {},
                }
            }
            i = i + 1;
        }
        assert(members@.subrange(0, members@.len() as int) =~= members@);
        counts
    }

    /// Whether a membership event's authorization chain suffices (given
    /// the looked-up type of each chain event, none when unknown): it must
    /// be a membership event whose target is a user id, the chain must hold
    /// the create event, and then a join or knock needs the join rules, an
    /// invite, ban or kick the power levels; a leave always suffices; any
    /// other or no membership does not.
    pub fn validate_membership_auth(
        &self,
        event_type: &str,
        state_key: Option<&str>,
        auth_event_types: &Vec<Option<String>>,
        membership: Option<&str>,
    ) -> (r: Result<bool, RepositoryError>)
        ensures
            auth_outcome(event_type@, opt_str_view(state_key), auth_event_types@, opt_str_view(membership), r),
    {
        if !str_eq(event_type, "m.room.member") {
            return Ok(false);
        }
        let target = match state_key {
            Some(t) => t,
            None => { return Err(validation("state_key", "Membership event must have state_key")); },
        };
        if !has_char_exec(target, ':') || target.unicode_len() == 0 {
            return Err(validation("state_key", "Invalid user ID format in state_key"));
        }
        let has_create = chain_contains(auth_event_types, "m.room.create");
        let has_power_levels = chain_contains(auth_event_types, "m.room.power_levels");
        let has_join_rules = chain_contains(auth_event_types, "m.room.join_rules");
        if !has_create {
            return Ok(false);
        }
        match membership {
            Some(m) => {
                if str_eq(m, "join") || str_eq(m, "knock") {
                    Ok(has_join_rules)
                } else if str_eq(m, "invite") || str_eq(m, "ban") || str_eq(m, "kick") {
                    Ok(has_power_levels)
                } else {
                    Ok(str_eq(m, "leave"))
                }
            },
            None => Ok(false),
        }
    }

    /// Whether a user at `user_level` may take `action`, against a target
    /// at `target_level` when the target is another user: it needs level 50
    /// to kick, ban or unban, and must outrank the target.
    pub fn can_perform_action(&self, action: MembershipAction, user_level: i64, target_level: Option<i64>) -> (r: bool)
        ensures
            r == (user_level >= action_power(action) && match target_level {
                Some(t) => user_level > t,
                None => true,
            }),
    {
        let required: i64 = match action {
            MembershipAction::Kick => 50,
            MembershipAction::Ban => 50,
            MembershipAction::Unban => 50,
            _ => 0,
        };
        if user_level < required {
            return false;
        }
        match target_level {
            Some(t) => user_level > t,
            None => true,
        }
    }

    /// Whether a user with `existing` membership may join over federation:
    /// a joined or invited user may; a user without a membership may when
    /// the join request is authorized; anyone else may not.
    pub fn validate_join_permissions(&self, existing: Option<MembershipState>, join_authorized: bool) -> (r: bool)
        ensures
            r == match existing {
                Some(m) => m == MembershipState::Join || m == MembershipState::Invite,
                None => join_authorized,
            },
    {
        match existing {
            Some(MembershipState::Join) => true,
            Some(MembershipState::Invite) => true,
            Some(_) => false,
            None => join_authorized,
        }
    }

    /// Whether a ban may be lifted: the target is banned and the operation
    /// is authorized.
    pub fn validate_unban_permissions(&self, target_banned: bool, authorized: bool) -> (r: bool)
        ensures
            r == (target_banned && authorized),
    {
        target_banned && authorized
    }

    /// Whether a membership says the user is in the room.
    pub fn is_user_in_room(&self, membership: Option<MembershipState>) -> (r: bool)
        ensures
            r == (membership == Some(MembershipState::Join)),
    {
        match membership {
            Some(MembershipState::Join) => true,
            _ => false,
        }
    }
}

/// What a conflict check finds for a new membership event: the first event
/// stored for the same user at the same time, else a transition out of the
/// current state that is not allowed, else nothing.
pub open spec fn conflict_found(
    current: Option<MembershipState>,
    same_time_ids: Seq<Option<String>>,
    new_state: MembershipState,
    sender_is_target: bool,
    sender_in_room: bool,
) -> Option<Seq<char>> {
    if same_time_ids.len() > 0 && same_time_ids[0] is Some {
        Some("Temporal conflict with event: "@ + same_time_ids[0].unwrap()@)
    } else {
        match current {
            Some(c) => if !transition_allowed(c, new_state, sender_is_target, sender_in_room) {
                Some("Invalid transition from "@ + debug_name(c) + " to "@ + debug_name(new_state))
            } else {
                None
            },
            None => None,
        }
    }
}

/// One stored membership event, as the history query reads it back: a
/// field is `None` where the event lacks it or holds a value of another kind.
#[derive(Debug)]
pub struct HistoryRow {
    pub event_id: Option<String>,
    pub sender: Option<String>,
    /// Whether the event has a content object at all.
    pub has_content: bool,
    pub membership: Option<String>,
    pub reason: Option<String>,
    pub invited_by: Option<String>,
    pub display_name: Option<String>,
    pub avatar_url: Option<String>,
    pub is_direct: Option<bool>,
    /// The third-party invite, as JSON text.
    pub third_party_invite: Option<String>,
    pub join_authorised_via_users_server: Option<String>,
    pub origin_server_ts: Option<i64>,
    pub auth_events: Vec<String>,
    pub prev_events: Vec<String>,
}

/// A membership event with what it says of the membership.
#[derive(Debug)]
pub struct MembershipContext {
    pub user_id: String,
    pub room_id: String,
    pub membership: MembershipState,
    pub sender: String,
    pub reason: Option<String>,
    pub invited_by: Option<String>,
    pub display_name: Option<String>,
    pub avatar_url: Option<String>,
    pub is_direct: Option<bool>,
    /// The third-party invite, as JSON text.
    pub third_party_invite: Option<String>,
    pub join_authorised_via_users_server: Option<String>,
    pub event_id: String,
    pub origin_server_ts: i64,
    pub auth_events: Vec<String>,
    pub prev_events: Vec<String>,
}

/// A history row is complete when it has an id, a sender, a content and a time.
pub open spec fn row_complete(row: HistoryRow) -> bool {
    row.event_id is Some && row.sender is Some && row.has_content && row.origin_server_ts is Some
}

/// The complete rows of a history, in order.
pub open spec fn complete_rows(rows: Seq<HistoryRow>) -> Seq<HistoryRow>
    decreases rows.len(),
{
    if rows.len() == 0 {
        Seq::empty()
    } else {
        let rest = complete_rows(rows.drop_last());
        if row_complete(rows.last()) { rest.push(rows.last()) } else { rest }
    }
}

/// `c` is the context that the complete row `row` gives for `user_id` in `room_id`.
pub open spec fn context_of_row(c: MembershipContext, row: HistoryRow, room_id: Seq<char>, user_id: Seq<char>) -> bool {
    &&& c.user_id@ == user_id
    &&& c.room_id@ == room_id
    &&& c.membership == match row.membership {
        Some(m) => membership_or_leave(m@),
        None => MembershipState::Leave,
    }
    &&& Some(c.sender) == row.sender
    &&& c.reason == row.reason
    &&& c.invited_by == row.invited_by
    &&& c.display_name == row.display_name
    &&& c.avatar_url == row.avatar_url
    &&& c.is_direct == row.is_direct
    &&& c.third_party_invite == row.third_party_invite
    &&& c.join_authorised_via_users_server == row.join_authorised_via_users_server
    &&& Some(c.event_id) == row.event_id
    &&& Some(c.origin_server_ts) == row.origin_server_ts
    &&& c.auth_events@ == row.auth_events@
    &&& c.prev_events@ == row.prev_events@
}

/// The limit that a history query ends with: `LIMIT n`, or nothing.
pub open spec fn limit_clause(limit: Option<i32>) -> Seq<char> {
    match limit {
        Some(l) => "LIMIT "@ + signed_decimal(l as int),
        None => Seq::empty(),
    }
}

/// A membership event in the order of the room's history; `timestamp` is in
/// milliseconds.
#[derive(Debug)]
pub struct MembershipEvent {
    pub event_id: String,
    pub room_id: String,
    pub user_id: String,
    pub membership: MembershipState,
    pub reason: Option<String>,
    pub actor_id: Option<String>,
    pub timestamp: i64,
}

/// A stored membership event as the history-events query reads it back.
#[derive(Debug)]
pub struct MembershipEventRow {
    pub event_id: String,
    pub room_id: String,
    pub user_id: String,
    pub membership: Option<String>,
    pub reason: Option<String>,
    pub sender: String,
    pub origin_server_ts: i64,
}

/// `e` is the event that `row` gives; a time chrono cannot represent reads as `now`.
pub open spec fn event_of_row(e: MembershipEvent, row: MembershipEventRow, now: i64) -> bool {
    &&& e.event_id == row.event_id
    &&& e.room_id == row.room_id
    &&& e.user_id == row.user_id
    &&& e.membership == match row.membership {
        Some(m) => membership_or_leave(m@),
        None => MembershipState::Leave,
    }
    &&& e.reason == row.reason
    &&& e.actor_id == Some(row.sender)
    &&& e.timestamp == if chrono_millis_valid(row.origin_server_ts) { row.origin_server_ts } else { now }
}

/// An event id and its time, as the conflict query reads them back.
pub open spec fn row_valid(row: (Option<String>, Option<i64>)) -> bool {
    row.0 is Some && row.1 is Some
}

/// How many readable rows carry the time `t`.
pub open spec fn rows_at(rows: Seq<(Option<String>, Option<i64>)>, t: i64) -> nat
    decreases rows.len(),
{
    if rows.len() == 0 {
        0
    } else {
        let rest = rows_at(rows.drop_last(), t);
        if row_valid(rows.last()) && rows.last().1 == Some(t) { rest + 1 } else { rest }
    }
}

/// The ids of the readable rows of `prefix` whose time some other readable row
/// of `all` shares, in order.
pub open spec fn conflicting_ids(prefix: Seq<(Option<String>, Option<i64>)>, all: Seq<(Option<String>, Option<i64>)>) -> Seq<String>
    decreases prefix.len(),
{
    if prefix.len() == 0 {
        Seq::empty()
    } else {
        let rest = conflicting_ids(prefix.drop_last(), all);
        let row = prefix.last();
        if row_valid(row) && rows_at(all, row.1.unwrap()) >= 2 { rest.push(row.0.unwrap()) } else { rest }
    }
}

/// The ids of the rows, joined with `", "`.
pub open spec fn joined_ids(ids: Seq<String>) -> Seq<char>
    decreases ids.len(),
{
    if ids.len() == 0 {
        Seq::empty()
    } else if ids.len() == 1 {
        ids[0]@
    } else {
        joined_ids(ids.drop_last()) + ", "@ + ids.last()@
    }
}

fn join_ids(ids: &Vec<String>) -> (r: String)
    ensures
        r@ == joined_ids(ids@),
{
    let mut out = String::new();
    let mut i: usize = 0;
    while i < ids.len()
        invariant
            i <= ids@.len(),
            out@ == joined_ids(ids@.subrange(0, i as int)),
        decreases ids@.len() - i,
    {
        let ghost p = ids@.subrange(0, i as int);
        let ghost q = ids@.subrange(0, i + 1);
        assert(q.drop_last() =~= p);
        if i > 0 {
            proof { reveal_strlit(", "); }
            out.append(", ");
        } else {
            assert(p.len() == 0);
        }
        out.append(ids[i].as_str());
        i = i + 1;
    }
    assert(ids@.subrange(0, ids@.len() as int) =~= ids@);
    out
}

/// The outcome of resolving a conflict between membership events, from the
/// ids asked for, how many of them were found, and the membership name that
/// resolution gave the user's event (`None` when it kept no event for the
/// user, `Some(None)` when that event names no membership).
pub open spec fn conflict_resolution(
    room_id: Seq<char>,
    user_id: Seq<char>,
    conflicting: Seq<String>,
    found: nat,
    resolved: Option<Option<String>>,
    r: Result<MembershipState, RepositoryError>,
) -> bool {
    if conflicting.len() == 0 {
        r.is_err() && is_validation(r->Err_0, "conflicting_events"@, "No conflicting events provided"@)
    } else if found == 0 {
        r.is_err() && is_not_found(r->Err_0, "Conflicting events"@, joined_ids(conflicting))
    } else {
        match resolved {
            None => r.is_err() && is_not_found(r->Err_0, "Resolved membership event"@, room_id + ":"@ + user_id),
            Some(None) => r == Ok::<MembershipState, RepositoryError>(MembershipState::Leave),
            Some(Some(m)) => r == Ok::<MembershipState, RepositoryError>(membership_or_leave(m@)),
        }
    }
}

/// The outcome of checking a membership event before it is applied.
pub open spec fn event_check(
    event_type: Seq<char>,
    state_key: Option<Seq<char>>,
    membership: Option<Seq<char>>,
    current: Option<MembershipState>,
    sender: Seq<char>,
    sender_in_room: bool,
    r: Result<bool, RepositoryError>,
) -> bool {
    if event_type != "m.room.member"@ {
        r == Ok::<bool, RepositoryError>(false)
    } else if state_key is None {
        r.is_err() && is_validation(r->Err_0, "state_key"@, "Membership event must have state_key"@)
    } else if membership is None {
        r.is_err() && is_validation(r->Err_0, "membership"@, "Membership event must have membership field"@)
    } else {
        match event_state(membership.unwrap()) {
            None => r == Ok::<bool, RepositoryError>(false),
            Some(new_state) => r == Ok::<bool, RepositoryError>(transition_allowed(
                match current {
                    Some(c) => c,
                    None => MembershipState::Leave,
                },
                new_state,
                sender == state_key.unwrap(),
                sender_in_room,
            )),
        }
    }
}

impl<D> MembershipRepository<D> {
    /// Whether a new membership event conflicts with what is stored: the ids
    /// of the events stored for the user at the event's time (other than
    /// itself) come first, then whether the change from the current state is
    /// allowed (`sender_in_room` as for `validate_membership_transition`).
    pub fn check_membership_conflict(
        &self,
        user_id: &str,
        current: Option<MembershipState>,
        same_time_ids: &Vec<Option<String>>,
        new_state: MembershipState,
        sender: &str,
        sender_in_room: bool,
    ) -> (r: Option<String>)
        ensures
            opt_view(r) == conflict_found(current, same_time_ids@, new_state, sender@ == user_id@, sender_in_room),
    {
        if same_time_ids.len() > 0 {
            match &same_time_ids[0] {
                Some(id) => {
                    proof { reveal_strlit("Temporal conflict with event: "); }
                    return Some(concat2("Temporal conflict with event: ", id.as_str()));
                },
                None => {},
            }
        }
        match current {
            Some(c) => {
                if !self.validate_membership_transition(c, new_state, user_id, sender, sender_in_room) {
                    proof {
                        reveal_strlit("Invalid transition from ");
                        reveal_strlit(" to ");
                    }
                    let msg = concat4("Invalid transition from ", debug_str(c), " to ", debug_str(new_state));
                    Some(msg)
                } else {
                    None
                }
            },
            None => None,
        }
    }

    /// The checks before a conflict is resolved: some event ids must be
    /// given, and some of them must be found.
    pub fn check_conflicting_events(&self, conflicting_events: &Vec<String>, found: usize) -> (r: Result<(), RepositoryError>)
        ensures
            conflicting_events@.len() == 0 ==> r.is_err() && is_validation(
                r->Err_0,
                "conflicting_events"@,
                "No conflicting events provided"@,
            ),
            conflicting_events@.len() > 0 && found == 0 ==> r.is_err() && is_not_found(
                r->Err_0,
                "Conflicting events"@,
                joined_ids(conflicting_events@),
            ),
            conflicting_events@.len() > 0 && found > 0 ==> r.is_ok(),
    {
        if conflicting_events.len() == 0 {
            proof {
                reveal_strlit("conflicting_events");
                reveal_strlit("No conflicting events provided");
            }
            return Err(validation("conflicting_events", "No conflicting events provided"));
        }
        if found == 0 {
            let ids = join_ids(conflicting_events);
            proof { reveal_strlit("Conflicting events"); }
            return Err(not_found("Conflicting events", ids.as_str()));
        }
        Ok(())
    }

    /// The membership a conflict resolves to, from how many of the events
    /// were found and what resolution kept for the user (see
    /// `conflict_resolution`).
    pub fn resolve_membership_conflict(
        &self,
        room_id: &str,
        user_id: &str,
        conflicting_events: &Vec<String>,
        found: usize,
        resolved: Option<Option<String>>,
    ) -> (r: Result<MembershipState, RepositoryError>)
        ensures
            conflict_resolution(room_id@, user_id@, conflicting_events@, found as nat, resolved, r),
    {
        match self.check_conflicting_events(conflicting_events, found) {
            Err(e) => return Err(e),
            Ok(()) => {},
        }
        match resolved {
            None => {
                proof { reveal_strlit("Resolved membership event"); reveal_strlit(":"); }
                let id = concat3(room_id, ":", user_id);
                Err(not_found("Resolved membership event", id.as_str()))
            },
            Some(None) => Ok(MembershipState::Leave),
            Some(Some(m)) => Ok(MembershipState::from_name_or_leave(m.as_str())),
        }
    }

    /// The limit clause of a history query.
    pub fn history_limit_clause(&self, limit: Option<i32>) -> (r: String)
        ensures
            r@ == limit_clause(limit),
    {
        match limit {
            Some(l) => {
                proof { reveal_strlit("LIMIT "); }
                let n = format_i64(l as i64);
                concat2("LIMIT ", n.as_str())
            },
            None => String::new(),
        }
    }

    /// A user's membership history from the stored events, newest first as
    /// read: one context per complete row, in order; other rows are skipped.
    pub fn get_membership_history(&self, room_id: &str, user_id: &str, rows: Vec<HistoryRow>) -> (r: Vec<MembershipContext>)
        ensures
            r@.len() == complete_rows(rows@).len(),
            forall|i: int| 0 <= i < r@.len() ==> context_of_row(#[trigger] r@[i], complete_rows(rows@)[i], room_id@, user_id@),
    {
        let ghost all = rows@;
        let mut out: Vec<MembershipContext> = Vec::new();
        let mut rows = rows;
        let total: usize = rows.len();
        let mut taken: usize = 0;
        while taken < total
            invariant
                taken + rows@.len() == all.len(),
                all.len() == total,
                rows@ =~= all.subrange(taken as int, all.len() as int),
                out@.len() == complete_rows(all.subrange(0, taken as int)).len(),
                forall|j: int| 0 <= j < out@.len() ==> context_of_row(#[trigger] out@[j], complete_rows(all.subrange(0, taken as int))[j], room_id@, user_id@),
            decreases rows@.len(),
        {
            let ghost p = all.subrange(0, taken as int);
            let ghost q = all.subrange(0, taken + 1);
            assert(q.drop_last() =~= p);
            let row = rows.remove(0);
            assert(row == all[taken as int]);
            assert(q.last() == row);
            assert(rows@ =~= all.subrange(taken + 1, all.len() as int));
            let HistoryRow {
                event_id, sender, has_content, membership, reason, invited_by, display_name, avatar_url,
                is_direct, third_party_invite, join_authorised_via_users_server, origin_server_ts, auth_events, prev_events,
            } = row;
            match (event_id, sender, origin_server_ts) {
                (Some(event_id), Some(sender), Some(ts)) => {
                    if has_content {
                        let state = match &membership {
                            Some(m) => MembershipState::from_name_or_leave(m.as_str()),
                            None => MembershipState::Leave,
                        };
                        out.push(MembershipContext {
                            user_id: owned(user_id),
                            room_id: owned(room_id),
                            membership: state,
                            sender,
                            reason,
                            invited_by,
                            display_name,
                            avatar_url,
                            is_direct,
                            third_party_invite,
                            join_authorised_via_users_server,
                            event_id,
                            origin_server_ts: ts,
                            auth_events,
                            prev_events,
                        });
                        proof {
                            assert(complete_rows(q) == complete_rows(p).push(row));
                            assert forall|j: int| 0 <= j < out@.len() implies context_of_row(#[trigger] out@[j], complete_rows(q)[j], room_id@, user_id@) by {
                                if j < out@.len() - 1 {
                                    assert(complete_rows(q)[j] == complete_rows(p)[j]);
                                }
                            }
                        }
                    } else {
                        assert(complete_rows(q) == complete_rows(p));
                    }
                },
                _ => {
                    assert(complete_rows(q) == complete_rows(p));
                },
            }
            taken = taken + 1;
        }
        assert(all.subrange(0, all.len() as int) =~= all);
        out
    }

    /// A user's membership events in order, each read as a `MembershipEvent`.
    pub fn get_membership_history_events(&self, rows: Vec<MembershipEventRow>, now_millis: i64) -> (r: Vec<MembershipEvent>)
        ensures
            r@.len() == rows@.len(),
            forall|i: int| 0 <= i < r@.len() ==> event_of_row(#[trigger] r@[i], rows@[i], now_millis),
    {
        let ghost all = rows@;
        let mut out: Vec<MembershipEvent> = Vec::new();
        let mut rows = rows;
        let total: usize = rows.len();
        let mut taken: usize = 0;
        while taken < total
            invariant
                taken + rows@.len() == all.len(),
                all.len() == total,
                rows@ =~= all.subrange(taken as int, all.len() as int),
                out@.len() == taken,
                forall|j: int| 0 <= j < taken ==> event_of_row(#[trigger] out@[j], all[j], now_millis),
            decreases rows@.len(),
        {
            let row = rows.remove(0);
            assert(row == all[taken as int]);
            assert(rows@ =~= all.subrange(taken + 1, all.len() as int));
            let MembershipEventRow { event_id, room_id, user_id, membership, reason, sender, origin_server_ts } = row;
            let state = match &membership {
                Some(m) => MembershipState::from_name_or_leave(m.as_str()),
                None => MembershipState::Leave,
            };
            let timestamp = match datetime_from_millis(origin_server_ts) {
                Some(ms) => ms,
                None => now_millis,
            };
            out.push(MembershipEvent { event_id, room_id, user_id, membership: state, reason, actor_id: Some(sender), timestamp });
            taken = taken + 1;
        }
        out
    }

    /// The ids of a user's membership events that share their time with
    /// another of them; rows without an id or a time are skipped. The ids come
    /// in the order of the rows.
    pub fn get_conflicting_memberships(&self, rows: &Vec<(Option<String>, Option<i64>)>) -> (r: Vec<String>)
        ensures
            r@ == conflicting_ids(rows@, rows@),
    {
        let mut out: Vec<String> = Vec::new();
        let mut i: usize = 0;
        while i < rows.len()
            invariant
                i <= rows@.len(),
                out@ == conflicting_ids(rows@.subrange(0, i as int), rows@),
            decreases rows@.len() - i,
        {
            let ghost p = rows@.subrange(0, i as int);
            let ghost q = rows@.subrange(0, i + 1);
            assert(q.drop_last() =~= p);
            match (&rows[i].0, &rows[i].1) {
                (Some(id), Some(t)) => {
                    let t = *t;
                    let mut count: usize = 0;
                    let mut k: usize = 0;
                    while k < rows.len()
                        invariant
                            k <= rows@.len(),
                            count == rows_at(rows@.subrange(0, k as int), t),
                            count <= k,
                        decreases rows@.len() - k,
                    {
                        let ghost a = rows@.subrange(0, k as int);
                        let ghost b = rows@.subrange(0, k + 1);
                        assert(b.drop_last() =~= a);
                        match (&rows[k].0, &rows[k].1) {
                            (Some(_), Some(u)) => {
                                if *u == t {
                                    count = count + 1;
                                }
                            },
                            _ => {},
                        }
                        k = k + 1;
                    }
                    assert(rows@.subrange(0, rows@.len() as int) =~= rows@);
                    if count >= 2 {
                        out.push(id.clone());
                    }
                },
                _ => {},
            }
            i = i + 1;
        }
        assert(rows@.subrange(0, rows@.len() as int) =~= rows@);
        out
    }

    /// Whether a membership event may be applied: it must be a membership
    /// event, name its target and a membership, and make a change from the
    /// target's current state (`Leave` when there is none) that is allowed.
    pub fn validate_membership_event(
        &self,
        event_type: &str,
        state_key: Option<&str>,
        membership: Option<&str>,
        current: Option<MembershipState>,
        sender: &str,
        sender_in_room: bool,
    ) -> (r: Result<bool, RepositoryError>)
        ensures
            event_check(event_type@, opt_str_view(state_key), opt_str_view(membership), current, sender@, sender_in_room, r),
    {
        if !str_eq(event_type, "m.room.member") {
            return Ok(false);
        }
        let target = match state_key {
            Some(t) => t,
            None => {
                proof {
                    reveal_strlit("state_key");
                    reveal_strlit("Membership event must have state_key");
                }
                return Err(validation("state_key", "Membership event must have state_key"));
            },
        };
        let m = match membership {
            Some(m) => m,
            None => {
                proof {
                    reveal_strlit("membership");
                    reveal_strlit("Membership event must have membership field");
                }
                return Err(validation("membership", "Membership event must have membership field"));
            },
        };
        let new_state = match MembershipState::from_name(m) {
            Some(s) => s,
            None => return Ok(false),
        };
        let current_state = match current {
            Some(c) => c,
            None => MembershipState::Leave,
        };
        Ok(self.validate_membership_transition(current_state, new_state, target, sender, sender_in_room))
    }
}

/// The texts that are present, in order.
pub open spec fn present_texts(rows: Seq<Option<String>>) -> Seq<String>
    decreases rows.len(),
{
    if rows.len() == 0 {
        Seq::empty()
    } else {
        let rest = present_texts(rows.drop_last());
        match rows.last() {
            Some(t) => rest.push(t),
            None => rest,
        }
    }
}

impl<D> MembershipRepository<D> {
    /// The users of the membership rows read for a state: the rows that
    /// carry a user id, in order.
    pub fn get_users_by_membership_state(&self, user_ids: &Vec<Option<String>>) -> (r: Vec<String>)
        ensures
            r@ == present_texts(user_ids@),
    {
        let mut out: Vec<String> = Vec::new();
        let mut i: usize = 0;
        while i < user_ids.len()
            invariant
                i <= user_ids@.len(),
                out@ == present_texts(user_ids@.subrange(0, i as int)),
            decreases user_ids@.len() - i,
        {
            assert(user_ids@.subrange(0, i + 1).drop_last() =~= user_ids@.subrange(0, i as int));
            match &user_ids[i] {
                Some(u) => out.push(u.clone()),
                None => {},
            }
            i = i + 1;
        }
        assert(user_ids@.subrange(0, user_ids@.len() as int) =~= user_ids@);
        out
    }

    /// The time up to which memberships are read for the state at an event,
    /// from the creation times read for that event: no event means no users
    /// (`None`), an event without a readable time is an error.
    pub fn membership_cutoff_at_event(&self, event_times: &Vec<Option<String>>) -> (r: Result<Option<String>, RepositoryError>)
        ensures
            event_times@.len() == 0 ==> r == Ok::<Option<String>, RepositoryError>(None),
            event_times@.len() > 0 && event_times@[0] is None ==> r.is_err() && is_validation(
                r->Err_0,
                "created_at"@,
                "Event timestamp not found"@,
            ),
            event_times@.len() > 0 && event_times@[0] is Some ==> r == Ok::<Option<String>, RepositoryError>(event_times@[0]),
    {
        if event_times.len() == 0 {
            return Ok(None);
        }
        match &event_times[0] {
            Some(t) => Ok(Some(t.clone())),
            None => {
                proof {
                    reveal_strlit("created_at");
                    reveal_strlit("Event timestamp not found");
                }
                Err(validation("created_at", "Event timestamp not found"))
            },
        }
    }
}

/// The servers of the user ids, each once, in order of first appearance.
pub open spec fn servers_of(user_ids: Seq<String>) -> Seq<Seq<char>>
    decreases user_ids.len(),
{
    if user_ids.len() == 0 {
        Seq::empty()
    } else {
        let rest = servers_of(user_ids.drop_last());
        match second_field(user_ids.last()@) {
            Some(s) => if rest.contains(s) { rest } else { rest.push(s) },
            None => rest,
        }
    }
}

impl<D> MembershipRepository<D> {
    /// The servers of a room's joined members, from their user ids: the
    /// second `:`-separated field of each id, each server once.
    pub fn get_remote_servers_in_room(&self, joined_user_ids: &Vec<String>) -> (r: Vec<String>)
        ensures
            r@.map_values(|s: String| s@) == servers_of(joined_user_ids@),
    {
        let mut out: Vec<String> = Vec::new();
        let mut i: usize = 0;
        while i < joined_user_ids.len()
            invariant
                i <= joined_user_ids@.len(),
                out@.map_values(|s: String| s@) == servers_of(joined_user_ids@.subrange(0, i as int)),
            decreases joined_user_ids@.len() - i,
        {
            let ghost p = joined_user_ids@.subrange(0, i as int);
            let ghost q = joined_user_ids@.subrange(0, i + 1);
            assert(q.drop_last() =~= p);
            match second_field_exec(joined_user_ids[i].as_str()) {
                Some(server) => {
                    let mut seen = false;
                    let mut j: usize = 0;
                    while j < out.len()
                        invariant
                            j <= out@.len(),
                            seen == exists|k: int| 0 <= k < j && (#[trigger] out@[k])@ == server@,
                        decreases out@.len() - j,
                    {
                        if str_eq(out[j].as_str(), server.as_str()) {
                            seen = true;
                        }
                        j = j + 1;
                    }
                    proof {
                        let v = out@.map_values(|s: String| s@);
                        if seen {
                            let k = choose|k: int| 0 <= k < out@.len() && (#[trigger] out@[k])@ == server@;
                            assert(v[k] == server@);
                        }
                        if v.contains(server@) {
                            let k = choose|k: int| 0 <= k < v.len() && v[k] == server@;
                            assert(out@[k]@ == server@);
                        }
                    }
                    if !seen {
                        out.push(server);
                        assert(out@.map_values(|s: String| s@) =~= servers_of(p).push(second_field(q.last()@).unwrap()));
                    }
                },
                None => {},
            }
            i = i + 1;
        }
        assert(joined_user_ids@.subrange(0, joined_user_ids@.len() as int) =~= joined_user_ids@);
        out
    }
}

/// Each server of a room is listed once.
pub proof fn law_servers_listed_once(user_ids: Seq<String>)
    ensures
        servers_of(user_ids).no_duplicates(),
    decreases user_ids.len(),
{
    if user_ids.len() > 0 {
        law_servers_listed_once(user_ids.drop_last());
    }
}

proof fn lemma_counts_total_ge(c: Seq<(Seq<char>, nat)>, j: int)
    requires
        0 <= j < c.len(),
    ensures
        counts_total(c) >= c[j].1,
    decreases c.len(),
{
    if j < c.len() - 1 {
        lemma_counts_total_ge(c.drop_last(), j);
    }
}

} // verus!
