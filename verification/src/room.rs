//! Rooms: join rules, guest access, visibility, server ACL patterns and the
//! power-level rules of room operations.
use vstd::prelude::*;
use crate::error::{RepositoryError, is_not_found, is_validation, validation, owned, concat3};
use crate::text::{str_eq, starts_with, ends_with, is_prefix_of, is_suffix_of, opt_view};
use crate::power_levels::RoomPowerLevels;
use crate::membership::{MembershipState, membership_name};

verus! {

/// The join rule of a room.
#[derive(PartialEq, Eq, Structural, Clone, Copy, Debug)]
pub enum JoinRules {
    Public,
    Invite,
    Knock,
    Private,
    Restricted,
}

pub open spec fn join_rule_name(j: JoinRules) -> Seq<char> {
    match j {
        JoinRules::Public => "public"@,
        JoinRules::Invite => "invite"@,
        JoinRules::Knock => "knock"@,
        JoinRules::Private => "private"@,
        JoinRules::Restricted => "restricted"@,
    }
}

/// The join rule a state event names; an unknown name reads as `Invite`.
pub open spec fn join_rule_from_name(s: Seq<char>) -> JoinRules {
    if s == "public"@ {
        JoinRules::Public
    } else if s == "invite"@ {
        JoinRules::Invite
    } else if s == "knock"@ {
        JoinRules::Knock
    } else if s == "private"@ {
        JoinRules::Private
    } else if s == "restricted"@ {
        JoinRules::Restricted
    } else {
        JoinRules::Invite
    }
}

impl JoinRules {
    pub fn as_str(&self) -> (r: &'static str)
        ensures
            r@ == join_rule_name(*self),
    {
        match self {
            JoinRules::Public => "public",
            JoinRules::Invite => "invite",
            JoinRules::Knock => "knock",
            JoinRules::Private => "private",
            JoinRules::Restricted => "restricted",
        }
    }

    /// The join rule of a room from its join-rules state event (`None` when
    /// the room has none, or the event names no rule): `Invite` by default.
    pub fn from_state(join_rule: Option<&str>) -> (r: JoinRules)
        ensures
            r == match join_rule {
                Some(s) => join_rule_from_name(s@),
                None => JoinRules::Invite,
            },
    {
        match join_rule {
            None => JoinRules::Invite,
            Some(s) => if str_eq(s, "public") {
                JoinRules::Public
            } else if str_eq(s, "invite") {
                JoinRules::Invite
            } else if str_eq(s, "knock") {
                JoinRules::Knock
            } else if str_eq(s, "private") {
                JoinRules::Private
            } else if str_eq(s, "restricted") {
                JoinRules::Restricted
            } else {
                JoinRules::Invite
            },
        }
    }
}

/// Whether guests may join a room.
#[derive(PartialEq, Eq, Structural, Clone, Copy, Debug)]
pub enum GuestAccess {
    CanJoin,
    Forbidden,
}

pub open spec fn guest_access_name(g: GuestAccess) -> Seq<char> {
    match g {
        GuestAccess::CanJoin => "can_join"@,
        GuestAccess::Forbidden => "forbidden"@,
    }
}

impl GuestAccess {
    pub fn as_str(&self) -> (r: &'static str)
        ensures
            r@ == guest_access_name(*self),
    {
        match self {
            GuestAccess::CanJoin => "can_join",
            GuestAccess::Forbidden => "forbidden",
        }
    }

    /// Guest access from the guest-access state event: only `can_join`
    /// allows guests; anything else, or no event, forbids them.
    pub fn from_state(guest_access: Option<&str>) -> (r: GuestAccess)
        ensures
            r == (if guest_access.is_some() && guest_access.unwrap()@ == "can_join"@ {
                GuestAccess::CanJoin
            } else {
                GuestAccess::Forbidden
            }),
    {
        match guest_access {
            Some(s) => if str_eq(s, "can_join") {
                GuestAccess::CanJoin
            } else {
                GuestAccess::Forbidden
            },
            None => GuestAccess::Forbidden,
        }
    }
}

/// Whether a room's history is readable by anyone.
#[derive(PartialEq, Eq, Structural, Clone, Copy, Debug)]
pub enum RoomVisibility {
    Public,
    Private,
}

impl RoomVisibility {
    /// The visibility of a room from its history-visibility setting:
    /// `world_readable` is public, anything else (or none) private.
    pub fn from_history_visibility(history_visibility: Option<&str>) -> (r: RoomVisibility)
        ensures
            r == (if history_visibility.is_some() && history_visibility.unwrap()@
                == "world_readable"@ {
                RoomVisibility::Public
            } else {
                RoomVisibility::Private
            }),
    {
        match history_visibility {
            Some(s) => if str_eq(s, "world_readable") {
                RoomVisibility::Public
            } else {
                RoomVisibility::Private
            },
            None => RoomVisibility::Private,
        }
    }
}

/// An operation on a room whose power requirement is checked.
#[derive(Debug)]
pub enum RoomOperation {
    SendMessage,
    SendState(String),
    InviteUser,
    KickUser,
    BanUser,
    ChangeSettings,
    ChangePowerLevels,
}

/// Whether a room federates, and its server ACL patterns.
#[derive(Debug)]
pub struct FederationSettings {
    pub federate: bool,
    pub restricted_servers: Vec<String>,
    pub allowed_servers: Vec<String>,
}

/// The room that replaces an upgraded room.
#[derive(Debug)]
pub struct RoomUpgradeResponse {
    pub replacement_room: String,
}

/// The profile of a room member.
#[derive(Debug)]
pub struct MemberInfo {
    pub avatar_url: Option<String>,
    pub display_name: Option<String>,
}

/// The members of a room by state, each member once per state.
#[derive(Debug)]
pub struct MembersResponse {
    pub joined: Vec<(String, MemberInfo)>,
    pub left: Option<Vec<(String, MemberInfo)>>,
    pub invited: Option<Vec<(String, MemberInfo)>>,
    pub banned: Option<Vec<(String, MemberInfo)>>,
    pub knocked: Option<Vec<(String, MemberInfo)>>,
}

/// A membership row as the store gives it: each field absent when missing
/// or not text.
#[derive(Debug)]
pub struct MemberListRow {
    pub user_id: Option<String>,
    pub membership: Option<String>,
    pub avatar_url: Option<String>,
    pub display_name: Option<String>,
}

/// The profile texts of a member.
pub open spec fn info_view(i: MemberInfo) -> (Option<Seq<char>>, Option<Seq<char>>) {
    (opt_view(i.avatar_url), opt_view(i.display_name))
}

/// The user of a row (empty when missing).
pub open spec fn row_user(r: MemberListRow) -> Seq<char> {
    match r.user_id {
        Some(u) => u@,
        None => Seq::empty(),
    }
}

/// The state of a row (`leave` when missing).
pub open spec fn row_state(r: MemberListRow) -> Seq<char> {
    match r.membership {
        Some(m) => m@,
        None => "leave"@,
    }
}

/// The members in `state` that the rows give: a later row for the same
/// user replaces an earlier one.
pub open spec fn member_map(rows: Seq<MemberListRow>, state: Seq<char>) -> Map<Seq<char>, (Option<Seq<char>>, Option<Seq<char>>)>
    decreases rows.len(),
{
    if rows.len() == 0 {
        Map::empty()
    } else {
        let m = member_map(rows.drop_last(), state);
        let r = rows.last();
        if row_state(r) == state {
            m.insert(row_user(r), (opt_view(r.avatar_url), opt_view(r.display_name)))
        } else {
            m
        }
    }
}

/// The members that a list of entries gives, later entries winning.
pub open spec fn entries_map(v: Seq<(String, MemberInfo)>) -> Map<Seq<char>, (Option<Seq<char>>, Option<Seq<char>>)>
    decreases v.len(),
{
    if v.len() == 0 {
        Map::empty()
    } else {
        entries_map(v.drop_last()).insert(v.last().0@, info_view(v.last().1))
    }
}

/// No user is listed twice.
pub open spec fn entry_keys_distinct(v: Seq<(String, MemberInfo)>) -> bool {
    forall|a: int, b: int| 0 <= a < b < v.len() ==> (#[trigger] v[a]).0@ != (#[trigger] v[b]).0@
}

/// A bucket of members in `state`: present (and matching the rows) when
/// some row has that state; `joined` is always present.
pub open spec fn bucket_of(b: Option<Vec<(String, MemberInfo)>>, rows: Seq<MemberListRow>, state: Seq<char>) -> bool {
    (b.is_some() <==> exists|i: int| 0 <= i < rows.len() && row_state(#[trigger] rows[i]) == state)
        && (b.is_some() ==> entries_map(b.unwrap()@) == member_map(rows, state) && entry_keys_distinct(b.unwrap()@))
        && (b.is_none() ==> member_map(rows, state) == Map::<Seq<char>, (Option<Seq<char>>, Option<Seq<char>>)>::empty())
}

proof fn lemma_entries_map_update(v: Seq<(String, MemberInfo)>, j: int, e: (String, MemberInfo))
    requires
        entry_keys_distinct(v),
        0 <= j < v.len(),
        v[j].0@ == e.0@,
    ensures
        entries_map(v.update(j, e)) == entries_map(v).insert(e.0@, info_view(e.1)),
    decreases v.len(),
{
    let w = v.update(j, e);
    if j == v.len() - 1 {
        assert(w.drop_last() =~= v.drop_last());
        assert(entries_map(w) =~= entries_map(v).insert(e.0@, info_view(e.1)));
    } else {
        assert(w.drop_last() =~= v.drop_last().update(j, e));
        assert(entry_keys_distinct(v.drop_last())) by {
            assert forall|a: int, b: int| 0 <= a < b < v.drop_last().len() implies (#[trigger] v.drop_last()[a]).0@
                != (#[trigger] v.drop_last()[b]).0@ by {
                assert(v.drop_last()[a] == v[a] && v.drop_last()[b] == v[b]);
            }
        }
        lemma_entries_map_update(v.drop_last(), j, e);
        assert(v[j].0@ != v.last().0@) by {
            assert(v.last() == v[v.len() - 1]);
        }
        assert(w.last() == v.last());
        assert(entries_map(w) =~= entries_map(v).insert(e.0@, info_view(e.1)));
    }
}

proof fn lemma_entries_map_has(v: Seq<(String, MemberInfo)>, k: Seq<char>)
    ensures
        entries_map(v).dom().contains(k) <==> exists|i: int| 0 <= i < v.len() && (#[trigger] v[i]).0@ == k,
    decreases v.len(),
{
    if v.len() > 0 {
        lemma_entries_map_has(v.drop_last(), k);
        if exists|i: int| 0 <= i < v.drop_last().len() && (#[trigger] v.drop_last()[i]).0@ == k {
            let i = choose|i: int| 0 <= i < v.drop_last().len() && (#[trigger] v.drop_last()[i]).0@ == k;
            assert(v[i] == v.drop_last()[i]);
        }
        if exists|i: int| 0 <= i < v.len() && (#[trigger] v[i]).0@ == k {
            let i = choose|i: int| 0 <= i < v.len() && (#[trigger] v[i]).0@ == k;
            if i < v.len() - 1 {
                assert(v.drop_last()[i] == v[i]);
            }
        }
    }
}

proof fn lemma_state_seen(q: Seq<MemberListRow>, st: Seq<char>)
    requires
        q.len() > 0,
    ensures
        (exists|k: int| 0 <= k < q.len() && row_state(#[trigger] q[k]) == st) <==> ((exists|k: int|
            0 <= k < q.drop_last().len() && row_state(#[trigger] q.drop_last()[k]) == st) || row_state(q.last())
            == st),
{
    let p = q.drop_last();
    if exists|k: int| 0 <= k < q.len() && row_state(#[trigger] q[k]) == st {
        let k = choose|k: int| 0 <= k < q.len() && row_state(#[trigger] q[k]) == st;
        if k < p.len() {
            assert(p[k] == q[k]);
        }
    }
    if exists|k: int| 0 <= k < p.len() && row_state(#[trigger] p[k]) == st {
        let k = choose|k: int| 0 <= k < p.len() && row_state(#[trigger] p[k]) == st;
        assert(q[k] == p[k]);
    }
    if row_state(q.last()) == st {
        assert(row_state(q[q.len() - 1]) == st);
    }
}

fn put_member(v: &mut Vec<(String, MemberInfo)>, user: String, info: MemberInfo)
    requires
        entry_keys_distinct(old(v)@),
    ensures
        entry_keys_distinct(final(v)@),
        entries_map(final(v)@) == entries_map(old(v)@).insert(user@, info_view(info)),
{
    let mut j: usize = 0;
    while j < v.len()
        invariant
            j <= v@.len(),
            forall|m: int| 0 <= m < j ==> (#[trigger] v@[m]).0@ != user@,
        ensures
            j <= v@.len(),
            j < v@.len() ==> v@[j as int].0@ == user@,
            forall|m: int| 0 <= m < j ==> (#[trigger] v@[m]).0@ != user@,
        decreases v@.len() - j,
    {
        if str_eq(v[j].0.as_str(), user.as_str()) {
            break;
        }
        j = j + 1;
    }
    let ghost before = v@;
    if j < v.len() {
        proof {
            lemma_entries_map_update(before, j as int, (user, info));
        }
        v.set(j, (user, info));
        proof {
            assert(v@ =~= before.update(j as int, (user, info)));
            assert forall|a: int, b: int| 0 <= a < b < v@.len() implies (#[trigger] v@[a]).0@ != (#[trigger] v@[b]).0@ by {
                assert(v@[a].0@ == before[a].0@ && v@[b].0@ == before[b].0@);
            }
        }
    } else {
        v.push((user, info));
        proof {
            assert(v@.drop_last() =~= before);
            assert forall|a: int, b: int| 0 <= a < b < v@.len() implies (#[trigger] v@[a]).0@ != (#[trigger] v@[b]).0@ by {
                if b < before.len() {
                    assert(v@[a] == before[a] && v@[b] == before[b]);
                } else {
                    assert(v@[a] == before[a]);
                }
            }
        }
    }
}

fn put_bucket(b: &mut Option<Vec<(String, MemberInfo)>>, user: String, info: MemberInfo)
    requires
        old(b).is_some() ==> entry_keys_distinct(old(b).unwrap()@),
    ensures
        final(b).is_some(),
        entry_keys_distinct(final(b).unwrap()@),
        entries_map(final(b).unwrap()@) == (match *old(b) {
            Some(v) => entries_map(v@),
            None => Map::empty(),
        }).insert(user@, info_view(info)),
{
    let mut v: Vec<(String, MemberInfo)> = match b.take() {
        Some(v) => v,
        None => Vec::new(),
    };
    proof {
        assert(v@.len() == 0 ==> entries_map(v@) == Map::<Seq<char>, (Option<Seq<char>>, Option<Seq<char>>)>::empty());
    }
    put_member(&mut v, user, info);
    *b = Some(v);
}

/// Rooms: the decisions of each operation are here; the handle `D` is what
/// the caller reads and writes the store with.
pub struct RoomRepository<D> {
    db: D,
}

impl<D> RoomRepository<D> {
    /// The store handle this repository was made with.
    pub closed spec fn handle(&self) -> D {
        self.db
    }

    pub fn new(db: D) -> (r: Self)
        ensures
            r.handle() == db,
    {
        RoomRepository { db }
    }

    /// The store handle.
    pub fn db(&self) -> (r: &D)
        ensures
            *r == self.handle(),
    {
        &self.db
    }
}

impl<D> RoomRepository<D> {
    /// The members of a room by state from its membership rows: a missing
    /// user is the empty id, a missing state is `leave`; rows in other
    /// states are skipped; a later row for a user replaces an earlier one.
    /// Only the joined members are always listed; another state is listed
    /// when some row has it.
    pub fn get_room_members_with_filter(&self, rows: &Vec<MemberListRow>) -> (r: MembersResponse)
        ensures
            entries_map(r.joined@) == member_map(rows@, "join"@),
            entry_keys_distinct(r.joined@),
            bucket_of(r.left, rows@, "leave"@),
            bucket_of(r.invited, rows@, "invite"@),
            bucket_of(r.banned, rows@, "ban"@),
            bucket_of(r.knocked, rows@, "knock"@),
    {
        let mut joined: Vec<(String, MemberInfo)> = Vec::new();
        let mut left: Option<Vec<(String, MemberInfo)>> = None;
        let mut invited: Option<Vec<(String, MemberInfo)>> = None;
        let mut banned: Option<Vec<(String, MemberInfo)>> = None;
        let mut knocked: Option<Vec<(String, MemberInfo)>> = None;
        proof {
            assert(entries_map(joined@) =~= member_map(rows@.subrange(0, 0), "join"@));
            assert(member_map(rows@.subrange(0, 0), "leave"@) =~= Map::empty());
            assert(member_map(rows@.subrange(0, 0), "invite"@) =~= Map::empty());
            assert(member_map(rows@.subrange(0, 0), "ban"@) =~= Map::empty());
            assert(member_map(rows@.subrange(0, 0), "knock"@) =~= Map::empty());
        }
        let mut i: usize = 0;
        while i < rows.len()
            invariant
                i <= rows@.len(),
                entries_map(joined@) == member_map(rows@.subrange(0, i as int), "join"@),
                entry_keys_distinct(joined@),
                bucket_of(left, rows@.subrange(0, i as int), "leave"@),
                bucket_of(invited, rows@.subrange(0, i as int), "invite"@),
                bucket_of(banned, rows@.subrange(0, i as int), "ban"@),
                bucket_of(knocked, rows@.subrange(0, i as int), "knock"@),
            decreases rows@.len() - i,
        {
            let ghost p = rows@.subrange(0, i as int);
            let ghost q = rows@.subrange(0, i + 1);
            assert(q.drop_last() =~= p);
            assert(q.last() == rows@[i as int]);
            let row = &rows[i];
            let user = match &row.user_id {
                Some(u) => u.clone(),
                None => {
                    proof { reveal_strlit(""); }
                    owned("")
                },
            };
            let info = MemberInfo {
                avatar_url: crate::membership::clone_opt(&row.avatar_url),
                display_name: crate::membership::clone_opt(&row.display_name),
            };
            let state: &str = match &row.membership {
                Some(m) => m.as_str(),
                None => "leave",
            };
            proof {
                assert(user@ == row_user(rows@[i as int]));
                assert(state@ == row_state(rows@[i as int]));
                reveal_strlit("join");
                reveal_strlit("leave");
                reveal_strlit("invite");
                reveal_strlit("ban");
                reveal_strlit("knock");
                assert("join"@.len() == 4 && "leave"@.len() == 5 && "invite"@.len() == 6 && "ban"@.len() == 3
                    && "knock"@.len() == 5);
                assert("leave"@[0] == 'l' && "knock"@[0] == 'k');
                assert("join"@ != "leave"@ && "join"@ != "invite"@ && "join"@ != "ban"@ && "join"@ != "knock"@);
                assert("leave"@ != "invite"@ && "leave"@ != "ban"@ && "leave"@ != "knock"@);
                assert("invite"@ != "ban"@ && "invite"@ != "knock"@ && "ban"@ != "knock"@);
                lemma_state_seen(q, "leave"@);
                lemma_state_seen(q, "invite"@);
                lemma_state_seen(q, "ban"@);
                lemma_state_seen(q, "knock"@);
            }
            if str_eq(state, "join") {
                put_member(&mut joined, user, info);
            } else if str_eq(state, "leave") {
                put_bucket(&mut left, user, info);
            } else if str_eq(state, "invite") {
                put_bucket(&mut invited, user, info);
            } else if str_eq(state, "ban") {
                put_bucket(&mut banned, user, info);
            } else if str_eq(state, "knock") {
                put_bucket(&mut knocked, user, info);
            }
            i = i + 1;
        }
        assert(rows@.subrange(0, rows@.len() as int) =~= rows@);
        MembersResponse { joined, left, invited, banned, knocked }
    }

    /// The query for a room's members, narrowed to a state, away from a
    /// state, and to memberships made by a time, when given.
    pub fn room_members_query(
        &self,
        membership: Option<MembershipState>,
        not_membership: Option<MembershipState>,
        has_at: bool,
    ) -> (r: String)
        ensures
            r@ == "SELECT user_id, membership, avatar_url, display_name FROM membership WHERE room_id = $room_id"@
                + (if membership.is_some() { " AND membership = $membership"@ } else { Seq::empty() })
                + (if not_membership.is_some() { " AND membership != $not_membership"@ } else { Seq::empty() })
                + (if has_at { " AND created_at <= $at"@ } else { Seq::empty() }),
    {
        let mut q = owned("SELECT user_id, membership, avatar_url, display_name FROM membership WHERE room_id = $room_id");
        let ghost q0 = q@;
        if membership.is_some() {
            q.append(" AND membership = $membership");
        }
        let ghost q1 = q@;
        assert(q1 =~= q0 + (if membership.is_some() { " AND membership = $membership"@ } else { Seq::empty() }));
        if not_membership.is_some() {
            q.append(" AND membership != $not_membership");
        }
        let ghost q2 = q@;
        assert(q2 =~= q1 + (if not_membership.is_some() { " AND membership != $not_membership"@ } else { Seq::empty() }));
        if has_at {
            q.append(" AND created_at <= $at");
        }
        assert(q@ =~= q2 + (if has_at { " AND created_at <= $at"@ } else { Seq::empty() }));
        q
    }
}

/// The `*.domain` ACL pattern rule: `server_name` matches `pattern` when the
/// pattern is `*`, when it is `*.d` and the server is `d` or ends with `.d`,
/// or when it equals the server name.
pub open spec fn acl_pattern_matches(server_name: Seq<char>, pattern: Seq<char>) -> bool {
    if pattern == "*"@ {
        true
    } else if is_prefix_of("*."@, pattern) {
        let d = pattern.subrange(2, pattern.len() as int);
        server_name == d || is_suffix_of("."@ + d, server_name)
    } else {
        server_name == pattern
    }
}

impl<D> RoomRepository<D> {
    /// Whether `server_name` matches the server ACL pattern `pattern`.
    pub fn server_matches_pattern(server_name: &str, pattern: &str) -> (r: bool)
        ensures
            r == acl_pattern_matches(server_name@, pattern@),
    {
        if str_eq(pattern, "*") {
            return true;
        }
        if starts_with(pattern, "*.") {
            proof { reveal_strlit("*."); }
            let n = pattern.unicode_len();
            let d = pattern.substring_char(2, n);
            if str_eq(server_name, d) {
                return true;
            }
            let dotted = concat3(".", d, "");
            proof { reveal_strlit(""); assert(dotted@ =~= "."@ + d@); }
            return ends_with(server_name, dotted.as_str());
        }
        str_eq(server_name, pattern)
    }
}

/// The federation-check pattern rule: `*` matches everything; `*.d` matches
/// servers ending with `d`, and the server named `d` without its first
/// character; anything else matches only itself.
pub open spec fn federation_pattern_matches(server_name: Seq<char>, pattern: Seq<char>) -> bool {
    if pattern == "*"@ {
        true
    } else if is_prefix_of("*."@, pattern) {
        let d = pattern.subrange(2, pattern.len() as int);
        is_suffix_of(d, server_name) || server_name == d.drop_first()
    } else {
        server_name == pattern
    }
}

/// The federation-check rule is defined on `(server_name, pattern)`: the
/// second alternative cuts the first byte off the domain, which must then be
/// a whole character.
pub open spec fn federation_pattern_defined(server_name: Seq<char>, pattern: Seq<char>) -> bool {
    pattern == "*"@ || !is_prefix_of("*."@, pattern) || ({
        let d = pattern.subrange(2, pattern.len() as int);
        is_suffix_of(d, server_name) || (d.len() > 0 && (d[0] as u32) < 128)
    })
}

impl<D> RoomRepository<D> {
    /// Whether `server_name` matches `pattern` under the federation-check rule.
    pub fn matches_server_pattern(&self, server_name: &str, pattern: &str) -> (r: bool)
        requires
            federation_pattern_defined(server_name@, pattern@),
        ensures
            r == federation_pattern_matches(server_name@, pattern@),
    {
        if str_eq(pattern, "*") {
            return true;
        }
        if starts_with(pattern, "*.") {
            proof { reveal_strlit("*."); }
            let n = pattern.unicode_len();
            let d = pattern.substring_char(2, n);
            if ends_with(server_name, d) {
                return true;
            }
            let m = d.unicode_len();
            let rest = d.substring_char(1, m);
            assert(rest@ =~= d@.drop_first());
            return str_eq(server_name, rest);
        }
        str_eq(server_name, pattern)
    }
}


/// The server ACL of a room: its `allow` and `deny` pattern lists, each
/// absent when the ACL event has none.
#[derive(Debug)]
pub struct ServerAcl {
    pub allow: Option<Vec<String>>,
    pub deny: Option<Vec<String>>,
}

/// Some pattern of `patterns` matches `server` under the ACL rule.
pub open spec fn any_acl_match(patterns: Seq<String>, server: Seq<char>) -> bool {
    exists|i: int| 0 <= i < patterns.len() && acl_pattern_matches(server, #[trigger] patterns[i]@)
}

/// Whether `server` may take part in a room with the ACL `acl`: a matching
/// deny pattern refuses it; an allow list, when there is one, must match it.
pub open spec fn acl_allows(acl: Option<ServerAcl>, server: Seq<char>) -> bool {
    match acl {
        None => true,
        Some(a) => {
            let denied = match a.deny {
                Some(d) => any_acl_match(d@, server),
                None => false,
            };
            !denied && match a.allow {
                Some(l) => any_acl_match(l@, server),
                None => true,
            }
        },
    }
}

impl<D> RoomRepository<D> {
    fn any_server_matches(&self, patterns: &Vec<String>, server: &str) -> (r: bool)
        ensures
            r == any_acl_match(patterns@, server@),
    {
        let mut i: usize = 0;
        while i < patterns.len()
            invariant
                i <= patterns@.len(),
                forall|j: int| 0 <= j < i ==> !acl_pattern_matches(server@, #[trigger] patterns@[j]@),
            decreases patterns@.len() - i,
        {
            if Self::server_matches_pattern(server, patterns[i].as_str()) {
                return true;
            }
            i = i + 1;
        }
        false
    }
}

impl<D> RoomRepository<D> {
    /// Whether `server_name` is allowed by the room's server ACL (none allows all).
    pub fn check_server_acls(&self, acl: Option<&ServerAcl>, server_name: &str) -> (r: bool)
        ensures
            r == acl_allows(
                match acl {
                    Some(a) => Some(*a),
                    None => None,
                },
                server_name@,
            ),
    {
        match acl {
            None => true,
            Some(a) => {
                if let Some(deny) = &a.deny {
                    if self.any_server_matches(deny, server_name) {
                        return false;
                    }
                }
                match &a.allow {
                    Some(allow) => self.any_server_matches(allow, server_name),
                    None => true,
                }
            },
        }
    }
}

/// A server that a deny pattern matches is never allowed, whatever the
/// allow list holds.
pub proof fn law_denied_server_is_refused(acl: ServerAcl, server: Seq<char>, i: int)
    requires
        acl.deny.is_some(),
        0 <= i < acl.deny.unwrap()@.len(),
        acl_pattern_matches(server, acl.deny.unwrap()@[i]@),
    ensures
        !acl_allows(Some(acl), server),
{
}

/// `*` in the allow list lets in every server that no deny pattern matches.
pub proof fn law_wildcard_allows_undenied(acl: ServerAcl, server: Seq<char>, i: int)
    requires
        acl.allow.is_some(),
        0 <= i < acl.allow.unwrap()@.len(),
        acl.allow.unwrap()@[i]@ == "*"@,
        acl.deny.is_none() || !any_acl_match(acl.deny.unwrap()@, server),
    ensures
        acl_allows(Some(acl), server),
{
    assert(acl_pattern_matches(server, acl.allow.unwrap()@[i]@));
}

/// A server matches every `*.d` pattern of its own domain `d`.
pub proof fn law_domain_pattern_matches_domain(d: Seq<char>)
    ensures
        acl_pattern_matches(d, "*."@ + d),
{
    reveal_strlit("*");
    reveal_strlit("*.");
    let p = "*."@ + d;
    assert(p.subrange(0, 2) =~= "*."@);
    assert(p.subrange(2, p.len() as int) =~= d);
    assert(p.len() != 1);
}

/// Some pattern of `patterns` matches `server` under the federation rule.
pub open spec fn any_federation_match(patterns: Seq<String>, server: Seq<char>) -> bool {
    exists|i: int|
        0 <= i < patterns.len() && federation_pattern_matches(server, #[trigger] patterns[i]@)
}

/// The federation rule is defined for `server` on every pattern of `acl`.
pub open spec fn federation_acl_defined(acl: Option<ServerAcl>, server: Seq<char>) -> bool {
    match acl {
        None => true,
        Some(a) => (match a.deny {
            Some(d) => forall|i: int|
                0 <= i < d@.len() ==> federation_pattern_defined(server, #[trigger] d@[i]@),
            None => true,
        }) && (match a.allow {
            Some(l) => forall|i: int|
                0 <= i < l@.len() ==> federation_pattern_defined(server, #[trigger] l@[i]@),
            None => true,
        }),
    }
}

impl<D> RoomRepository<D> {
    fn any_federation_pattern(&self, patterns: &Vec<String>, server: &str) -> (r: bool)
        requires
            forall|i: int|
                0 <= i < patterns@.len() ==> federation_pattern_defined(server@, #[trigger] patterns@[i]@),
        ensures
            r == any_federation_match(patterns@, server@),
    {
        let mut i: usize = 0;
        while i < patterns.len()
            invariant
                i <= patterns@.len(),
                forall|k: int|
                    0 <= k < patterns@.len() ==> federation_pattern_defined(server@, #[trigger] patterns@[k]@),
                forall|j: int| 0 <= j < i ==> !federation_pattern_matches(server@, #[trigger] patterns@[j]@),
            decreases patterns@.len() - i,
        {
            if self.matches_server_pattern(server, patterns[i].as_str()) {
                return true;
            }
            i = i + 1;
        }
        false
    }
}

impl<D> RoomRepository<D> {
    /// Whether `server_name` may take part in a room over federation: the room
    /// must exist and federate, no deny pattern may match, and an allow list,
    /// when present, must match.
    pub fn validate_room_for_federation(
        &self,
        room_exists: bool,
        federate: bool,
        acl: Option<&ServerAcl>,
        server_name: &str,
    ) -> (r: bool)
        requires
            federation_acl_defined(
                match acl {
                    Some(a) => Some(*a),
                    None => None,
                },
                server_name@,
            ),
        ensures
            r == (room_exists && federate && match acl {
                None => true,
                Some(a) => !(a.deny.is_some() && any_federation_match(a.deny.unwrap()@, server_name@))
                    && (a.allow.is_none() || any_federation_match(a.allow.unwrap()@, server_name@)),
            }),
    {
        if !room_exists || !federate {
            return false;
        }
        match acl {
            None => true,
            Some(a) => {
                if let Some(deny) = &a.deny {
                    if self.any_federation_pattern(deny, server_name) {
                        return false;
                    }
                }
                match &a.allow {
                    Some(allow) => self.any_federation_pattern(allow, server_name),
                    None => true,
                }
            },
        }
    }
}

/// The level a room operation checked against an explicit or default
/// requirement needs: `required` if given, else the level of the named action.
pub open spec fn action_level(pl: RoomPowerLevels, action: Seq<char>, required: Option<i64>) -> i64 {
    match required {
        Some(l) => l,
        None => if action == "ban"@ {
            pl.ban
        } else if action == "kick"@ {
            pl.kick
        } else if action == "invite"@ {
            pl.invite
        } else if action == "redact"@ {
            pl.redact
        } else {
            pl.events_default
        },
    }
}

impl<D> RoomRepository<D> {
    /// Whether `user_id` may perform `action`, needing `required_level` when
    /// given, else the level of the action.
    pub fn can_user_perform_action(
        &self,
        power_levels: &RoomPowerLevels,
        user_id: &str,
        action: &str,
        required_level: Option<i64>,
    ) -> (r: bool)
        ensures
            r == (power_levels.level_of(user_id@) >= action_level(*power_levels, action@, required_level)),
    {
        let user_level = power_levels.user_level(user_id);
        let required = match required_level {
            Some(l) => l,
            None => if str_eq(action, "ban") {
                power_levels.ban
            } else if str_eq(action, "kick") {
                power_levels.kick
            } else if str_eq(action, "invite") {
                power_levels.invite
            } else if str_eq(action, "redact") {
                power_levels.redact
            } else {
                power_levels.events_default
            },
        };
        user_level >= required
    }
}

impl<D> RoomRepository<D> {
    /// Whether `changer` may set `target`'s level to `new_level`: it must hold
    /// the level for sending power-levels events (100 unless listed), outrank
    /// the target's current level, and not set a level above its own.
    pub fn validate_power_level_change(
        &self,
        power_levels: &RoomPowerLevels,
        changer: &str,
        target: &str,
        new_level: i64,
    ) -> (r: bool)
        ensures
            r == ({
                let c = power_levels.level_of(changer@);
                &&& c >= power_levels.event_level_or("m.room.power_levels"@, 100)
                &&& c > power_levels.level_of(target@)
                &&& new_level <= c
            }),
    {
        let changer_level = power_levels.user_level(changer);
        let target_level = power_levels.user_level(target);
        let required = power_levels.event_level("m.room.power_levels", 100);
        if changer_level < required {
            return false;
        }
        if changer_level <= target_level {
            return false;
        }
        if new_level > changer_level {
            return false;
        }
        true
    }
}

/// The level a room operation needs.
pub open spec fn operation_level(pl: RoomPowerLevels, op: RoomOperation) -> i64 {
    match op {
        RoomOperation::SendMessage => pl.event_level_or("m.room.message"@, pl.events_default),
        RoomOperation::SendState(t) => pl.event_level_or(t@, pl.state_default),
        RoomOperation::InviteUser => pl.invite,
        RoomOperation::KickUser => pl.kick,
        RoomOperation::BanUser => pl.ban,
        RoomOperation::ChangeSettings => pl.state_default,
        RoomOperation::ChangePowerLevels => pl.event_level_or("m.room.power_levels"@, 100),
    }
}

impl<D> RoomRepository<D> {
    /// Whether a member may perform `operation`: it must be a member (joined or
    /// invited) and reach the operation's level.
    pub fn validate_room_operation_enhanced(
        &self,
        is_member: bool,
        power_levels: &RoomPowerLevels,
        user_id: &str,
        operation: &RoomOperation,
    ) -> (r: bool)
        ensures
            r == (is_member && power_levels.level_of(user_id@) >= operation_level(*power_levels, *operation)),
    {
        if !is_member {
            return false;
        }
        let user_level = power_levels.user_level(user_id);
        let required = match operation {
            RoomOperation::SendMessage => power_levels.event_level("m.room.message", power_levels.events_default),
            RoomOperation::SendState(t) => power_levels.event_level(t.as_str(), power_levels.state_default),
            RoomOperation::InviteUser => power_levels.invite,
            RoomOperation::KickUser => power_levels.kick,
            RoomOperation::BanUser => power_levels.ban,
            RoomOperation::ChangeSettings => power_levels.state_default,
            RoomOperation::ChangePowerLevels => power_levels.event_level("m.room.power_levels", 100),
        };
        user_level >= required
    }
}

/// The users of `entries` whose level is at least `min`, in order.
pub open spec fn users_at_or_above(entries: Seq<(String, i64)>, min: i64) -> Seq<String>
    decreases entries.len(),
{
    if entries.len() == 0 {
        Seq::empty()
    } else {
        let rest = users_at_or_above(entries.drop_last(), min);
        if entries.last().1 >= min {
            rest.push(entries.last().0)
        } else {
            rest
        }
    }
}

impl<D> RoomRepository<D> {
    /// The users listed with a level of at least `min_level`, in list order.
    pub fn get_users_with_power_level(&self, power_levels: &RoomPowerLevels, min_level: i64) -> (r: Vec<String>)
        ensures
            r@ == users_at_or_above(power_levels.users@, min_level),
    {
        let users = &power_levels.users;
        let mut r: Vec<String> = Vec::new();
        let mut i: usize = 0;
        while i < users.len()
            invariant
                i <= users@.len(),
                users@ == power_levels.users@,
                r@ == users_at_or_above(users@.subrange(0, i as int), min_level),
            decreases users@.len() - i,
        {
            proof {
                assert(users@.subrange(0, i + 1).drop_last() =~= users@.subrange(0, i as int));
            }
            if users[i].1 >= min_level {
                r.push(users[i].0.clone());
            }
            i = i + 1;
        }
        assert(users@.subrange(0, users@.len() as int) =~= users@);
        r
    }
}

/// Whether the users' default level reaches `min_level` (then every joined
/// member not listed qualifies too).
pub fn default_level_reaches(power_levels: &RoomPowerLevels, min_level: i64) -> (r: bool)
    ensures
        r == (power_levels.users_default >= min_level),
{
    power_levels.users_default >= min_level
}

impl<D> RoomRepository<D> {
    /// Whether a room is joinable by a user under its join rule: public rooms
    /// always; invite-only and private rooms with a membership (joined or
    /// invited); knock rooms with a pending knock; restricted rooms with a
    /// membership (the allow conditions are not consulted here).
    pub fn is_room_joinable(&self, join_rules: JoinRules, has_membership: bool, has_knocked: bool) -> (r: bool)
        ensures
            r == match join_rules {
                JoinRules::Public => true,
                JoinRules::Invite | JoinRules::Private | JoinRules::Restricted => has_membership,
                JoinRules::Knock => has_knocked,
            },
    {
        match join_rules {
            JoinRules::Public => true,
            JoinRules::Invite => has_membership,
            JoinRules::Private => has_membership,
            JoinRules::Knock => has_knocked,
            JoinRules::Restricted => has_membership,
        }
    }
}

impl<D> RoomRepository<D> {
    /// Whether a join rule only admits invited users.
    pub fn is_room_invite_only(&self, join_rules: JoinRules) -> (r: bool)
        ensures
            r == (join_rules == JoinRules::Invite || join_rules == JoinRules::Private),
    {
        matches!(join_rules, JoinRules::Invite | JoinRules::Private)
    }
}

impl<D> RoomRepository<D> {
    /// A room can be forgotten only by a user whose latest membership is
    /// `leave` or `ban`.
    pub fn forget_room(&self, latest_membership: Option<&str>, room_id: &str, user_id: &str) -> (r: Result<(), RepositoryError>)
        ensures
            latest_membership.is_none() ==> r.is_err() && is_not_found(
                r->Err_0,
                "Membership"@,
                room_id@ + ":"@ + user_id@,
            ),
            latest_membership.is_some() ==> (r.is_ok() <==> (latest_membership.unwrap()@ == "leave"@
                || latest_membership.unwrap()@ == "ban"@)),
            latest_membership.is_some() && r.is_err() ==> is_validation(
                r->Err_0,
                "membership"@,
                "Can only forget rooms that have been left or user was banned from"@,
            ),
    {
        match latest_membership {
            None => Err(RepositoryError::NotFound { entity_type: owned("Membership"), id: concat3(room_id, ":", user_id) }),
            Some(m) => if !str_eq(m, "leave") && !str_eq(m, "ban") {
                Err(validation("membership", "Can only forget rooms that have been left or user was banned from"))
            } else {
                Ok(())
            },
        }
    }
}

impl<D> RoomRepository<D> {
    /// A direct-message room has exactly two joined members and no name or topic.
    pub fn is_direct_message_room(&self, joined_member_count: i64, has_name_or_topic: bool) -> (r: bool)
        ensures
            r == (joined_member_count == 2 && !has_name_or_topic),
    {
        joined_member_count == 2 && !has_name_or_topic
    }
}

impl<D> RoomRepository<D> {
    /// Whether a user may invite under the room's power-levels event, given the
    /// invite level and the user's listed level there: both default to 0, and a
    /// room without the event lets everyone invite.
    pub fn check_invite_power_level(&self, power_levels: Option<(Option<i64>, Option<i64>)>) -> (r: bool)
        ensures
            r == match power_levels {
                None => true,
                Some((invite, user)) => user.unwrap_or(0) >= invite.unwrap_or(0),
            },
    {
        match power_levels {
            None => true,
            Some((invite, user)) => user.unwrap_or(0) >= invite.unwrap_or(0),
        }
    }
}

/// A state event read for a room's visibility settings: its type and the
/// value of the relevant content field, if present.
#[derive(Debug)]
pub struct VisibilityStateEvent {
    pub event_type: String,
    pub value: Option<String>,
}

/// The settings after applying `events` in order: each join-rules,
/// guest-access or history-visibility event with a value overrides the
/// setting so far (defaults: `invite`, no guests, not world readable).
pub open spec fn visibility_settings(events: Seq<VisibilityStateEvent>) -> (Seq<char>, bool, bool)
    decreases events.len(),
{
    if events.len() == 0 {
        ("invite"@, false, false)
    } else {
        let (j, g, w) = visibility_settings(events.drop_last());
        let e = events.last();
        if e.event_type@ == "m.room.join_rules"@ && e.value.is_some() {
            (e.value.unwrap()@, g, w)
        } else if e.event_type@ == "m.room.guest_access"@ && e.value.is_some() {
            (j, e.value.unwrap()@ == "can_join"@, w)
        } else if e.event_type@ == "m.room.history_visibility"@ && e.value.is_some() {
            (j, g, e.value.unwrap()@ == "world_readable"@)
        } else {
            (j, g, w)
        }
    }
}

impl<D> RoomRepository<D> {
    /// The join rule, whether guests can join, and whether the room is world
    /// readable, from its state events in the order given.
    pub fn get_room_visibility_settings(&self, events: &Vec<VisibilityStateEvent>) -> (r: (String, bool, bool))
        ensures
            (r.0@, r.1, r.2) == visibility_settings(events@),
    {
        let mut join_rule = owned("invite");
        let mut guest_can_join = false;
        let mut world_readable = false;
        let mut i: usize = 0;
        while i < events.len()
            invariant
                i <= events@.len(),
                (join_rule@, guest_can_join, world_readable) == visibility_settings(events@.subrange(0, i as int)),
            decreases events@.len() - i,
        {
            proof {
                assert(events@.subrange(0, i + 1).drop_last() =~= events@.subrange(0, i as int));
            }
            let e = &events[i];
            if let Some(v) = &e.value {
                if str_eq(e.event_type.as_str(), "m.room.join_rules") {
                    join_rule = v.clone();
                } else if str_eq(e.event_type.as_str(), "m.room.guest_access") {
                    guest_can_join = str_eq(v.as_str(), "can_join");
                } else if str_eq(e.event_type.as_str(), "m.room.history_visibility") {
                    world_readable = str_eq(v.as_str(), "world_readable");
                }
            }
            i = i + 1;
        }
        assert(events@.subrange(0, events@.len() as int) =~= events@);
        (join_rule, guest_can_join, world_readable)
    }
}


/// An action on a room whose access is checked.
#[derive(PartialEq, Eq, Structural, Clone, Copy, Debug)]
pub enum RoomAction {
    Read,
    Write,
    SendEvents,
    Invite,
    Kick,
    Ban,
    RedactEvents,
    StateEvents,
}

/// What deciding a room access needs next, or the decision.
#[derive(PartialEq, Eq, Structural, Clone, Copy, Debug)]
pub enum RoomAccessStep {
    Decided(bool),
    /// Access follows whether the room is world readable.
    AskWorldReadable,
    /// Access follows whether the user may invite.
    AskCanInvite,
    /// Access follows whether the user may kick (`true`) or ban (`false`).
    AskCanModerate(bool),
    /// Access follows whether the user's level (0 when it cannot be read)
    /// reaches the given level.
    AskPowerLevel(i64),
}

/// The first step of checking an action on a room.
pub open spec fn room_access_step(room_exists: bool, membership: Option<MembershipState>, action: RoomAction) -> RoomAccessStep {
    let joined = membership == Some(MembershipState::Join);
    if !room_exists {
        RoomAccessStep::Decided(false)
    } else {
        match action {
            RoomAction::Read => if joined { RoomAccessStep::Decided(true) } else { RoomAccessStep::AskWorldReadable },
            RoomAction::Write | RoomAction::SendEvents => RoomAccessStep::Decided(joined),
            RoomAction::Invite => RoomAccessStep::AskCanInvite,
            RoomAction::Kick => RoomAccessStep::AskCanModerate(true),
            RoomAction::Ban => RoomAccessStep::AskCanModerate(false),
            RoomAction::RedactEvents | RoomAction::StateEvents => if joined {
                RoomAccessStep::AskPowerLevel(50)
            } else {
                RoomAccessStep::Decided(false)
            },
        }
    }
}

impl<D> RoomRepository<D> {
    /// Whether a user may take `action` in a room, as far as the room's
    /// existence and the user's membership decide it (see `room_access_step`):
    /// the room must exist; reading needs membership or a world-readable
    /// room; writing and sending need membership; inviting, kicking and
    /// banning follow the user's permissions; redacting and sending state
    /// need membership and level 50.
    pub fn validate_room_access(
        &self,
        room_exists: bool,
        membership: Option<MembershipState>,
        action: RoomAction,
    ) -> (r: RoomAccessStep)
        ensures
            r == room_access_step(room_exists, membership, action),
    {
        if !room_exists {
            return RoomAccessStep::Decided(false);
        }
        let joined = match membership {
            Some(MembershipState::Join) => true,
            _ => false,
        };
        match action {
            RoomAction::Read => if joined { RoomAccessStep::Decided(true) } else { RoomAccessStep::AskWorldReadable },
            RoomAction::Write | RoomAction::SendEvents => RoomAccessStep::Decided(joined),
            RoomAction::Invite => RoomAccessStep::AskCanInvite,
            RoomAction::Kick => RoomAccessStep::AskCanModerate(true),
            RoomAction::Ban => RoomAccessStep::AskCanModerate(false),
            RoomAction::RedactEvents | RoomAction::StateEvents => if joined {
                RoomAccessStep::AskPowerLevel(50)
            } else {
                RoomAccessStep::Decided(false)
            },
        }
    }

    /// The decision of an access step given the answer it asked for: the
    /// answer itself, or for a level, whether the user's level (`None` when it
    /// cannot be read, counted as 0) reaches the level asked.
    pub fn room_access_answer(&self, step: RoomAccessStep, answer: bool, user_level: Option<i64>) -> (r: bool)
        ensures
            r == match step {
                RoomAccessStep::Decided(b) => b,
                RoomAccessStep::AskPowerLevel(required) => match user_level {
                    Some(l) => l >= required,
                    None => 0 >= required,
                },
                _ => answer,
            },
    {
        match step {
            RoomAccessStep::Decided(b) => b,
            RoomAccessStep::AskPowerLevel(required) => match user_level {
                Some(l) => l >= required,
                None => 0 >= required,
            },
            _ => answer,
        }
    }
}

/// No action is allowed in a room that does not exist, and a user who is not
/// joined may never write or send.
pub proof fn law_room_access_needs_room_and_membership(membership: Option<MembershipState>, action: RoomAction)
    ensures
        room_access_step(false, membership, action) == RoomAccessStep::Decided(false),
        (action == RoomAction::Write || action == RoomAction::SendEvents) && membership != Some(MembershipState::Join)
            ==> room_access_step(true, membership, action) == RoomAccessStep::Decided(false),
{
}


/// A state event as the state-ids query reads it back.
#[derive(Debug)]
pub struct StateIdRow {
    pub event_id: Option<String>,
    pub event_type: Option<String>,
    pub state_key: Option<String>,
}

/// The key a state event is told apart by: its type and state key (each the
/// empty text when missing), joined by a colon.
pub open spec fn state_row_key(row: StateIdRow) -> Seq<char> {
    (match row.event_type { Some(t) => t@, None => Seq::empty() }) + ":"@ + (match row.state_key {
        Some(k) => k@,
        None => Seq::empty(),
    })
}

/// The keys of the rows that have an id, in order.
pub open spec fn id_row_keys(rows: Seq<StateIdRow>) -> Seq<Seq<char>>
    decreases rows.len(),
{
    if rows.len() == 0 {
        Seq::empty()
    } else {
        let rest = id_row_keys(rows.drop_last());
        if rows.last().event_id is Some { rest.push(state_row_key(rows.last())) } else { rest }
    }
}

/// The ids of the rows whose key no earlier row with an id has, in order.
pub open spec fn state_ids(rows: Seq<StateIdRow>) -> Seq<String>
    decreases rows.len(),
{
    if rows.len() == 0 {
        Seq::empty()
    } else {
        let rest = state_ids(rows.drop_last());
        let l = rows.last();
        if l.event_id is Some && !id_row_keys(rows.drop_last()).contains(state_row_key(l)) {
            rest.push(l.event_id.unwrap())
        } else {
            rest
        }
    }
}

fn text_or_empty(o: &Option<String>) -> (r: &str)
    ensures
        r@ == match *o { Some(t) => t@, None => Seq::<char>::empty() },
{
    match o {
        Some(t) => t.as_str(),
        None => {
            proof { reveal_strlit(""); }
            ""
        },
    }
}

impl<D> RoomRepository<D> {
    /// The query for a room's state event ids, up to the time of `event_id`
    /// when one is given.
    pub fn room_state_ids_query(&self, at_event: bool) -> (r: &'static str)
        ensures
            r@ == if at_event {
                "SELECT event_id FROM event WHERE room_id = $room_id AND state_key IS NOT NULL AND origin_server_ts <= (SELECT origin_server_ts FROM event WHERE event_id = $event_id) ORDER BY event_type, state_key, origin_server_ts DESC"@
            } else {
                "SELECT event_id FROM event WHERE room_id = $room_id AND state_key IS NOT NULL ORDER BY event_type, state_key, origin_server_ts DESC"@
            },
    {
        if at_event {
            "SELECT event_id FROM event WHERE room_id = $room_id AND state_key IS NOT NULL AND origin_server_ts <= (SELECT origin_server_ts FROM event WHERE event_id = $event_id) ORDER BY event_type, state_key, origin_server_ts DESC"
        } else {
            "SELECT event_id FROM event WHERE room_id = $room_id AND state_key IS NOT NULL ORDER BY event_type, state_key, origin_server_ts DESC"
        }
    }

    /// A room's state event ids from the rows read, newest first per key: the
    /// first row with an id for each key (see `state_row_key`).
    pub fn get_room_state_ids(&self, rows: &Vec<StateIdRow>) -> (r: Vec<String>)
        ensures
            r@ == state_ids(rows@),
    {
        let mut ids: Vec<String> = Vec::new();
        let mut seen: Vec<String> = Vec::new();
        let mut i: usize = 0;
        while i < rows.len()
            invariant
                i <= rows@.len(),
                ids@ == state_ids(rows@.subrange(0, i as int)),
                seen@.map_values(|s: String| s@) == id_row_keys(rows@.subrange(0, i as int)),
            decreases rows@.len() - i,
        {
            let ghost p = rows@.subrange(0, i as int);
            let ghost q = rows@.subrange(0, i + 1);
            assert(q.drop_last() =~= p);
            assert(q.last() == rows@[i as int]);
            let row = &rows[i];
            match &row.event_id {
                Some(id) => {
                    proof { reveal_strlit(":"); }
                    let key = concat3(text_or_empty(&row.event_type), ":", text_or_empty(&row.state_key));
                    let mut found = false;
                    let mut j: usize = 0;
                    while j < seen.len()
                        invariant
                            j <= seen@.len(),
                            found == exists|k: int| 0 <= k < j && (#[trigger] seen@[k])@ == key@,
                        decreases seen@.len() - j,
                    {
                        if str_eq(seen[j].as_str(), key.as_str()) {
                            found = true;
                        }
                        j = j + 1;
                    }
                    proof {
                        let keys = seen@.map_values(|s: String| s@);
                        if found {
                            let k = choose|k: int| 0 <= k < seen@.len() && (#[trigger] seen@[k])@ == key@;
                            assert(keys[k] == key@);
                        }
                        if keys.contains(key@) {
                            let k = choose|k: int| 0 <= k < keys.len() && keys[k] == key@;
                            assert(seen@[k]@ == key@);
                        }
                        assert(found == id_row_keys(p).contains(state_row_key(rows@[i as int])));
                    }
                    if !found {
                        ids.push(id.clone());
                    }
                    seen.push(key);
                    assert(seen@.map_values(|s: String| s@) =~= id_row_keys(p).push(state_row_key(rows@[i as int])));
                },
                None => {},
            }
            i = i + 1;
        }
        assert(rows@.subrange(0, rows@.len() as int) =~= rows@);
        ids
    }
}


/// The texts among the values of an ACL list, in order.
pub open spec fn text_patterns(list: Option<Vec<Option<String>>>) -> Seq<String> {
    match list {
        Some(v) => crate::membership_ops::present_texts(v@),
        None => Seq::empty(),
    }
}

fn collect_texts(list: &Option<Vec<Option<String>>>) -> (r: Vec<String>)
    ensures
        r@ == text_patterns(*list),
{
    let mut out: Vec<String> = Vec::new();
    match list {
        Some(v) => {
            let mut i: usize = 0;
            while i < v.len()
                invariant
                    i <= v@.len(),
                    out@ == crate::membership_ops::present_texts(v@.subrange(0, i as int)),
                decreases v@.len() - i,
            {
                assert(v@.subrange(0, i + 1).drop_last() =~= v@.subrange(0, i as int));
                match &v[i] {
                    Some(t) => out.push(t.clone()),
                    None => {},
                }
                i = i + 1;
            }
            assert(v@.subrange(0, v@.len() as int) =~= v@);
        },
        None => {},
    }
    out
}

/// The settings of a room created with `is_public` and `is_direct`.
#[derive(Debug)]
pub struct NewRoomSettings {
    pub is_public: bool,
    pub is_direct: bool,
    pub join_rule: String,
    pub guest_access: String,
    pub history_visibility: String,
    pub room_version: String,
    pub federate: bool,
    pub state_events_count: i64,
}

impl<D> RoomRepository<D> {
    /// The federation settings of a room: whether it federates (its creation
    /// content's `m.federate`, true when absent) and the text patterns of its
    /// server ACL's deny and allow lists.
    pub fn check_room_federation_settings(
        &self,
        federate: Option<bool>,
        deny: &Option<Vec<Option<String>>>,
        allow: &Option<Vec<Option<String>>>,
    ) -> (r: FederationSettings)
        ensures
            r.federate == match federate { Some(f) => f, None => true },
            r.restricted_servers@ == text_patterns(*deny),
            r.allowed_servers@ == text_patterns(*allow),
    {
        FederationSettings {
            federate: match federate {
                Some(f) => f,
                None => true,
            },
            restricted_servers: collect_texts(deny),
            allowed_servers: collect_texts(allow),
        }
    }

    /// Whether a room's join rule allows knocking: the latest join-rules
    /// event's rule (`invite` when the event names none) must be `knock`;
    /// without an event it does not.
    pub fn check_room_allows_knocking(&self, join_rules_event: Option<Option<&str>>) -> (r: bool)
        ensures
            r == match join_rules_event {
                Some(Some(j)) => j@ == "knock"@,
                _ => false,
            },
    {
        match join_rules_event {
            Some(Some(j)) => str_eq(j, "knock"),
            _ => false,
        }
    }

    /// A room's join rule as text: `invite` when it has none.
    pub fn get_room_join_rules_string(&self, join_rule: Option<String>) -> (r: String)
        ensures
            r@ == match join_rule { Some(j) => j@, None => "invite"@ },
    {
        match join_rule {
            Some(j) => j,
            None => owned("invite"),
        }
    }

    /// Whether a room with the history visibility `visibility` is world readable.
    pub fn is_room_world_readable(&self, visibility: &str) -> (r: bool)
        ensures
            r == (visibility@ == "world_readable"@),
    {
        str_eq(visibility, "world_readable")
    }

    /// Whether a user's latest membership event says they are joined.
    pub fn check_room_membership(&self, latest: Option<Option<&str>>) -> (r: bool)
        ensures
            r == match latest {
                Some(Some(m)) => m@ == "join"@,
                _ => false,
            },
    {
        match latest {
            Some(Some(m)) => str_eq(m, "join"),
            _ => false,
        }
    }

    /// Whether a user may invite: they must be joined and their level must
    /// allow inviting (`level_allows`).
    pub fn can_user_invite(&self, membership: Option<MembershipState>, level_allows: bool) -> (r: bool)
        ensures
            r == (membership == Some(MembershipState::Join) && level_allows),
    {
        match membership {
            Some(MembershipState::Join) => level_allows,
            _ => false,
        }
    }

    /// Whether a server may read a room's state, as far as its users there
    /// decide: `Some(true)` when it has users who joined, were invited or
    /// left; otherwise `None`, and the room's world readability decides.
    pub fn check_server_state_permission(&self, user_count: Option<i64>) -> (r: Option<bool>)
        ensures
            r == if user_count.is_some() && user_count.unwrap() > 0 { Some(true) } else { None::<bool> },
    {
        match user_count {
            Some(c) => if c > 0 { Some(true) } else { None },
            None => None,
        }
    }

    /// The settings of a new room: public rooms are joined freely, others by
    /// invitation; guests may join; history is shared; version 9; the room
    /// federates.
    pub fn create_room_settings(&self, is_public: bool, is_direct: bool) -> (r: NewRoomSettings)
        ensures
            r.is_public == is_public,
            r.is_direct == is_direct,
            r.join_rule@ == if is_public { "public"@ } else { "invite"@ },
            r.guest_access@ == "can_join"@,
            r.history_visibility@ == "shared"@,
            r.room_version@ == "9"@,
            r.federate,
            r.state_events_count == 0,
    {
        NewRoomSettings {
            is_public,
            is_direct,
            join_rule: if is_public { owned("public") } else { owned("invite") },
            guest_access: owned("can_join"),
            history_visibility: owned("shared"),
            room_version: owned("9"),
            federate: true,
            state_events_count: 0,
        }
    }
}


/// Every server name matches itself as a pattern, and a pattern that is
/// neither `*` nor `*.`-prefixed matches exactly the server of that name.
pub proof fn law_pattern_matches_itself(server: Seq<char>, pattern: Seq<char>)
    ensures
        acl_pattern_matches(server, server),
        pattern != "*"@ && !is_prefix_of("*."@, pattern) ==> (acl_pattern_matches(server, pattern) <==> server
            == pattern),
{
    if server != "*"@ && is_prefix_of("*."@, server) {
        let d = server.subrange(2, server.len() as int);
        reveal_strlit(".");
        reveal_strlit("*.");
        assert(server.subrange(0, 2) =~= "*."@);
        assert(server[1] == "*."@[1]);
        assert(("."@ + d) =~= server.subrange(1, server.len() as int));
        assert(("."@ + d).len() == server.len() - 1);
        assert(server.subrange(server.len() - ("."@ + d).len(), server.len() as int) =~= server.subrange(1, server.len() as int));
        assert(is_suffix_of("."@ + d, server));
    }
}

/// A server named in the deny list is refused, whatever the allow list holds.
pub proof fn law_exactly_denied_server_is_refused(acl: ServerAcl, server: Seq<char>, i: int)
    requires
        acl.deny.is_some(),
        0 <= i < acl.deny.unwrap()@.len(),
        acl.deny.unwrap()@[i]@ == server,
    ensures
        !acl_allows(Some(acl), server),
{
    law_pattern_matches_itself(server, server);
    law_denied_server_is_refused(acl, server, i);
}
} // verus!
