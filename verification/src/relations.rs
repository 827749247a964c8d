//! Event relations (replies, edits, annotations, threads): adding them,
//! the queries that follow them, and their aggregation.
use vstd::prelude::*;
use crate::codec::{new_uuid_v4, uuid_text_shape};
use crate::error::{RepositoryError, owned, concat2, concat3, concat4, not_found, is_not_found, is_conflict};
use crate::numeric::{format_u64, decimal_digits};
use crate::text::str_eq;

verus! {

/// Which way relations are followed from an event.
#[derive(Debug, Clone, Copy, PartialEq, Eq, Structural)]
pub enum RelationDirection {
    /// Events that relate to the given event (children/replies).
    Forward,
    /// Events that the given event relates to (parents/references).
    Backward,
    /// Both directions.
    Both,
}

/// The relations of an event, counted: reactions per key, and replies,
/// edits, annotations and threads.
#[derive(Debug)]
pub struct RelationAggregation {
    pub reactions: Vec<(String, u32)>,
    pub replies: u32,
    pub edits: u32,
    pub annotations: u32,
    pub threads: u32,
}

/// A relation between two events as stored; `created_at` is in
/// milliseconds since the UNIX epoch.
#[derive(Debug)]
pub struct EventRelation {
    pub id: String,
    pub room_id: String,
    pub parent_event_id: String,
    pub child_event_id: String,
    pub rel_type: String,
    pub created_at: i64,
}

/// `rel` relates `child` to `parent` in `room` with `rel_type`.
pub open spec fn relation_is(rel: EventRelation, room: Seq<char>, parent: Seq<char>, child: Seq<char>, rel_type: Seq<char>) -> bool {
    &&& rel.room_id@ == room
    &&& rel.parent_event_id@ == parent
    &&& rel.child_event_id@ == child
    &&& rel.rel_type@ == rel_type
}

/// Some relation of `stored` relates `child` to `parent` in `room` with `rel_type`.
pub open spec fn relation_in(stored: Seq<EventRelation>, room: Seq<char>, parent: Seq<char>, child: Seq<char>, rel_type: Seq<char>) -> bool {
    exists|i: int| 0 <= i < stored.len() && relation_is(#[trigger] stored[i], room, parent, child, rel_type)
}

/// Whether some relation of `stored` relates `child` to `parent` in `room`
/// with `rel_type`.
pub fn relation_stored(stored: &Vec<EventRelation>, room: &str, parent: &str, child: &str, rel_type: &str) -> (r: bool)
    ensures
        r == relation_in(stored@, room@, parent@, child@, rel_type@),
{
    let mut i: usize = 0;
    while i < stored.len()
        invariant
            i <= stored@.len(),
            forall|j: int| 0 <= j < i ==> !relation_is(#[trigger] stored@[j], room@, parent@, child@, rel_type@),
        decreases stored@.len() - i,
    {
        let e = &stored[i];
        if str_eq(e.room_id.as_str(), room) && str_eq(e.parent_event_id.as_str(), parent)
            && str_eq(e.child_event_id.as_str(), child) && str_eq(e.rel_type.as_str(), rel_type) {
            assert(relation_is(stored@[i as int], room@, parent@, child@, rel_type@));
            return true;
        }
        i = i + 1;
    }
    false
}

/// A relation is never stored twice: once the relation that
/// `add_event_relation` returned is stored, adding the same relation again
/// finds it among the stored relations, which `add_event_relation` answers
/// with a conflict.
pub proof fn law_relation_stored_once(
    stored: Seq<EventRelation>,
    rel: EventRelation,
    room: Seq<char>,
    parent: Seq<char>,
    child: Seq<char>,
    rel_type: Seq<char>,
)
    requires
        relation_is(rel, room, parent, child, rel_type),
    ensures
        relation_in(stored.push(rel), room, parent, child, rel_type),
{
    assert(stored.push(rel)[stored.len() as int] == rel);
}

/// A relation row as the store gives it: each field absent when missing or
/// not text.
#[derive(Debug)]
pub struct RelationRow {
    pub id: Option<String>,
    pub room_id: Option<String>,
    pub parent_event_id: Option<String>,
    pub child_event_id: Option<String>,
    pub rel_type: Option<String>,
    pub created_at: Option<String>,
}

/// The time in milliseconds that chrono reads from an RFC 3339 text, if it
/// reads one.
pub uninterp spec fn rfc3339_millis(text: Seq<char>) -> Option<i64>;

/// `chrono::DateTime::parse_from_rfc3339`, as milliseconds since the UNIX
/// epoch: the time the text denotes, or `None` when chrono refuses it.
#[verifier::external_body]
pub(crate) fn parse_rfc3339_millis(text: &str) -> (r: Option<i64>)
    ensures
        r == rfc3339_millis(text@),
{
    chrono::DateTime::parse_from_rfc3339(text).ok().map(|dt| dt.with_timezone(&chrono::Utc).timestamp_millis())
}

/// A field's text, or the empty text.
pub open spec fn text_or_empty(o: Option<String>) -> Seq<char> {
    match o {
        Some(s) => s@,
        None => Seq::empty(),
    }
}

fn owned_or_empty(o: Option<String>) -> (r: String)
    ensures
        r@ == text_or_empty(o),
{
    match o {
        Some(s) => s,
        None => {
            proof { reveal_strlit(""); }
            owned("")
        },
    }
}

/// Reactions grouped by key in order of first appearance, each key with its
/// senders in order.
pub open spec fn group_reactions(rows: Seq<(Seq<char>, Seq<char>)>) -> Seq<(Seq<char>, Seq<Seq<char>>)>
    decreases rows.len(),
{
    if rows.len() == 0 {
        Seq::empty()
    } else {
        add_to_group(group_reactions(rows.drop_last()), rows.last().0, rows.last().1)
    }
}

/// The groups with `user` added under `key` (a new group at the end when
/// the key has none).
pub open spec fn add_to_group(
    groups: Seq<(Seq<char>, Seq<Seq<char>>)>,
    key: Seq<char>,
    user: Seq<char>,
) -> Seq<(Seq<char>, Seq<Seq<char>>)> {
    if exists|j: int| 0 <= j < groups.len() && (#[trigger] groups[j]).0 == key {
        let j = choose|j: int| 0 <= j < groups.len() && (#[trigger] groups[j]).0 == key;
        groups.update(j, (key, groups[j].1.push(user)))
    } else {
        groups.push((key, seq![user]))
    }
}

/// The keys of the groups are distinct.
pub open spec fn group_keys_distinct(groups: Seq<(Seq<char>, Seq<Seq<char>>)>) -> bool {
    forall|a: int, b: int| 0 <= a < b < groups.len() ==> (#[trigger] groups[a]).0 != (#[trigger] groups[b]).0
}

/// The view of grouped reactions.
pub open spec fn groups_view(v: Seq<(String, Vec<String>)>) -> Seq<(Seq<char>, Seq<Seq<char>>)> {
    Seq::new(v.len(), |i: int| (v[i].0@, Seq::new(v[i].1@.len(), |k: int| v[i].1@[k]@)))
}

/// The `(key, sender)` pairs of the rows that have both, in order.
pub open spec fn reaction_pairs(rows: Seq<(Option<String>, Option<String>)>) -> Seq<(Seq<char>, Seq<char>)>
    decreases rows.len(),
{
    if rows.len() == 0 {
        Seq::empty()
    } else {
        let rest = reaction_pairs(rows.drop_last());
        match rows.last() {
            (Some(k), Some(u)) => rest.push((k@, u@)),
            _ => rest,
        }
    }
}

proof fn lemma_add_to_group_distinct(groups: Seq<(Seq<char>, Seq<Seq<char>>)>, key: Seq<char>, user: Seq<char>)
    requires
        group_keys_distinct(groups),
    ensures
        group_keys_distinct(add_to_group(groups, key, user)),
{
    let r = add_to_group(groups, key, user);
    if exists|j: int| 0 <= j < groups.len() && (#[trigger] groups[j]).0 == key {
        let j = choose|j: int| 0 <= j < groups.len() && (#[trigger] groups[j]).0 == key;
        assert forall|a: int, b: int| 0 <= a < b < r.len() implies (#[trigger] r[a]).0 != (#[trigger] r[b]).0 by {
            assert(r[a].0 == groups[a].0);
            assert(r[b].0 == groups[b].0);
        }
    } else {
        assert forall|a: int, b: int| 0 <= a < b < r.len() implies (#[trigger] r[a]).0 != (#[trigger] r[b]).0 by {
            if b < groups.len() {
                assert(r[a] == groups[a] && r[b] == groups[b]);
            } else {
                assert(r[a] == groups[a]);
            }
        }
    }
}

/// Event relations; the handle `D` is what the caller reads and writes the
/// store with.
pub struct RelationsRepository<D> {
    db: D,
}

impl<D> RelationsRepository<D> {
    /// The store handle this repository was made with.
    pub closed spec fn handle(&self) -> D {
        self.db
    }

    pub fn new(db: D) -> (r: Self)
        ensures
            r.handle() == db,
    {
        RelationsRepository { db }
    }

    /// The store handle.
    pub fn db(&self) -> (r: &D)
        ensures
            *r == self.handle(),
    {
        &self.db
    }

    /// The relation to store from `parent_event_id` to `child_event_id` at
    /// `now_millis`, or why not: it is among the `stored` relations already,
    /// or either event is missing from the room.
    pub fn add_event_relation(
        &self,
        room_id: &str,
        parent_event_id: &str,
        child_event_id: &str,
        rel_type: &str,
        stored: &Vec<EventRelation>,
        parent_exists: bool,
        child_exists: bool,
        now_millis: i64,
    ) -> (r: Result<EventRelation, RepositoryError>)
        ensures
            relation_in(stored@, room_id@, parent_event_id@, child_event_id@, rel_type@) ==> r.is_err() && is_conflict(
                r->Err_0,
                "Relation already exists: "@ + parent_event_id@ + "->"@ + child_event_id@ + ":"@ + rel_type@,
            ),
            !relation_in(stored@, room_id@, parent_event_id@, child_event_id@, rel_type@) && !parent_exists ==> r.is_err() && is_not_found(
                r->Err_0,
                "Parent Event"@,
                parent_event_id@,
            ),
            !relation_in(stored@, room_id@, parent_event_id@, child_event_id@, rel_type@) && parent_exists
                && !child_exists ==> r.is_err() && is_not_found(
                r->Err_0,
                "Child Event"@,
                child_event_id@,
            ),
            !relation_in(stored@, room_id@, parent_event_id@, child_event_id@, rel_type@) && parent_exists
                && child_exists ==> r.is_ok() && relation_is(r->Ok_0, room_id@, parent_event_id@, child_event_id@, rel_type@) && ({
                let rel = r->Ok_0;
                &&& rel.id@.len() == 40
                &&& rel.id@.subrange(0, 4) == "rel_"@
                &&& uuid_text_shape(rel.id@.subrange(4, 40))
                &&& rel.room_id@ == room_id@
                &&& rel.parent_event_id@ == parent_event_id@
                &&& rel.child_event_id@ == child_event_id@
                &&& rel.rel_type@ == rel_type@
                &&& rel.created_at == now_millis
            }),
    {
        if relation_stored(stored, room_id, parent_event_id, child_event_id, rel_type) {
            let mut m = concat4("Relation already exists: ", parent_event_id, "->", child_event_id);
            m.append(":");
            m.append(rel_type);
            return Err(RepositoryError::Conflict { message: m });
        }
        if !parent_exists {
            return Err(not_found("Parent Event", parent_event_id));
        }
        if !child_exists {
            return Err(not_found("Child Event", child_event_id));
        }
        proof { reveal_strlit("rel_"); }
        let id = crate::oauth2::prefixed_uuid("rel_");
        Ok(EventRelation {
            id,
            room_id: owned(room_id),
            parent_event_id: owned(parent_event_id),
            child_event_id: owned(child_event_id),
            rel_type: owned(rel_type),
            created_at: now_millis,
        })
    }

    /// Whether a user may relate an event to `parent_event_id`: it is a
    /// joined member, and the parent is in the room.
    pub fn validate_relation_permissions(&self, is_joined: bool, parent_exists: bool) -> (r: bool)
        ensures
            r == (is_joined && parent_exists),
    {
        is_joined && parent_exists
    }

    /// The query for an event's relations, narrowed to a relation type
    /// and an event type when given, oldest first.
    pub fn event_relations_query(&self, rel_type: Option<&str>, event_type: Option<&str>) -> (r: String)
        ensures
            r@ == "SELECT event.* FROM event_relations INNER JOIN event ON event_relations.child_event_id = event.event_id WHERE event_relations.room_id = $room_id AND event_relations.parent_event_id = $event_id"@
                + (if rel_type.is_some() { " AND event_relations.rel_type = $rel_type"@ } else { Seq::empty() })
                + (if event_type.is_some() { " AND event.event_type = $event_type"@ } else { Seq::empty() })
                + " ORDER BY event.origin_server_ts ASC"@,
    {
        let mut q = owned(
            "SELECT event.* FROM event_relations INNER JOIN event ON event_relations.child_event_id = event.event_id WHERE event_relations.room_id = $room_id AND event_relations.parent_event_id = $event_id",
        );
        let ghost base = q@;
        if rel_type.is_some() {
            q.append(" AND event_relations.rel_type = $rel_type");
        }
        let ghost with_rel = q@;
        assert(with_rel =~= base + (if rel_type.is_some() { " AND event_relations.rel_type = $rel_type"@ } else { Seq::empty() }));
        if event_type.is_some() {
            q.append(" AND event.event_type = $event_type");
        }
        let ghost with_type = q@;
        assert(with_type =~= with_rel + (if event_type.is_some() { " AND event.event_type = $event_type"@ } else { Seq::empty() }));
        q.append(" ORDER BY event.origin_server_ts ASC");
        q
    }

    /// The query for the events related to an event in `direction`.
    pub fn related_events_query(&self, direction: RelationDirection) -> (r: &'static str)
        ensures
            r@ == match direction {
                RelationDirection::Forward => "SELECT event.* FROM event_relations INNER JOIN event ON event_relations.child_event_id = event.event_id WHERE event_relations.room_id = $room_id AND event_relations.parent_event_id = $event_id ORDER BY event.origin_server_ts ASC"@,
                RelationDirection::Backward => "SELECT event.* FROM event_relations INNER JOIN event ON event_relations.parent_event_id = event.event_id WHERE event_relations.room_id = $room_id AND event_relations.child_event_id = $event_id ORDER BY event.origin_server_ts ASC"@,
                RelationDirection::Both => "SELECT event.* FROM event_relations INNER JOIN event ON (event_relations.child_event_id = event.event_id OR event_relations.parent_event_id = event.event_id) WHERE event_relations.room_id = $room_id AND (event_relations.parent_event_id = $event_id OR event_relations.child_event_id = $event_id) AND event.event_id != $event_id ORDER BY event.origin_server_ts ASC"@,
            },
    {
        match direction {
            RelationDirection::Forward => "SELECT event.* FROM event_relations INNER JOIN event ON event_relations.child_event_id = event.event_id WHERE event_relations.room_id = $room_id AND event_relations.parent_event_id = $event_id ORDER BY event.origin_server_ts ASC",
            RelationDirection::Backward => "SELECT event.* FROM event_relations INNER JOIN event ON event_relations.parent_event_id = event.event_id WHERE event_relations.room_id = $room_id AND event_relations.child_event_id = $event_id ORDER BY event.origin_server_ts ASC",
            RelationDirection::Both => "SELECT event.* FROM event_relations INNER JOIN event ON (event_relations.child_event_id = event.event_id OR event_relations.parent_event_id = event.event_id) WHERE event_relations.room_id = $room_id AND (event_relations.parent_event_id = $event_id OR event_relations.child_event_id = $event_id) AND event.event_id != $event_id ORDER BY event.origin_server_ts ASC",
        }
    }

    /// The query for a room's relations, newest first, at most `limit`.
    pub fn room_relations_query(&self, limit: Option<u32>) -> (r: String)
        ensures
            r@ == "SELECT * FROM event_relations WHERE room_id = $room_id ORDER BY created_at DESC"@ + match limit {
                Some(l) => " LIMIT "@ + decimal_digits(l as nat),
                None => Seq::empty(),
            },
    {
        let base = "SELECT * FROM event_relations WHERE room_id = $room_id ORDER BY created_at DESC";
        match limit {
            Some(l) => {
                let n = format_u64(l as u64);
                concat3(base, " LIMIT ", n.as_str())
            },
            None => {
                let s = owned(base);
                assert(s@ =~= base@ + Seq::<char>::empty());
                s
            },
        }
    }

    /// The counted relations of an event from the store's counts: reaction
    /// counts per key (rows without both are skipped) and the reply, edit,
    /// annotation and thread counts (absent: 0), each cut to 32 bits.
    pub fn get_aggregated_relations(
        &self,
        reaction_rows: &Vec<(Option<String>, Option<u64>)>,
        replies: Option<i64>,
        edits: Option<i64>,
        annotations: Option<i64>,
        threads: Option<i64>,
    ) -> (r: RelationAggregation)
        ensures
            r.replies == replies.unwrap_or(0) as u32,
            r.edits == edits.unwrap_or(0) as u32,
            r.annotations == annotations.unwrap_or(0) as u32,
            r.threads == threads.unwrap_or(0) as u32,
            r.reactions@.len() == counted_reactions(reaction_rows@).len(),
            forall|i: int| 0 <= i < r.reactions@.len() ==> ((#[trigger] r.reactions@[i]).0@, r.reactions@[i].1)
                == counted_reactions(reaction_rows@)[i],
    {
        let mut reactions: Vec<(String, u32)> = Vec::new();
        let mut i: usize = 0;
        while i < reaction_rows.len()
            invariant
                i <= reaction_rows@.len(),
                reactions@.len() == counted_reactions(reaction_rows@.subrange(0, i as int)).len(),
                forall|k: int| 0 <= k < reactions@.len() ==> ((#[trigger] reactions@[k]).0@, reactions@[k].1)
                    == counted_reactions(reaction_rows@.subrange(0, i as int))[k],
            decreases reaction_rows@.len() - i,
        {
            assert(reaction_rows@.subrange(0, i + 1).drop_last() =~= reaction_rows@.subrange(0, i as int));
            match (&reaction_rows[i].0, reaction_rows[i].1) {
                (Some(k), Some(c)) => { reactions.push((k.clone(), c as u32)); },
                _ => {},
            }
            i = i + 1;
        }
        assert(reaction_rows@.subrange(0, reaction_rows@.len() as int) =~= reaction_rows@);
        RelationAggregation {
            reactions,
            replies: (match replies { Some(n) => n, None => 0 }) as u32,
            edits: (match edits { Some(n) => n, None => 0 }) as u32,
            annotations: (match annotations { Some(n) => n, None => 0 }) as u32,
            threads: (match threads { Some(n) => n, None => 0 }) as u32,
        }
    }

    /// The relation a stored row gives: missing text fields are empty, and
    /// a creation time chrono cannot read is `now_millis`.
    pub fn relation_from_row(&self, row: RelationRow, now_millis: i64) -> (r: EventRelation)
        ensures
            r.id@ == text_or_empty(row.id),
            r.room_id@ == text_or_empty(row.room_id),
            r.parent_event_id@ == text_or_empty(row.parent_event_id),
            r.child_event_id@ == text_or_empty(row.child_event_id),
            r.rel_type@ == text_or_empty(row.rel_type),
            r.created_at == match row.created_at {
                Some(t) => match rfc3339_millis(t@) {
                    Some(ms) => ms,
                    None => now_millis,
                },
                None => now_millis,
            },
    {
        let created_at = match &row.created_at {
            Some(t) => match parse_rfc3339_millis(t.as_str()) {
                Some(ms) => ms,
                None => now_millis,
            },
            None => now_millis,
        };
        EventRelation {
            id: owned_or_empty(row.id),
            room_id: owned_or_empty(row.room_id),
            parent_event_id: owned_or_empty(row.parent_event_id),
            child_event_id: owned_or_empty(row.child_event_id),
            rel_type: owned_or_empty(row.rel_type),
            created_at,
        }
    }

    /// The number of relations a cleanup removed, cut to 32 bits (absent: 0).
    pub fn cleanup_count(&self, deleted: Option<i64>) -> (r: u32)
        ensures
            r == deleted.unwrap_or(0) as u32,
    {
        (match deleted {
            Some(n) => n,
            None => 0,
        }) as u32
    }

    /// The senders of an event's reactions grouped by key, keys in order of
    /// first appearance, senders in order; rows without both are skipped.
    pub fn get_reaction_summary(&self, rows: &Vec<(Option<String>, Option<String>)>) -> (r: Vec<(String, Vec<String>)>)
        ensures
            groups_view(r@) == group_reactions(reaction_pairs(rows@)),
            group_keys_distinct(groups_view(r@)),
    {
        let mut groups: Vec<(String, Vec<String>)> = Vec::new();
        let mut i: usize = 0;
        while i < rows.len()
            invariant
                i <= rows@.len(),
                groups_view(groups@) == group_reactions(reaction_pairs(rows@.subrange(0, i as int))),
                group_keys_distinct(groups_view(groups@)),
            decreases rows@.len() - i,
        {
            let ghost before = groups_view(groups@);
            let ghost pref = rows@.subrange(0, i as int);
            let ghost nxt = rows@.subrange(0, i + 1);
            assert(nxt.drop_last() =~= pref);
            assert(nxt.last() == rows@[i as int]);
            match (&rows[i].0, &rows[i].1) {
                (Some(k), Some(u)) => {
                    proof {
                        lemma_add_to_group_distinct(before, k@, u@);
                        assert(reaction_pairs(nxt) == reaction_pairs(pref).push((k@, u@)));
                        assert(reaction_pairs(nxt).drop_last() =~= reaction_pairs(pref));
                        assert(group_reactions(reaction_pairs(nxt)) == add_to_group(before, k@, u@));
                    }
                    let mut j: usize = 0;
                    while j < groups.len()
                        invariant
                            j <= groups@.len(),
                            before == groups_view(groups@),
                            forall|m: int| 0 <= m < j ==> (#[trigger] groups@[m]).0@ != k@,
                        ensures
                            j <= groups@.len(),
                            j < groups@.len() ==> groups@[j as int].0@ == k@,
                            forall|m: int| 0 <= m < j ==> (#[trigger] groups@[m]).0@ != k@,
                        decreases groups@.len() - j,
                    {
                        if str_eq(groups[j].0.as_str(), k.as_str()) {
                            break;
                        }
                        j = j + 1;
                    }
                    if j < groups.len() {
                        proof {
                            assert(before[j as int].0 == k@);
                            let c = choose|c: int| 0 <= c < before.len() && (#[trigger] before[c]).0 == k@;
                            assert(c == j as int) by {
                                if c != j as int {
                                    if c < j {
                                        assert(before[c].0 == groups@[c].0@);
                                    } else {
                                        assert(before[c].0 != before[j as int].0);
                                    }
                                }
                            }
                        }
                        let mut entry = groups.remove(j);
                        entry.1.push(u.clone());
                        groups.insert(j, entry);
                        proof {
                            let expected = add_to_group(before, k@, u@);
                            assert(groups_view(groups@).len() == expected.len());
                            assert forall|m: int| 0 <= m < expected.len() implies groups_view(groups@)[m] =~~= expected[m] by {
                                if m == j as int {
                                    assert(groups_view(groups@)[m].1 =~= before[m].1.push(u@));
                                }
                            }
                            assert(groups_view(groups@) =~~= expected);
                        }
                    } else {
                        groups.push((k.clone(), vec![u.clone()]));
                        proof {
                            let expected = add_to_group(before, k@, u@);
                            assert(!exists|c: int| 0 <= c < before.len() && (#[trigger] before[c]).0 == k@) by {
                                assert forall|c: int| 0 <= c < before.len() implies (#[trigger] before[c]).0 != k@ by {
                                    assert(before[c].0 == groups@[c].0@);
                                }
                            }
                            assert forall|m: int| 0 <= m < expected.len() implies groups_view(groups@)[m] =~~= expected[m] by {
                                if m == before.len() {
                                    assert(groups_view(groups@)[m].1 =~= seq![u@]);
                                }
                            }
                            assert(groups_view(groups@) =~~= expected);
                        }
                    }
                },
                _ => {
                    assert(reaction_pairs(nxt) == reaction_pairs(pref));
                },
            }
            i = i + 1;
        }
        assert(rows@.subrange(0, rows@.len() as int) =~= rows@);
        groups
    }
}

/// The `(key, count)` pairs of the reaction count rows that have both, each
/// count cut to 32 bits, in order.
pub open spec fn counted_reactions(rows: Seq<(Option<String>, Option<u64>)>) -> Seq<(Seq<char>, u32)>
    decreases rows.len(),
{
    if rows.len() == 0 {
        Seq::empty()
    } else {
        let rest = counted_reactions(rows.drop_last());
        match rows.last() {
            (Some(k), Some(c)) => rest.push((k@, c as u32)),
            _ => rest,
        }
    }
}

} // verus!
