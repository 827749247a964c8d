//! The hierarchy of a space: the space itself and the child rooms it links
//! to, each listed once, with the links to rooms that cannot be read.
use vstd::prelude::*;
use crate::error::{RepositoryError, is_not_found, not_found};
use crate::room::RoomRepository;
use crate::authorization::{AllowCondition, is_room_membership_condition, is_membership_condition};
use crate::membership::clone_opt;
use crate::text::{str_eq, opt_view};

verus! {

/// A room as the hierarchy reads it from the store.
#[derive(Debug)]
pub struct SpaceRoom {
    pub room_id: String,
    pub canonical_alias: Option<String>,
    pub room_type: Option<String>,
    pub name: Option<String>,
    pub topic: Option<String>,
    pub history_visibility: Option<String>,
    pub guest_access: Option<String>,
    pub join_rules: Option<String>,
    pub avatar_url: Option<String>,
    pub room_version: String,
}

/// A room of a hierarchy, as it is sent to clients.
#[derive(Debug)]
pub struct HierarchyRoom {
    pub room_id: String,
    pub canonical_alias: Option<String>,
    pub room_type: Option<String>,
    pub name: Option<String>,
    pub num_joined_members: i64,
    pub topic: Option<String>,
    pub world_readable: bool,
    pub guest_can_join: bool,
    pub join_rule: Option<String>,
    pub avatar_url: Option<String>,
    pub room_version: Option<String>,
    /// The space's `m.space.child` state events (none for a child room).
    pub children_state: Vec<ChildStateEvent>,
    /// The rooms a restricted join rule lets members of join by.
    pub allowed_room_ids: Option<Vec<String>>,
    /// The room's encryption algorithm.
    pub encryption: Option<String>,
}

/// An `m.space.child` state event of a space, newest first; `content` is
/// the event's content as JSON text.
#[derive(Debug)]
pub struct ChildStateEvent {
    pub content: String,
    pub origin_server_ts: i64,
    pub sender: String,
    pub state_key: String,
    pub event_type: String,
}

/// A room as the walk over a space's hierarchy reads it from the store: its
/// record (`None` when it cannot be read), its joined-member count, and the
/// rooms its child links name (`None` for a link that names none), in
/// order.
#[derive(Debug)]
pub struct SpaceNode {
    pub room_id: String,
    pub room: Option<SpaceRoom>,
    pub joined_members: i64,
    pub links: Vec<Option<String>>,
}

/// What a hierarchy reports of the space itself besides its record: its
/// child state events, its join rule and allow conditions, and its
/// encryption algorithm.
#[derive(Debug)]
pub struct SpaceState {
    pub children_state: Vec<ChildStateEvent>,
    pub join_rule: Option<String>,
    pub allow: Option<Vec<AllowCondition>>,
    pub encryption: Option<String>,
}

/// A space's hierarchy: its child rooms, the children that could not be
/// read, and the space itself.
#[derive(Debug)]
pub struct Hierarchy {
    pub children: Vec<HierarchyRoom>,
    pub inaccessible_children: Vec<String>,
    pub room: HierarchyRoom,
}

/// `o` holds the text `t`.
pub open spec fn holds_text(o: Option<String>, t: Seq<char>) -> bool {
    o is Some && o.unwrap()@ == t
}

/// `h` presents `room` with `members` joined members and the version `version`.
pub open spec fn presents(h: HierarchyRoom, room: SpaceRoom, members: i64, version: Option<Seq<char>>) -> bool {
    &&& h.room_id == room.room_id
    &&& h.canonical_alias == room.canonical_alias
    &&& h.room_type == room.room_type
    &&& h.name == room.name
    &&& h.num_joined_members == members
    &&& h.topic == room.topic
    &&& h.world_readable == holds_text(room.history_visibility, "world_readable"@)
    &&& h.guest_can_join == holds_text(room.guest_access, "can_join"@)
    &&& opt_view(h.join_rule) == Some(match room.join_rules {
        Some(j) => j@,
        None => "invite"@,
    })
    &&& h.avatar_url == room.avatar_url
    &&& opt_view(h.room_version) == version
}

/// `i` is the first room of `g` with the id `c`.
pub open spec fn is_first_node(g: Seq<SpaceNode>, c: Seq<char>, i: int) -> bool {
    &&& 0 <= i < g.len()
    &&& g[i].room_id@ == c
    &&& forall|k: int| 0 <= k < i ==> (#[trigger] g[k]).room_id@ != c
}

/// The position of the room with the id `c` in `g` that can be read, if any.
pub open spec fn readable_node(g: Seq<SpaceNode>, c: Seq<char>) -> Option<int> {
    if exists|i: int| is_first_node(g, c, i) {
        let i = choose|i: int| is_first_node(g, c, i);
        if g[i].room is Some { Some(i) } else { None }
    } else {
        None
    }
}

/// The walk over the child links `links` of a room of a hierarchy, with the
/// rooms `visited` already part of it: the rooms it adds (positions in `g`),
/// the children it cannot read, and the rooms visited afterwards.
///
/// A link to a visited room is skipped. A readable child is added, then,
/// when the depth allows, its own children (a level less deep), then the
/// following links. `depth` is how many levels are listed; in `unbounded`
/// mode (no depth asked for) each child's children are walked ten levels
/// deep while fewer than 100 rooms are listed at this level (`count` so
/// far). The children a nested walk cannot read are not reported.
pub open spec fn walk(
    g: Seq<SpaceNode>,
    links: Seq<Option<String>>,
    depth: nat,
    unbounded: bool,
    count: nat,
    visited: Seq<Seq<char>>,
) -> (Seq<usize>, Seq<Seq<char>>, Seq<Seq<char>>)
    decreases (if unbounded { 11nat } else { depth }), links.len(),
{
    if links.len() == 0 {
        (Seq::empty(), Seq::empty(), visited)
    } else {
        let rest = links.drop_first();
        match links[0] {
            None => walk(g, rest, depth, unbounded, count, visited),
            Some(c) => if visited.contains(c@) {
                walk(g, rest, depth, unbounded, count, visited)
            } else {
                match readable_node(g, c@) {
                    Some(i) => {
                        let v1 = visited.push(c@);
                        let sub = if unbounded {
                            if count + 1 < 100 {
                                walk(g, g[i].links@, 10, false, 0, v1)
                            } else {
                                (Seq::empty(), Seq::empty(), v1)
                            }
                        } else if depth > 1 {
                            walk(g, g[i].links@, (depth - 1) as nat, false, 0, v1)
                        } else {
                            (Seq::empty(), Seq::empty(), v1)
                        };
                        let tail = walk(g, rest, depth, unbounded, count + 1 + sub.0.len(), sub.2);
                        (seq![i as usize] + sub.0 + tail.0, tail.1, tail.2)
                    },
                    None => {
                        let tail = walk(g, rest, depth, unbounded, count, visited);
                        (tail.0, seq![c@] + tail.1, tail.2)
                    },
                }
            },
        }
    }
}

/// The walk from the space `root` with the links `links` at the depth asked
/// for: nothing at depth zero, `d` levels at depth `d`, and the unbounded
/// walk when no depth is given.
pub open spec fn space_walk(
    g: Seq<SpaceNode>,
    links: Seq<Option<String>>,
    max_depth: Option<u32>,
    root: Seq<char>,
) -> (Seq<usize>, Seq<Seq<char>>, Seq<Seq<char>>) {
    match max_depth {
        Some(d) => if d == 0 {
            (Seq::empty(), Seq::empty(), seq![root])
        } else {
            walk(g, links, d as nat, false, 0, seq![root])
        },
        None => walk(g, links, 10, true, 0, seq![root]),
    }
}

/// `v` holds the rooms `allowed_rooms` gives for `join_rule` and `allow`.
pub open spec fn allowed_ids_are(v: Option<Vec<String>>, join_rule: Option<String>, allow: Option<Vec<AllowCondition>>) -> bool {
    let a = allowed_rooms(
        match join_rule { Some(j) => Some(j@), None => None },
        match allow { Some(a) => Some(a@), None => None },
    );
    match v {
        Some(v) => a == Some(v@.map_values(|s: String| s@)),
        None => a is None,
    }
}

/// The hierarchy of the space `room` with the child links `links`, over the
/// rooms `g` of the store, at the depth asked for.
pub open spec fn hierarchy_of(
    h: Hierarchy,
    room: SpaceRoom,
    room_members: i64,
    space: SpaceState,
    g: Seq<SpaceNode>,
    links: Seq<Option<String>>,
    max_depth: Option<u32>,
) -> bool {
    let w = space_walk(g, links, max_depth, room.room_id@);
    &&& presents(h.room, room, room_members, Some(room.room_version@))
    &&& h.room.children_state == space.children_state
    &&& allowed_ids_are(h.room.allowed_room_ids, space.join_rule, space.allow)
    &&& h.room.encryption == space.encryption
    &&& h.children@.len() == w.0.len()
    &&& forall|k: int| 0 <= k < w.0.len() ==> {
        let c = #[trigger] h.children@[k];
        let n = g[w.0[k] as int];
        &&& presents(c, n.room.unwrap(), n.joined_members, Some("9"@))
        &&& c.children_state@.len() == 0
        &&& c.allowed_room_ids is None
        &&& c.encryption is None
    }
    &&& h.inaccessible_children@.map_values(|s: String| s@) == w.1
}

fn text_is(o: &Option<String>, t: &str) -> (r: bool)
    ensures
        r == holds_text(*o, t@),
{
    match o {
        Some(s) => str_eq(s.as_str(), t),
        None => false,
    }
}

fn present(room: &SpaceRoom, members: i64, version: Option<String>) -> (h: HierarchyRoom)
    ensures
        presents(h, *room, members, opt_view(version)),
        h.children_state@.len() == 0,
        h.allowed_room_ids is None,
        h.encryption is None,
{
    let join_rule = match &room.join_rules {
        Some(j) => j.clone(),
        None => {
            proof { reveal_strlit("invite"); }
            String::from_str("invite")
        },
    };
    HierarchyRoom {
        room_id: room.room_id.clone(),
        canonical_alias: clone_opt(&room.canonical_alias),
        room_type: clone_opt(&room.room_type),
        name: clone_opt(&room.name),
        num_joined_members: members,
        topic: clone_opt(&room.topic),
        world_readable: text_is(&room.history_visibility, "world_readable"),
        guest_can_join: text_is(&room.guest_access, "can_join"),
        join_rule: Some(join_rule),
        avatar_url: clone_opt(&room.avatar_url),
        room_version: version,
        children_state: Vec::new(),
        allowed_room_ids: None,
        encryption: None,
    }
}

/// Whether the list `ids` of taken ids already holds `c`.
fn holds_id(ids: &Vec<String>, c: &str) -> (r: bool)
    ensures
        r == exists|j: int| 0 <= j < ids@.len() && (#[trigger] ids@[j])@ == c@,
{
    let mut j: usize = 0;
    while j < ids.len()
        invariant
            j <= ids@.len(),
            forall|k: int| 0 <= k < j ==> (#[trigger] ids@[k])@ != c@,
        decreases ids@.len() - j,
    {
        if str_eq(ids[j].as_str(), c) {
            return true;
        }
        j = j + 1;
    }
    false
}

/// The rooms visited so far, by id.
pub open spec fn ids_of(v: Seq<String>) -> Seq<Seq<char>> {
    v.map_values(|s: String| s@)
}

proof fn lemma_holds_contains(ids: Seq<String>, c: Seq<char>)
    ensures
        (exists|j: int| 0 <= j < ids.len() && (#[trigger] ids[j])@ == c) == ids_of(ids).contains(c),
{
    if exists|j: int| 0 <= j < ids.len() && (#[trigger] ids[j])@ == c {
        let j = choose|j: int| 0 <= j < ids.len() && (#[trigger] ids[j])@ == c;
        assert(ids_of(ids)[j] == c);
    }
    if ids_of(ids).contains(c) {
        let j = choose|j: int| 0 <= j < ids_of(ids).len() && ids_of(ids)[j] == c;
        assert(ids[j]@ == c);
    }
}

/// The first room of `g` is the only one of its id that comes first.
proof fn lemma_first_node_unique(g: Seq<SpaceNode>, c: Seq<char>, i: int)
    requires
        is_first_node(g, c, i),
    ensures
        (choose|j: int| is_first_node(g, c, j)) == i,
{
    let j = choose|j: int| is_first_node(g, c, j);
    assert(is_first_node(g, c, j));
    if j < i {
        assert(g[j].room_id@ != c);
    }
    if i < j {
        assert(g[i].room_id@ != c);
    }
}

/// The position of the readable room with the id `c` in `g`, if any.
fn find_readable(g: &Vec<SpaceNode>, c: &str) -> (r: Option<usize>)
    ensures
        match r {
            Some(i) => readable_node(g@, c@) == Some(i as int),
            None => readable_node(g@, c@) is None,
        },
{
    let mut i: usize = 0;
    while i < g.len()
        invariant
            i <= g@.len(),
            forall|k: int| 0 <= k < i ==> (#[trigger] g@[k]).room_id@ != c@,
        decreases g@.len() - i,
    {
        if str_eq(g[i].room_id.as_str(), c) {
            proof {
                assert(is_first_node(g@, c@, i as int));
                lemma_first_node_unique(g@, c@, i as int);
            }
            if g[i].room.is_some() {
                return Some(i);
            } else {
                return None;
            }
        }
        i = i + 1;
    }
    proof {
        assert(!exists|j: int| is_first_node(g@, c@, j)) by {
            if exists|j: int| is_first_node(g@, c@, j) {
                let j = choose|j: int| is_first_node(g@, c@, j);
                assert(g@[j].room_id@ != c@);
            }
        }
    }
    None
}

/// Walks the links `links[start..]` as `walk` says; the rooms this level of
/// the walk has listed are those of `out` from `base` on.
fn walk_links(
    g: &Vec<SpaceNode>,
    links: &Vec<Option<String>>,
    start: usize,
    depth: u32,
    unbounded: bool,
    base: usize,
    visited: &mut Vec<String>,
    out: &mut Vec<usize>,
    inaccessible: &mut Vec<String>,
)
    requires
        start <= links@.len(),
        base <= old(out)@.len(),
        unbounded ==> depth == 10,
    ensures
        ({
            let w = walk(
                g@,
                links@.subrange(start as int, links@.len() as int),
                depth as nat,
                unbounded,
                (old(out)@.len() - base) as nat,
                ids_of(old(visited)@),
            );
            &&& final(out)@ == old(out)@ + w.0
            &&& ids_of(final(inaccessible)@) == ids_of(old(inaccessible)@) + w.1
            &&& ids_of(final(visited)@) == w.2
        }),
    decreases (if unbounded { 11int } else { depth as int }), links@.len() - start,
{
    let ghost l = links@.subrange(start as int, links@.len() as int);
    let ghost count: nat = (out@.len() - base) as nat;
    let ghost v0 = ids_of(visited@);
    if start == links.len() {
        assert(out@ =~= out@ + Seq::<usize>::empty());
        assert(ids_of(inaccessible@) =~= ids_of(inaccessible@) + Seq::<Seq<char>>::empty());
        return;
    }
    let ghost rest = links@.subrange(start + 1, links@.len() as int);
    assert(l.drop_first() =~= rest);
    assert(l[0] == links@[start as int]);
    match &links[start] {
        None => {
            walk_links(g, links, start + 1, depth, unbounded, base, visited, out, inaccessible);
        },
        Some(c) => {
            let seen = holds_id(visited, c.as_str());
            proof { lemma_holds_contains(visited@, c@); }
            if seen {
                walk_links(g, links, start + 1, depth, unbounded, base, visited, out, inaccessible);
            } else {
                match find_readable(g, c.as_str()) {
                    Some(i) => {
                        out.push(i);
                        visited.push(c.clone());
                        let ghost v1 = v0.push(c@);
                        assert(ids_of(visited@) =~= v1);
                        let ghost out1 = out@;
                        let mut discard: Vec<String> = Vec::new();
                        let nested = if unbounded { out.len() - base < 100 } else { depth > 1 };
                        if nested {
                            let next = if unbounded { 10 } else { depth - 1 };
                            walk_links(g, &g[i].links, 0, next, false, out.len(), visited, out, &mut discard);
                            assert(g@[i as int].links@.subrange(0, g@[i as int].links@.len() as int) =~= g@[i as int].links@);
                        } else {
                            assert(out@ =~= out1 + Seq::<usize>::empty());
                        }
                        let ghost sub = if unbounded {
                            if count + 1 < 100 {
                                walk(g@, g@[i as int].links@, 10, false, 0, v1)
                            } else {
                                (Seq::<usize>::empty(), Seq::<Seq<char>>::empty(), v1)
                            }
                        } else if depth > 1 {
                            walk(g@, g@[i as int].links@, (depth - 1) as nat, false, 0, v1)
                        } else {
                            (Seq::<usize>::empty(), Seq::<Seq<char>>::empty(), v1)
                        };
                        assert(out@ == out1 + sub.0);
                        assert(ids_of(visited@) == sub.2);
                        let ghost out2 = out@;
                        let ghost inacc2 = ids_of(inaccessible@);
                        walk_links(g, links, start + 1, depth, unbounded, base, visited, out, inaccessible);
                        proof {
                            assert(out2.len() - base == count + 1 + sub.0.len());
                            let tail = walk(g@, rest, depth as nat, unbounded, count + 1 + sub.0.len(), sub.2);
                            assert(out@ == out2 + tail.0);
                            assert(out@ =~= old(out)@ + (seq![i] + sub.0 + tail.0));
                        }
                    },
                    None => {
                        inaccessible.push(c.clone());
                        assert(ids_of(inaccessible@) =~= ids_of(old(inaccessible)@).push(c@));
                        walk_links(g, links, start + 1, depth, unbounded, base, visited, out, inaccessible);
                        proof {
                            let tail = walk(g@, rest, depth as nat, unbounded, count, v0);
                            assert(ids_of(inaccessible@) =~= ids_of(old(inaccessible)@) + (seq![c@] + tail.1));
                        }
                    },
                }
            }
        },
    }
}

/// The rooms that a restricted join rule lets members of join by: the rooms
/// of its membership conditions, when the rule is `restricted` or
/// `knock_restricted` and names at least one.
pub open spec fn allowed_rooms(join_rule: Option<Seq<char>>, allow: Option<Seq<AllowCondition>>) -> Option<Seq<Seq<char>>> {
    match (join_rule, allow) {
        (Some(j), Some(a)) => if j == "restricted"@ || j == "knock_restricted"@ {
            let ids = condition_rooms(a);
            if ids.len() > 0 { Some(ids) } else { None }
        } else {
            None
        },
        _ => None,
    }
}

/// The rooms of the membership conditions, in order.
pub open spec fn condition_rooms(a: Seq<AllowCondition>) -> Seq<Seq<char>>
    decreases a.len(),
{
    if a.len() == 0 {
        Seq::empty()
    } else {
        let rest = condition_rooms(a.drop_last());
        if is_room_membership_condition(a.last()) { rest.push(a.last().room_id.unwrap()@) } else { rest }
    }
}

impl<D> RoomRepository<D> {
    /// The query that lists a space's child links: only the suggested ones
    /// when `suggested_only`.
    pub fn space_children_query(&self, suggested_only: bool) -> (r: &'static str)
        ensures
            r@ == if suggested_only {
                "SELECT child_room_id, suggested FROM space_children WHERE parent_room_id = $room_id AND suggested = true"@
            } else {
                "SELECT child_room_id, suggested FROM space_children WHERE parent_room_id = $room_id"@
            },
    {
        if suggested_only {
            "SELECT child_room_id, suggested FROM space_children WHERE parent_room_id = $room_id AND suggested = true"
        } else {
            "SELECT child_room_id, suggested FROM space_children WHERE parent_room_id = $room_id"
        }
    }

    /// The hierarchy of the space `room_id` from the space's record, its
    /// joined-member count, its child links `links`, what else is reported of
    /// it (`space`) and the rooms `graph` of the store that the walk reads.
    /// The space must exist. Its children are walked as `space_walk` says:
    /// each room is listed once, never the space itself, and the children
    /// that cannot be read at the first level are reported as inaccessible
    /// (each time a link names one).
    pub fn get_room_hierarchy(
        &self,
        room_id: &str,
        room: Option<SpaceRoom>,
        room_members: i64,
        max_depth: Option<u32>,
        links: &Vec<Option<String>>,
        space: SpaceState,
        graph: &Vec<SpaceNode>,
    ) -> (r: Result<Hierarchy, RepositoryError>)
        ensures
            room is None ==> r.is_err() && is_not_found(r->Err_0, "Room"@, room_id@),
            room is Some ==> r.is_ok() && hierarchy_of(r->Ok_0, room.unwrap(), room_members, space, graph@, links@, max_depth),
    {
        let room = match room {
            Some(room) => room,
            None => {
                proof { reveal_strlit("Room"); }
                return Err(not_found("Room", room_id));
            },
        };
        let mut visited: Vec<String> = Vec::new();
        visited.push(room.room_id.clone());
        assert(ids_of(visited@) =~= seq![room.room_id@]);
        let mut out: Vec<usize> = Vec::new();
        let mut inaccessible: Vec<String> = Vec::new();
        let (listed, depth, unbounded) = match max_depth {
            Some(d) => (d > 0, d, false),
            None => (true, 10u32, true),
        };
        if listed {
            walk_links(graph, links, 0, depth, unbounded, 0, &mut visited, &mut out, &mut inaccessible);
            assert(links@.subrange(0, links@.len() as int) =~= links@);
            assert(out@ =~= Seq::<usize>::empty() + out@);
        } else {
            assert(ids_of(inaccessible@) =~= Seq::<Seq<char>>::empty());
        }
        let ghost w = space_walk(graph@, links@, max_depth, room.room_id@);
        assert(out@ == w.0);
        let graph_len: usize = graph.len();
        assert(graph@.len() == graph_len);
        proof {
            match max_depth {
                Some(d) => if d != 0 { lemma_walk_adds_unvisited(graph@, links@, d as nat, false, 0, seq![room.room_id@]); },
                None => { lemma_walk_adds_unvisited(graph@, links@, 10, true, 0, seq![room.room_id@]); },
            }
        }
        assert(ids_of(inaccessible@) =~= w.1);
        let mut children: Vec<HierarchyRoom> = Vec::new();
        let mut k: usize = 0;
        while k < out.len()
            invariant
                k <= out@.len(),
                out@ == w.0,
                children@.len() == k,
                forall|j: int| 0 <= j < out@.len() ==> (out@[j] as int) < graph@.len() && graph@[out@[j] as int].room is Some,
                forall|j: int| 0 <= j < k ==> {
                    let c = #[trigger] children@[j];
                    let n = graph@[w.0[j] as int];
                    &&& presents(c, n.room.unwrap(), n.joined_members, Some("9"@))
                    &&& c.children_state@.len() == 0
                    &&& c.allowed_room_ids is None
                    &&& c.encryption is None
                },
            decreases out@.len() - k,
        {
            let n = &graph[out[k]];
            match &n.room {
                Some(child) => {
                    let v = String::from_str("9");
                    proof { reveal_strlit("9"); }
                    children.push(present(child, n.joined_members, Some(v)));
                },
                None => { assert(false); },
            }
            k = k + 1;
        }
        let join_rule: Option<&str> = match &space.join_rule {
            Some(j) => Some(j.as_str()),
            None => None,
        };
        let allow: Option<&Vec<AllowCondition>> = match &space.allow {
            Some(a) => Some(a),
            None => None,
        };
        let allowed = self.get_allowed_room_ids(join_rule, allow);
        let version = room.room_version.clone();
        let mut parent = present(&room, room_members, Some(version));
        parent.allowed_room_ids = allowed;
        parent.children_state = space.children_state;
        parent.encryption = space.encryption;
        Ok(Hierarchy { children, inaccessible_children: inaccessible, room: parent })
    }

    /// The rooms a restricted join rule lets members of join by (see
    /// `allowed_rooms`).
    pub fn get_allowed_room_ids(&self, join_rule: Option<&str>, allow: Option<&Vec<AllowCondition>>) -> (r: Option<Vec<String>>)
        ensures
            match r {
                Some(v) => allowed_rooms(
                    match join_rule { Some(j) => Some(j@), None => None },
                    match allow { Some(a) => Some(a@), None => None },
                ) == Some(v@.map_values(|s: String| s@)),
                None => allowed_rooms(
                    match join_rule { Some(j) => Some(j@), None => None },
                    match allow { Some(a) => Some(a@), None => None },
                ) is None,
            },
    {
        let j = match join_rule {
            Some(j) => j,
            None => return None,
        };
        let a = match allow {
            Some(a) => a,
            None => return None,
        };
        if !(str_eq(j, "restricted") || str_eq(j, "knock_restricted")) {
            return None;
        }
        let mut ids: Vec<String> = Vec::new();
        let mut i: usize = 0;
        while i < a.len()
            invariant
                i <= a@.len(),
                ids@.map_values(|s: String| s@) == condition_rooms(a@.subrange(0, i as int)),
            decreases a@.len() - i,
        {
            let ghost p = a@.subrange(0, i as int);
            let ghost q = a@.subrange(0, i + 1);
            assert(q.drop_last() =~= p);
            if is_membership_condition(&a[i]) {
                match &a[i].room_id {
                    Some(r) => {
                        ids.push(r.clone());
                        assert(ids@.map_values(|s: String| s@) =~= condition_rooms(p).push(r@));
                    },
                    None => {},
                }
            }
            i = i + 1;
        }
        assert(a@.subrange(0, a@.len() as int) =~= a@);
        if ids.len() > 0 {
            Some(ids)
        } else {
            None
        }
    }
}

/// What the walk adds: readable rooms of `g` not visited before, each of
/// them visited afterwards, and everything visited before still visited.
pub proof fn lemma_walk_adds_unvisited(
    g: Seq<SpaceNode>,
    links: Seq<Option<String>>,
    depth: nat,
    unbounded: bool,
    count: nat,
    visited: Seq<Seq<char>>,
)
    requires
        g.len() <= usize::MAX,
    ensures
        ({
            let w = walk(g, links, depth, unbounded, count, visited);
            &&& forall|k: int| 0 <= k < w.0.len() ==> (#[trigger] w.0[k] as int) < g.len() && g[w.0[k] as int].room is Some
            &&& forall|k: int| 0 <= k < w.0.len() ==> !visited.contains(g[#[trigger] w.0[k] as int].room_id@)
            &&& forall|k: int| 0 <= k < w.0.len() ==> w.2.contains(g[#[trigger] w.0[k] as int].room_id@)
            &&& forall|s: Seq<char>| visited.contains(s) ==> #[trigger] w.2.contains(s)
            &&& forall|a: int, b: int| 0 <= a < b < w.0.len() ==> g[w.0[a] as int].room_id@ != g[w.0[b] as int].room_id@
        }),
    decreases (if unbounded { 11nat } else { depth }), links.len(),
{
    if links.len() > 0 {
        let rest = links.drop_first();
        match links[0] {
            None => { lemma_walk_adds_unvisited(g, rest, depth, unbounded, count, visited); },
            Some(c) => if visited.contains(c@) {
                lemma_walk_adds_unvisited(g, rest, depth, unbounded, count, visited);
            } else {
                match readable_node(g, c@) {
                    Some(i) => {
                        let ci = choose|j: int| is_first_node(g, c@, j);
                        assert(is_first_node(g, c@, ci));
                        assert(g[i].room_id@ == c@);
                        let v1 = visited.push(c@);
                        assert(v1.contains(c@)) by { assert(v1[visited.len() as int] == c@); }
                        assert forall|s: Seq<char>| visited.contains(s) implies #[trigger] v1.contains(s) by {
                            let j = choose|j: int| 0 <= j < visited.len() && visited[j] == s;
                            assert(v1[j] == s);
                        }
                        let sub = if unbounded {
                            if count + 1 < 100 {
                                walk(g, g[i].links@, 10, false, 0, v1)
                            } else {
                                (Seq::<usize>::empty(), Seq::<Seq<char>>::empty(), v1)
                            }
                        } else if depth > 1 {
                            walk(g, g[i].links@, (depth - 1) as nat, false, 0, v1)
                        } else {
                            (Seq::<usize>::empty(), Seq::<Seq<char>>::empty(), v1)
                        };
                        if unbounded {
                            if count + 1 < 100 {
                                lemma_walk_adds_unvisited(g, g[i].links@, 10, false, 0, v1);
                            }
                        } else if depth > 1 {
                            lemma_walk_adds_unvisited(g, g[i].links@, (depth - 1) as nat, false, 0, v1);
                        }
                        let n2 = count + 1 + sub.0.len();
                        lemma_walk_adds_unvisited(g, rest, depth, unbounded, n2, sub.2);
                        let tail = walk(g, rest, depth, unbounded, n2, sub.2);
                        let w = walk(g, links, depth, unbounded, count, visited);
                        let head: Seq<usize> = seq![i as usize];
                        assert(w.0 == head + sub.0 + tail.0);
                        let m = sub.0.len();
                        // where each listed room comes from
                        assert forall|k: int| 0 <= k < w.0.len() implies
                            (k == 0 ==> w.0[k] == i as usize)
                            && (1 <= k < 1 + m ==> w.0[k] == sub.0[k - 1])
                            && (1 + m <= k ==> w.0[k] == tail.0[k - 1 - m]) by {}
                        assert forall|k: int| 0 <= k < w.0.len() implies (#[trigger] w.0[k] as int) < g.len() && g[w.0[k] as int].room is Some by {
                            if 1 <= k < 1 + m { assert(w.0[k] == sub.0[k - 1]); }
                            if 1 + m <= k { assert(w.0[k] == tail.0[k - 1 - m]); }
                        }
                        assert forall|k: int| 0 <= k < w.0.len() implies !visited.contains(g[#[trigger] w.0[k] as int].room_id@) by {
                            if 1 <= k < 1 + m {
                                assert(w.0[k] == sub.0[k - 1]);
                                assert(!v1.contains(g[sub.0[k - 1] as int].room_id@));
                            }
                            if 1 + m <= k {
                                assert(w.0[k] == tail.0[k - 1 - m]);
                                let id = g[tail.0[k - 1 - m] as int].room_id@;
                                assert(!sub.2.contains(id));
                                if visited.contains(id) {
                                    assert(v1.contains(id));
                                }
                            }
                        }
                        assert forall|k: int| 0 <= k < w.0.len() implies w.2.contains(g[#[trigger] w.0[k] as int].room_id@) by {
                            if k == 0 {
                                assert(sub.2.contains(c@));
                            }
                            if 1 <= k < 1 + m {
                                assert(w.0[k] == sub.0[k - 1]);
                                assert(sub.2.contains(g[sub.0[k - 1] as int].room_id@));
                            }
                            if 1 + m <= k {
                                assert(w.0[k] == tail.0[k - 1 - m]);
                            }
                        }
                        assert forall|s: Seq<char>| visited.contains(s) implies #[trigger] w.2.contains(s) by {
                            assert(v1.contains(s));
                            assert(sub.2.contains(s));
                        }
                        assert forall|a: int, b: int| 0 <= a < b < w.0.len() implies g[w.0[a] as int].room_id@ != g[w.0[b] as int].room_id@ by {
                            if a == 0 {
                                if b < 1 + m {
                                    assert(w.0[b] == sub.0[b - 1]);
                                    assert(!v1.contains(g[sub.0[b - 1] as int].room_id@));
                                } else {
                                    assert(w.0[b] == tail.0[b - 1 - m]);
                                    assert(sub.2.contains(c@));
                                    assert(!sub.2.contains(g[tail.0[b - 1 - m] as int].room_id@));
                                }
                            } else if a < 1 + m {
                                assert(w.0[a] == sub.0[a - 1]);
                                if b < 1 + m {
                                    assert(w.0[b] == sub.0[b - 1]);
                                } else {
                                    assert(w.0[b] == tail.0[b - 1 - m]);
                                    assert(sub.2.contains(g[sub.0[a - 1] as int].room_id@));
                                    assert(!sub.2.contains(g[tail.0[b - 1 - m] as int].room_id@));
                                }
                            } else {
                                assert(w.0[a] == tail.0[a - 1 - m]);
                                assert(w.0[b] == tail.0[b - 1 - m]);
                            }
                        }
                    },
                    None => {
                        lemma_walk_adds_unvisited(g, rest, depth, unbounded, count, visited);
                    },
                }
            },
        }
    }
}

/// Each room of a space's hierarchy is listed once, and the space itself
/// never is.
pub proof fn law_hierarchy_children_distinct(
    g: Seq<SpaceNode>,
    links: Seq<Option<String>>,
    max_depth: Option<u32>,
    root: Seq<char>,
)
    requires
        g.len() <= usize::MAX,
    ensures
        ({
            let w = space_walk(g, links, max_depth, root);
            &&& forall|a: int, b: int| 0 <= a < b < w.0.len() ==> g[w.0[a] as int].room_id@ != g[w.0[b] as int].room_id@
            &&& forall|k: int| 0 <= k < w.0.len() ==> g[#[trigger] w.0[k] as int].room_id@ != root
        }),
{
    let v = seq![root];
    assert(v.contains(root)) by { assert(v[0] == root); }
    match max_depth {
        Some(d) => if d != 0 { lemma_walk_adds_unvisited(g, links, d as nat, false, 0, v); },
        None => { lemma_walk_adds_unvisited(g, links, 10, true, 0, v); },
    }
}

} // verus!
