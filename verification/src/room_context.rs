//! The context of an event: the queries for the events around it, with the
//! optional event filter, and the order in which the events are returned.
use vstd::prelude::*;
use crate::error::{RepositoryError, is_not_found, not_found, concat2, concat3};
use crate::numeric::{format_u64, decimal_digits};
use crate::room::RoomRepository;

verus! {

/// Which events the context lists around the event.
#[derive(Debug)]
pub struct ContextFilter {
    pub types: Option<Vec<String>>,
    pub not_types: Option<Vec<String>>,
    pub senders: Option<Vec<String>>,
    pub not_senders: Option<Vec<String>>,
}

/// The events around an event, oldest first, and the event itself.
#[derive(Debug)]
pub struct RoomContext<E> {
    pub events_before: Vec<E>,
    pub event: E,
    pub events_after: Vec<E>,
}

/// The items, each in single quotes, joined with `", "`.
pub open spec fn quoted_list(items: Seq<String>) -> Seq<char>
    decreases items.len(),
{
    if items.len() == 0 {
        Seq::empty()
    } else if items.len() == 1 {
        "'"@ + items[0]@ + "'"@
    } else {
        quoted_list(items.drop_last()) + ", "@ + "'"@ + items.last()@ + "'"@
    }
}

/// The texts joined with `" AND "`.
pub open spec fn and_joined(parts: Seq<Seq<char>>) -> Seq<char>
    decreases parts.len(),
{
    if parts.len() == 0 {
        Seq::empty()
    } else if parts.len() == 1 {
        parts[0]
    } else {
        and_joined(parts.drop_last()) + " AND "@ + parts.last()
    }
}

/// The condition a filter list adds, when the list is given.
pub open spec fn list_clause(head: Seq<char>, list: Option<Vec<String>>) -> Seq<Seq<char>> {
    match list {
        Some(v) => seq![head + "["@ + quoted_list(v@) + "]"@],
        None => Seq::empty(),
    }
}

/// The conditions of a filter, in the order types, excluded types, senders,
/// excluded senders.
pub open spec fn filter_clauses(f: ContextFilter) -> Seq<Seq<char>> {
    list_clause("event_type IN "@, f.types) + list_clause("event_type NOT IN "@, f.not_types)
        + list_clause("sender IN "@, f.senders) + list_clause("sender NOT IN "@, f.not_senders)
}

/// What a filter adds to the context queries.
pub open spec fn filter_clause(filter: Option<ContextFilter>) -> Seq<char> {
    match filter {
        Some(f) => if filter_clauses(f).len() > 0 {
            " AND ("@ + and_joined(filter_clauses(f)) + ")"@
        } else {
            Seq::empty()
        },
        None => Seq::empty(),
    }
}

fn quote_list(items: &Vec<String>) -> (r: String)
    ensures
        r@ == quoted_list(items@),
{
    let mut out = String::new();
    let mut i: usize = 0;
    while i < items.len()
        invariant
            i <= items@.len(),
            out@ == quoted_list(items@.subrange(0, i as int)),
        decreases items@.len() - i,
    {
        let ghost p = items@.subrange(0, i as int);
        let ghost q = items@.subrange(0, i + 1);
        assert(q.drop_last() =~= p);
        proof { reveal_strlit("'"); reveal_strlit(", "); }
        if i > 0 {
            out.append(", ");
        }
        out.append("'");
        out.append(items[i].as_str());
        out.append("'");
        i = i + 1;
    }
    assert(items@.subrange(0, items@.len() as int) =~= items@);
    out
}

fn push_list_clause(parts: &mut Vec<String>, head: &str, list: &Option<Vec<String>>)
    ensures
        final(parts)@.map_values(|s: String| s@) == old(parts)@.map_values(|s: String| s@) + list_clause(head@, *list),
{
    match list {
        Some(v) => {
            let q = quote_list(v);
            proof { reveal_strlit("["); reveal_strlit("]"); }
            let mut c = concat3(head, "[", q.as_str());
            c.append("]");
            parts.push(c);
            assert(parts@.map_values(|s: String| s@) =~= old(parts)@.map_values(|s: String| s@) + list_clause(head@, *list));
        },
        None => {
            assert(parts@.map_values(|s: String| s@) =~= old(parts)@.map_values(|s: String| s@) + list_clause(head@, *list));
        },
    }
}

fn join_and(parts: &Vec<String>) -> (r: String)
    ensures
        r@ == and_joined(parts@.map_values(|s: String| s@)),
{
    let mut out = String::new();
    let mut i: usize = 0;
    while i < parts.len()
        invariant
            i <= parts@.len(),
            out@ == and_joined(parts@.subrange(0, i as int).map_values(|s: String| s@)),
        decreases parts@.len() - i,
    {
        let ghost p = parts@.subrange(0, i as int).map_values(|s: String| s@);
        let ghost q = parts@.subrange(0, i + 1).map_values(|s: String| s@);
        assert(q.drop_last() =~= p);
        proof { reveal_strlit(" AND "); }
        if i > 0 {
            out.append(" AND ");
        }
        out.append(parts[i].as_str());
        i = i + 1;
    }
    assert(parts@.subrange(0, parts@.len() as int) =~= parts@);
    out
}

/// The reverse of `v`.
fn reversed<E>(v: Vec<E>) -> (r: Vec<E>)
    ensures
        r@ == v@.reverse(),
{
    let ghost all = v@;
    let mut v = v;
    let mut out: Vec<E> = Vec::new();
    while v.len() > 0
        invariant
            v@.len() <= all.len(),
            v@ == all.subrange(0, v@.len() as int),
            out@ == all.subrange(v@.len() as int, all.len() as int).reverse(),
        decreases v@.len(),
    {
        let ghost n = v@.len();
        let e = v.pop().unwrap();
        assert(e == all[n - 1]);
        out.push(e);
        assert(out@ =~= all.subrange(n - 1, all.len() as int).reverse());
        assert(v@ =~= all.subrange(0, n - 1));
    }
    out
}

impl<D> RoomRepository<D> {
    /// What the filter adds to the context queries (see `filter_clause`).
    pub fn context_filter_clause(&self, filter: &Option<ContextFilter>) -> (r: String)
        ensures
            r@ == filter_clause(*filter),
    {
        match filter {
            Some(f) => {
                let mut parts: Vec<String> = Vec::new();
                proof {
                    reveal_strlit("event_type IN ");
                    reveal_strlit("event_type NOT IN ");
                    reveal_strlit("sender IN ");
                    reveal_strlit("sender NOT IN ");
                }
                push_list_clause(&mut parts, "event_type IN ", &f.types);
                push_list_clause(&mut parts, "event_type NOT IN ", &f.not_types);
                push_list_clause(&mut parts, "sender IN ", &f.senders);
                push_list_clause(&mut parts, "sender NOT IN ", &f.not_senders);
                assert(parts@.map_values(|s: String| s@) =~= filter_clauses(*f));
                if parts.len() > 0 {
                    let joined = join_and(&parts);
                    proof { reveal_strlit(" AND ("); reveal_strlit(")"); }
                    concat3(" AND (", joined.as_str(), ")")
                } else {
                    String::new()
                }
            },
            None => String::new(),
        }
    }

    /// The query for the `limit` events before the event, newest first.
    pub fn context_before_query(&self, filter_clause: &str, limit: u32) -> (r: String)
        ensures
            r@ == "SELECT * FROM event WHERE room_id = $room_id AND origin_server_ts < $timestamp"@ + filter_clause@
                + " ORDER BY origin_server_ts DESC LIMIT "@ + decimal_digits(limit as nat),
    {
        let n = format_u64(limit as u64);
        proof {
            reveal_strlit("SELECT * FROM event WHERE room_id = $room_id AND origin_server_ts < $timestamp");
            reveal_strlit(" ORDER BY origin_server_ts DESC LIMIT ");
        }
        let mut q = concat3(
            "SELECT * FROM event WHERE room_id = $room_id AND origin_server_ts < $timestamp",
            filter_clause,
            " ORDER BY origin_server_ts DESC LIMIT ",
        );
        q.append(n.as_str());
        q
    }

    /// The query for the `limit` events after the event, oldest first.
    pub fn context_after_query(&self, filter_clause: &str, limit: u32) -> (r: String)
        ensures
            r@ == "SELECT * FROM event WHERE room_id = $room_id AND origin_server_ts > $timestamp"@ + filter_clause@
                + " ORDER BY origin_server_ts ASC LIMIT "@ + decimal_digits(limit as nat),
    {
        let n = format_u64(limit as u64);
        proof {
            reveal_strlit("SELECT * FROM event WHERE room_id = $room_id AND origin_server_ts > $timestamp");
            reveal_strlit(" ORDER BY origin_server_ts ASC LIMIT ");
        }
        let mut q = concat3(
            "SELECT * FROM event WHERE room_id = $room_id AND origin_server_ts > $timestamp",
            filter_clause,
            " ORDER BY origin_server_ts ASC LIMIT ",
        );
        q.append(n.as_str());
        q
    }

    /// The time of the event the context is for: the event must exist.
    pub fn context_event_time(&self, event_id: &str, event_time: Option<i64>) -> (r: Result<i64, RepositoryError>)
        ensures
            match event_time {
                Some(t) => r == Ok::<i64, RepositoryError>(t),
                None => r.is_err() && is_not_found(r->Err_0, "Event"@, event_id@),
            },
    {
        match event_time {
            Some(t) => Ok(t),
            None => {
                proof { reveal_strlit("Event"); }
                Err(not_found("Event", event_id))
            },
        }
    }

    /// The context of an event from the events before it, newest first as
    /// read, the event, and the events after it: the events before are
    /// returned oldest first.
    pub fn get_room_context<E>(&self, before_newest_first: Vec<E>, event: E, after: Vec<E>) -> (r: RoomContext<E>)
        ensures
            r.events_before@ == before_newest_first@.reverse(),
            r.event == event,
            r.events_after@ == after@,
    {
        RoomContext { events_before: reversed(before_newest_first), event, events_after: after }
    }
}

} // verus!
