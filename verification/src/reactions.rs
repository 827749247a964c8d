//! Reactions (annotations): their per-key aggregation on an event.
use vstd::prelude::*;
use crate::error::owned;

verus! {

/// The reactions with one key on an event: how many, and by whom.
#[derive(Debug)]
pub struct ReactionAggregation {
    pub key: String,
    pub count: u64,
    pub users: Vec<String>,
}

/// The reactions on an event, one aggregation per key.
#[derive(Debug)]
pub struct ReactionSummary {
    pub target_event_id: String,
    pub reactions: Vec<ReactionAggregation>,
}

/// A grouped reaction row as the store gives it: the key, the count and
/// the senders, each absent when the row lacks it (a sender that is not
/// text is absent too).
#[derive(Debug)]
pub struct ReactionRow {
    pub reaction_key: Option<String>,
    pub count: Option<u64>,
    pub users: Option<Vec<Option<String>>>,
}

/// The text senders of a row, in order.
pub open spec fn text_users(users: Seq<Option<String>>) -> Seq<Seq<char>>
    decreases users.len(),
{
    if users.len() == 0 {
        Seq::empty()
    } else {
        let rest = text_users(users.drop_last());
        match users.last() {
            Some(u) => rest.push(u@),
            None => rest,
        }
    }
}

/// The aggregations that complete rows give, in order: `(key, count, senders)`.
pub open spec fn aggregations_of(rows: Seq<ReactionRow>) -> Seq<(Seq<char>, u64, Seq<Seq<char>>)>
    decreases rows.len(),
{
    if rows.len() == 0 {
        Seq::empty()
    } else {
        let rest = aggregations_of(rows.drop_last());
        let row = rows.last();
        match (row.reaction_key, row.count, row.users) {
            (Some(k), Some(c), Some(u)) => rest.push((k@, c, text_users(u@))),
            _ => rest,
        }
    }
}

/// `a` is the aggregation `(key, count, senders)`.
pub open spec fn aggregation_is(a: ReactionAggregation, t: (Seq<char>, u64, Seq<Seq<char>>)) -> bool {
    &&& a.key@ == t.0
    &&& a.count == t.1
    &&& a.users@.len() == t.2.len()
    &&& forall|j: int| 0 <= j < a.users@.len() ==> (#[trigger] a.users@[j])@ == t.2[j]
}

fn collect_users(users: &Vec<Option<String>>) -> (r: Vec<String>)
    ensures
        r@.len() == text_users(users@).len(),
        forall|j: int| 0 <= j < r@.len() ==> (#[trigger] r@[j])@ == text_users(users@)[j],
{
    let mut out: Vec<String> = Vec::new();
    let mut i: usize = 0;
    while i < users.len()
        invariant
            i <= users@.len(),
            out@.len() == text_users(users@.subrange(0, i as int)).len(),
            forall|j: int| 0 <= j < out@.len() ==> (#[trigger] out@[j])@ == text_users(users@.subrange(0, i as int))[j],
        decreases users@.len() - i,
    {
        assert(users@.subrange(0, i + 1).drop_last() =~= users@.subrange(0, i as int));
        match &users[i] {
            Some(u) => { out.push(u.clone()); },
            None => {},
        }
        i = i + 1;
    }
    assert(users@.subrange(0, users@.len() as int) =~= users@);
    out
}

/// Reactions; the handle `D` is what the caller reads and writes the store with.
pub struct ReactionsRepository<D> {
    db: D,
}

impl<D> ReactionsRepository<D> {
    /// The store handle this repository was made with.
    pub closed spec fn handle(&self) -> D {
        self.db
    }

    pub fn new(db: D) -> (r: Self)
        ensures
            r.handle() == db,
    {
        ReactionsRepository { db }
    }

    /// The store handle.
    pub fn db(&self) -> (r: &D)
        ensures
            *r == self.handle(),
    {
        &self.db
    }

    /// The aggregations of the grouped rows of an event's reactions: rows
    /// missing a key, count or senders are skipped; senders that are not
    /// text are dropped.
    pub fn get_reaction_aggregations(&self, rows: &Vec<ReactionRow>) -> (r: Vec<ReactionAggregation>)
        ensures
            r@.len() == aggregations_of(rows@).len(),
            forall|i: int| 0 <= i < r@.len() ==> aggregation_is(#[trigger] r@[i], aggregations_of(rows@)[i]),
    {
        let mut out: Vec<ReactionAggregation> = Vec::new();
        let mut i: usize = 0;
        while i < rows.len()
            invariant
                i <= rows@.len(),
                out@.len() == aggregations_of(rows@.subrange(0, i as int)).len(),
                forall|k: int| 0 <= k < out@.len() ==> aggregation_is(
                    #[trigger] out@[k],
                    aggregations_of(rows@.subrange(0, i as int))[k],
                ),
            decreases rows@.len() - i,
        {
            assert(rows@.subrange(0, i + 1).drop_last() =~= rows@.subrange(0, i as int));
            match (&rows[i].reaction_key, rows[i].count, &rows[i].users) {
                (Some(k), Some(c), Some(u)) => {
                    let users = collect_users(u);
                    out.push(ReactionAggregation { key: k.clone(), count: c, users });
                },
                _ => {},
            }
            i = i + 1;
        }
        assert(rows@.subrange(0, rows@.len() as int) =~= rows@);
        out
    }

    /// The reaction summary of an event from its grouped rows.
    pub fn get_reaction_summary(&self, target_event_id: &str, rows: &Vec<ReactionRow>) -> (r: ReactionSummary)
        ensures
            r.target_event_id@ == target_event_id@,
            r.reactions@.len() == aggregations_of(rows@).len(),
            forall|i: int| 0 <= i < r.reactions@.len() ==> aggregation_is(
                #[trigger] r.reactions@[i],
                aggregations_of(rows@)[i],
            ),
    {
        ReactionSummary { target_event_id: owned(target_event_id), reactions: self.get_reaction_aggregations(rows) }
    }

    /// Whether a user reacted, from the store's count (absent: 0).
    pub fn has_user_reacted(&self, count: Option<u64>) -> (r: bool)
        ensures
            r == (count.is_some() && count.unwrap() > 0),
    {
        match count {
            Some(c) => c > 0,
            None => false,
        }
    }
}

} // verus!
