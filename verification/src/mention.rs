//! Mentions: which room members can be mentioned by name.
use vstd::prelude::*;
use crate::pusher::MemberRow;

verus! {

/// The `(user, display name)` pairs of the rows that have both, with a
/// non-empty display name, in order.
pub open spec fn mentionable(rows: Seq<MemberRow>) -> Seq<(Seq<char>, Seq<char>)>
    decreases rows.len(),
{
    if rows.len() == 0 {
        Seq::empty()
    } else {
        let rest = mentionable(rows.drop_last());
        let row = rows.last();
        match (row.user_id, row.display_name) {
            (Some(u), Some(d)) => if d@.len() > 0 { rest.push((u@, d@)) } else { rest },
            _ => rest,
        }
    }
}

/// The user ids that the rows hold, in order.
pub open spec fn row_user_ids(rows: Seq<Option<String>>) -> Seq<Seq<char>>
    decreases rows.len(),
{
    if rows.len() == 0 {
        Seq::empty()
    } else {
        let rest = row_user_ids(rows.drop_last());
        match rows.last() {
            Some(u) => rest.push(u@),
            None => rest,
        }
    }
}

/// Mentions; the handle `D` is what the caller reads and writes the store with.
pub struct MentionRepository<D> {
    db: D,
}

impl<D> MentionRepository<D> {
    /// The store handle this repository was made with.
    pub closed spec fn handle(&self) -> D {
        self.db
    }

    pub fn new(db: D) -> (r: Self)
        ensures
            r.handle() == db,
    {
        MentionRepository { db }
    }

    /// The store handle.
    pub fn db(&self) -> (r: &D)
        ensures
            *r == self.handle(),
    {
        &self.db
    }

    /// The joined members that can be mentioned by name: those with a
    /// non-empty display name.
    pub fn get_room_members_for_mentions(&self, rows: &Vec<MemberRow>) -> (r: Vec<(String, String)>)
        ensures
            r@.len() == mentionable(rows@).len(),
            forall|i: int| 0 <= i < r@.len() ==> ((#[trigger] r@[i]).0@, r@[i].1@) == mentionable(rows@)[i],
    {
        let mut out: Vec<(String, String)> = Vec::new();
        let mut i: usize = 0;
        while i < rows.len()
            invariant
                i <= rows@.len(),
                out@.len() == mentionable(rows@.subrange(0, i as int)).len(),
                forall|k: int| 0 <= k < out@.len() ==> ((#[trigger] out@[k]).0@, out@[k].1@)
                    == mentionable(rows@.subrange(0, i as int))[k],
            decreases rows@.len() - i,
        {
            assert(rows@.subrange(0, i + 1).drop_last() =~= rows@.subrange(0, i as int));
            match (&rows[i].user_id, &rows[i].display_name) {
                (Some(u), Some(d)) => {
                    if d.as_str().unicode_len() > 0 {
                        out.push((u.clone(), d.clone()));
                    }
                },
                _ => {},
            }
            i = i + 1;
        }
        assert(rows@.subrange(0, rows@.len() as int) =~= rows@);
        out
    }

    /// The user ids of the member rows that have one.
    pub fn validate_mentioned_users(&self, rows: &Vec<Option<String>>) -> (r: Vec<String>)
        ensures
            r@.len() == row_user_ids(rows@).len(),
            forall|i: int| 0 <= i < r@.len() ==> (#[trigger] r@[i])@ == row_user_ids(rows@)[i],
    {
        let mut out: Vec<String> = Vec::new();
        let mut i: usize = 0;
        while i < rows.len()
            invariant
                i <= rows@.len(),
                out@.len() == row_user_ids(rows@.subrange(0, i as int)).len(),
                forall|k: int| 0 <= k < out@.len() ==> (#[trigger] out@[k])@ == row_user_ids(
                    rows@.subrange(0, i as int),
                )[k],
            decreases rows@.len() - i,
        {
            assert(rows@.subrange(0, i + 1).drop_last() =~= rows@.subrange(0, i as int));
            match &rows[i] {
                Some(u) => { out.push(u.clone()); },
                None => {},
            }
            i = i + 1;
        }
        assert(rows@.subrange(0, rows@.len() as int) =~= rows@);
        out
    }
}

} // verus!
