//! The room facts that push delivery reads: members, power levels, names.
use vstd::prelude::*;
use crate::error::concat2;
use crate::membership::clone_opt;

verus! {

/// A joined member of a room, as push delivery sees it.
#[derive(Debug, Clone)]
pub struct RoomMember {
    pub user_id: String,
    pub display_name: Option<String>,
    pub power_level: i64,
}

/// A membership row as read for push delivery: the user id and display
/// name, each absent when the row lacks it.
#[derive(Debug)]
pub struct MemberRow {
    pub user_id: Option<String>,
    pub display_name: Option<String>,
}

/// The members that rows with a user id give, in order, each at level 0.
pub open spec fn members_of_rows(rows: Seq<MemberRow>) -> Seq<(Seq<char>, Option<Seq<char>>)>
    decreases rows.len(),
{
    if rows.len() == 0 {
        Seq::empty()
    } else {
        let rest = members_of_rows(rows.drop_last());
        let row = rows.last();
        match row.user_id {
            Some(u) => rest.push((u@, match row.display_name {
                Some(d) => Some(d@),
                None => None,
            })),
            None => rest,
        }
    }
}

/// The user levels that have a number, in order.
pub open spec fn numeric_levels(rows: Seq<(String, Option<i64>)>) -> Seq<(Seq<char>, i64)>
    decreases rows.len(),
{
    if rows.len() == 0 {
        Seq::empty()
    } else {
        let rest = numeric_levels(rows.drop_last());
        match rows.last().1 {
            Some(l) => rest.push((rows.last().0@, l)),
            None => rest,
        }
    }
}

/// Pushers, members and room facts for push delivery; the handle `D` is
/// what the caller reads the store with.
pub struct PusherRepository<D> {
    db: D,
}

impl<D> PusherRepository<D> {
    /// The store handle this repository was made with.
    pub closed spec fn handle(&self) -> D {
        self.db
    }

    pub fn new(db: D) -> (r: Self)
        ensures
            r.handle() == db,
    {
        PusherRepository { db }
    }

    /// The store handle.
    pub fn db(&self) -> (r: &D)
        ensures
            *r == self.handle(),
    {
        &self.db
    }

    /// The members that the joined-membership rows of a room give: rows
    /// without a user id are skipped; every member is at level 0.
    pub fn get_room_members_for_push(&self, rows: &Vec<MemberRow>) -> (r: Vec<RoomMember>)
        ensures
            r@.len() == members_of_rows(rows@).len(),
            forall|i: int| 0 <= i < r@.len() ==> {
                let m = #[trigger] r@[i];
                &&& (m.user_id@, match m.display_name {
                    Some(d) => Some(d@),
                    None => None,
                }) == members_of_rows(rows@)[i]
                &&& m.power_level == 0
            },
    {
        let mut out: Vec<RoomMember> = Vec::new();
        let mut i: usize = 0;
        while i < rows.len()
            invariant
                i <= rows@.len(),
                out@.len() == members_of_rows(rows@.subrange(0, i as int)).len(),
                forall|k: int| 0 <= k < out@.len() ==> {
                    let m = #[trigger] out@[k];
                    &&& (m.user_id@, match m.display_name {
                        Some(d) => Some(d@),
                        None => None,
                    }) == members_of_rows(rows@.subrange(0, i as int))[k]
                    &&& m.power_level == 0
                },
            decreases rows@.len() - i,
        {
            assert(rows@.subrange(0, i + 1).drop_last() =~= rows@.subrange(0, i as int));
            match &rows[i].user_id {
                Some(u) => {
                    let dn = clone_opt(&rows[i].display_name);
                    out.push(RoomMember { user_id: u.clone(), display_name: dn, power_level: 0 });
                },
                None => {},
            }
            i = i + 1;
        }
        assert(rows@.subrange(0, rows@.len() as int) =~= rows@);
        out
    }

    /// The user levels of a power-levels event that are numbers.
    pub fn get_room_power_levels(&self, users: &Vec<(String, Option<i64>)>) -> (r: Vec<(String, i64)>)
        ensures
            r@.len() == numeric_levels(users@).len(),
            forall|i: int| 0 <= i < r@.len() ==> ((#[trigger] r@[i]).0@, r@[i].1) == numeric_levels(users@)[i],
    {
        let mut out: Vec<(String, i64)> = Vec::new();
        let mut i: usize = 0;
        while i < users.len()
            invariant
                i <= users@.len(),
                out@.len() == numeric_levels(users@.subrange(0, i as int)).len(),
                forall|k: int| 0 <= k < out@.len() ==> ((#[trigger] out@[k]).0@, out@[k].1)
                    == numeric_levels(users@.subrange(0, i as int))[k],
            decreases users@.len() - i,
        {
            assert(users@.subrange(0, i + 1).drop_last() =~= users@.subrange(0, i as int));
            match users[i].1 {
                Some(l) => {
                    out.push((users[i].0.clone(), l));
                },
                None => {},
            }
            i = i + 1;
        }
        assert(users@.subrange(0, users@.len() as int) =~= users@);
        out
    }

    /// The name of a room: its name event's, else `Room ` and its id.
    pub fn get_room_name(&self, room_id: &str, name: Option<String>) -> (r: String)
        ensures
            r@ == match name {
                Some(n) => n@,
                None => "Room "@ + room_id@,
            },
    {
        match name {
            Some(n) => n,
            None => concat2("Room ", room_id),
        }
    }
}

} // verus!
