//! Room aliases: their format, who may create them, and the checks made
//! before an alias or a room's canonical and alternative aliases are written.
use vstd::prelude::*;
use crate::error::{
    RepositoryError, owned, concat2, concat3, concat4, is_validation, is_conflict, is_unauthorized,
    is_not_found, validation, conflict, unauthorized, not_found,
};
use crate::text::{chars_of, str_eq, last_index_of, after_last_colon, after_last_colon_exec};

verus! {

/// Whether `c` is alphanumeric as `char::is_alphanumeric` defines it.
pub uninterp spec fn unicode_alphanumeric(c: char) -> bool;

/// `char::is_alphanumeric`: whether `c` is alphabetic or numeric in Unicode.
#[verifier::external_body]
pub(crate) fn is_alphanumeric(c: char) -> (r: bool)
    ensures
        r == unicode_alphanumeric(c),
{
    c.is_alphanumeric()
}

/// How many times `c` occurs in `s`.
pub open spec fn count_char(s: Seq<char>, c: char) -> nat
    decreases s.len(),
{
    if s.len() == 0 {
        0
    } else {
        count_char(s.drop_last(), c) + if s.last() == c { 1nat } else { 0nat }
    }
}

/// A character allowed in an alias: alphanumeric, or one of `extra`.
pub open spec fn alias_char_ok(c: char, extra: Seq<char>) -> bool {
    unicode_alphanumeric(c) || extra.contains(c)
}

/// The alias format: `#`, a non-empty localpart of alphanumerics and
/// `_.-`, exactly one `:`, and a non-empty server name of alphanumerics
/// and `_.-:`.
pub open spec fn alias_format_valid(a: Seq<char>) -> bool {
    let p = last_index_of(a, ':');
    &&& a.len() > 0 && a[0] == '#'
    &&& count_char(a, ':') == 1
    &&& 2 <= p && p + 1 < a.len()
    &&& forall|i: int| 1 <= i < p ==> alias_char_ok(#[trigger] a[i], "_.-"@)
    &&& forall|i: int| p < i < a.len() ==> alias_char_ok(#[trigger] a[i], "_.-:"@)
}

/// A user may create an alias on its own server only: both have a `:`, and
/// what follows the last one is the same.
pub open spec fn may_create_alias(alias: Seq<char>, user_id: Seq<char>) -> bool {
    after_last_colon(alias).is_some() && after_last_colon(user_id).is_some()
        && after_last_colon(alias) == after_last_colon(user_id)
}

/// An alias as stored; `created_at` is in milliseconds since the UNIX epoch.
#[derive(Debug)]
pub struct RoomAliasInfo {
    pub alias: String,
    pub room_id: String,
    pub creator: String,
    pub created_at: i64,
    pub servers: Vec<String>,
}

/// Room aliases: the decisions of each operation are here; the handle `D`
/// is what the caller reads and writes the store with.
pub struct RoomAliasRepository<D> {
    db: D,
}

fn char_allowed(c: char, extra: &str) -> (r: bool)
    ensures
        r == alias_char_ok(c, extra@),
{
    if is_alphanumeric(c) {
        return true;
    }
    let v = chars_of(extra);
    let mut i: usize = 0;
    while i < v.len()
        invariant
            v@ == extra@,
            i <= v@.len(),
            forall|j: int| 0 <= j < i ==> v@[j] != c,
        decreases v@.len() - i,
    {
        if v[i] == c {
            assert(extra@[i as int] == c);
            return true;
        }
        i = i + 1;
    }
    false
}

fn all_allowed(v: &Vec<char>, from: usize, to: usize, extra: &str) -> (r: bool)
    requires
        from <= to <= v@.len(),
    ensures
        r == forall|i: int| from <= i < to ==> alias_char_ok(#[trigger] v@[i], extra@),
{
    let mut i: usize = from;
    while i < to
        invariant
            from <= i <= to <= v@.len(),
            forall|j: int| from <= j < i ==> alias_char_ok(#[trigger] v@[j], extra@),
        decreases to - i,
    {
        if !char_allowed(v[i], extra) {
            return false;
        }
        i = i + 1;
    }
    true
}

impl<D> RoomAliasRepository<D> {
    /// The store handle this repository was made with.
    pub closed spec fn handle(&self) -> D {
        self.db
    }

    pub fn new(db: D) -> (r: Self)
        ensures
            r.handle() == db,
    {
        RoomAliasRepository { db }
    }

    /// The store handle.
    pub fn db(&self) -> (r: &D)
        ensures
            *r == self.handle(),
    {
        &self.db
    }

    /// Whether `alias` has the alias format.
    pub fn validate_alias_format(&self, alias: &str) -> (r: bool)
        ensures
            r == alias_format_valid(alias@),
    {
        proof { reveal_strlit("_.-"); reveal_strlit("_.-:"); }
        let v = chars_of(alias);
        let n = v.len();
        if n == 0 || v[0] != '#' {
            return false;
        }
        let mut count: usize = 0;
        let mut last: Option<usize> = None;
        let mut i: usize = 0;
        while i < n
            invariant
                v@ == alias@,
                n == v@.len(),
                i <= n,
                count <= i,
                count == count_char(v@.subrange(0, i as int), ':'),
                match last {
                    None => last_index_of(v@.subrange(0, i as int), ':') == -1,
                    Some(p) => last_index_of(v@.subrange(0, i as int), ':') == p && p < i,
                },
            decreases n - i,
        {
            assert(v@.subrange(0, i + 1).drop_last() =~= v@.subrange(0, i as int));
            if v[i] == ':' {
                count = count + 1;
                last = Some(i);
            }
            i = i + 1;
        }
        assert(v@.subrange(0, n as int) =~= v@);
        if count != 1 {
            return false;
        }
        let p = match last {
            Some(p) => p,
            None => { return false; },
        };
        if p < 2 || p + 1 >= n {
            return false;
        }
        all_allowed(&v, 1, p, "_.-") && all_allowed(&v, p + 1, n, "_.-:")
    }

    /// Whether `user_id` may create `alias`: only on its own server.
    pub fn can_create_alias(&self, alias: &str, user_id: &str) -> (r: bool)
        ensures
            r == may_create_alias(alias@, user_id@),
    {
        let server_name = match after_last_colon_exec(alias) {
            Some(s) => s,
            None => { return false; },
        };
        let user_server = match after_last_colon_exec(user_id) {
            Some(s) => s,
            None => { return false; },
        };
        str_eq(server_name.as_str(), user_server.as_str())
    }

    /// Whether an alias exists, from the count the store gave for it.
    pub fn alias_exists(&self, count: Option<i64>) -> (r: bool)
        ensures
            r == (match count {
                Some(c) => c > 0,
                None => false,
            }),
    {
        match count {
            Some(c) => c > 0,
            None => false,
        }
    }

    /// The alias record that `creator` may store for `room_id` at
    /// `now_millis`, or why not: a malformed alias, one that exists
    /// already, or one on another server than the creator's.
    pub fn create_alias(
        &self,
        alias: &str,
        room_id: &str,
        creator: &str,
        already_exists: bool,
        now_millis: i64,
    ) -> (r: Result<RoomAliasInfo, RepositoryError>)
        ensures
            !alias_format_valid(alias@) ==> r.is_err() && is_validation(
                r->Err_0,
                "alias"@,
                "Invalid alias format: "@ + alias@,
            ),
            alias_format_valid(alias@) && already_exists ==> r.is_err() && is_conflict(
                r->Err_0,
                "Room alias '"@ + alias@ + "' already exists"@,
            ),
            alias_format_valid(alias@) && !already_exists && !may_create_alias(alias@, creator@)
                ==> r.is_err() && is_unauthorized(
                r->Err_0,
                "User "@ + creator@ + " not authorized to create alias "@ + alias@,
            ),
            alias_format_valid(alias@) && !already_exists && may_create_alias(alias@, creator@)
                ==> r.is_ok() && ({
                let info = r->Ok_0;
                &&& info.alias@ == alias@
                &&& info.room_id@ == room_id@
                &&& info.creator@ == creator@
                &&& info.created_at == now_millis
                &&& info.servers@.len() == 1
                &&& Some(info.servers@[0]@) == after_last_colon(alias@)
            }),
    {
        if !self.validate_alias_format(alias) {
            return Err(validation("alias", concat2("Invalid alias format: ", alias).as_str()));
        }
        if already_exists {
            return Err(conflict(concat3("Room alias '", alias, "' already exists").as_str()));
        }
        if !self.can_create_alias(alias, creator) {
            return Err(unauthorized(concat4("User ", creator, " not authorized to create alias ", alias)));
        }
        let server_name = match after_last_colon_exec(alias) {
            Some(s) => s,
            None => {
                return Err(validation("alias", "Alias must contain server name"));
            },
        };
        let mut servers: Vec<String> = Vec::new();
        servers.push(server_name);
        Ok(RoomAliasInfo {
            alias: owned(alias),
            room_id: owned(room_id),
            creator: owned(creator),
            created_at: now_millis,
            servers,
        })
    }

    /// Deleting `alias` succeeds when the store removed a record for it.
    pub fn delete_alias(&self, alias: &str, removed: bool) -> (r: Result<(), RepositoryError>)
        ensures
            removed ==> r.is_ok(),
            !removed ==> r.is_err() && is_not_found(r->Err_0, "Room alias"@, alias@),
    {
        if !removed {
            return Err(not_found("Room alias", alias));
        }
        Ok(())
    }

    /// Whether `alias` may become the canonical alias of `room_id`: it must
    /// exist and point to the room. No alias (clearing it) is always fine.
    pub fn set_canonical_alias(
        &self,
        room_id: &str,
        alias: Option<&str>,
        exists: bool,
        resolved_room: Option<&str>,
    ) -> (r: Result<(), RepositoryError>)
        ensures
            alias.is_none() ==> r.is_ok(),
            alias.is_some() && !exists ==> r.is_err() && is_not_found(
                r->Err_0,
                "Room alias"@,
                alias.unwrap()@,
            ),
            alias.is_some() && exists && resolved_room.is_some() && resolved_room.unwrap()@
                != room_id@ ==> r.is_err() && is_validation(
                r->Err_0,
                "alias"@,
                "Alias does not point to this room"@,
            ),
            alias.is_some() && exists && (resolved_room.is_none() || resolved_room.unwrap()@
                == room_id@) ==> r.is_ok(),
    {
        match alias {
            None => Ok(()),
            Some(a) => {
                if !exists {
                    return Err(not_found("Room alias", a));
                }
                match resolved_room {
                    Some(rid) => {
                        if !str_eq(rid, room_id) {
                            return Err(validation("alias", "Alias does not point to this room"));
                        }
                        Ok(())
                    },
                    None => Ok(()),
                }
            },
        }
    }

    /// Whether `alt_aliases` may become the alternative aliases of
    /// `room_id`, given for each (in order) whether it exists and the room
    /// it resolves to: the first that does not exist or points elsewhere
    /// is reported.
    pub fn set_alternative_aliases(
        &self,
        room_id: &str,
        alt_aliases: &Vec<String>,
        lookups: &Vec<(bool, Option<String>)>,
    ) -> (r: Result<(), RepositoryError>)
        requires
            lookups@.len() == alt_aliases@.len(),
        ensures
            r.is_ok() <==> forall|i: int| 0 <= i < alt_aliases@.len() ==> alias_points_here(
                #[trigger] lookups@[i],
                room_id@,
            ),
            r.is_err() ==> exists|i: int|
                0 <= i < alt_aliases@.len() && !alias_points_here(#[trigger] lookups@[i], room_id@)
                    && (forall|j: int| 0 <= j < i ==> alias_points_here(lookups@[j], room_id@))
                    && if !lookups@[i].0 {
                    is_not_found(r->Err_0, "Room alias"@, alt_aliases@[i]@)
                } else {
                    is_validation(
                        r->Err_0,
                        "alias"@,
                        "Alias "@ + alt_aliases@[i]@ + " does not point to this room"@,
                    )
                },
    {
        let mut i: usize = 0;
        while i < alt_aliases.len()
            invariant
                lookups@.len() == alt_aliases@.len(),
                i <= alt_aliases@.len(),
                forall|j: int| 0 <= j < i ==> alias_points_here(#[trigger] lookups@[j], room_id@),
            decreases alt_aliases@.len() - i,
        {
            let (exists, resolved) = (&lookups[i].0, &lookups[i].1);
            if !*exists {
                let e = not_found("Room alias", alt_aliases[i].as_str());
                assert(!alias_points_here(lookups@[i as int], room_id@));
                return Err(e);
            }
            match resolved {
                Some(rid) => {
                    if !str_eq(rid.as_str(), room_id) {
                        let e = validation(
                            "alias",
                            concat3("Alias ", alt_aliases[i].as_str(), " does not point to this room").as_str(),
                        );
                        assert(!alias_points_here(lookups@[i as int], room_id@));
                        return Err(e);
                    }
                },
                None => {},
            }
            i = i + 1;
        }
        Ok(())
    }

    /// The cache key of an alias resolution.
    pub fn alias_cache_key(&self, alias: &str) -> (r: String)
        ensures
            r@ == "alias_resolution:"@ + alias@,
    {
        concat2("alias_resolution:", alias)
    }
}

/// An alias lookup `(exists, resolved room)` that allows it for `room_id`.
pub open spec fn alias_points_here(lookup: (bool, Option<String>), room_id: Seq<char>) -> bool {
    lookup.0 && match lookup.1 {
        Some(rid) => rid@ == room_id,
        None => true,
    }
}

} // verus!
