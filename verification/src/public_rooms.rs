//! The public room directory: listing pages, pagination tokens, and the
//! directory visibility of rooms.
use vstd::prelude::*;
use crate::error::owned;
use crate::numeric::{parse_u32, parse_u32_spec, format_u64, decimal_digits, lemma_parse_unsigned_decimal, lemma_decimal_digits_props};
use crate::text::str_eq;

verus! {

/// A page of the public room directory.
#[derive(Debug)]
pub struct PublicRoomsResponse {
    pub chunk: Vec<PublicRoomEntry>,
    pub next_batch: Option<String>,
    pub prev_batch: Option<String>,
    pub total_room_count_estimate: Option<u64>,
}

/// A room as the directory lists it.
#[derive(Debug)]
pub struct PublicRoomEntry {
    pub room_id: String,
    pub name: Option<String>,
    pub topic: Option<String>,
    pub canonical_alias: Option<String>,
    pub num_joined_members: u32,
    pub avatar_url: Option<String>,
    pub world_readable: bool,
    pub guest_can_join: bool,
    pub join_rule: String,
    pub room_type: Option<String>,
}

/// What a directory listing asks for.
#[derive(Debug)]
pub struct PublicRoomsFilter {
    pub limit: Option<u32>,
    pub since: Option<String>,
    pub server: Option<String>,
    pub include_all_known_networks: Option<bool>,
    pub third_party_instance_id: Option<String>,
}

/// Whether a room is listed in the directory.
#[derive(Debug, Clone, Copy, PartialEq, Eq, Structural)]
pub enum RoomDirectoryVisibility {
    Public,
    Private,
}

/// The directory details of a room that can be updated.
#[derive(Debug)]
pub struct RoomDirectoryInfo {
    pub name: Option<String>,
    pub topic: Option<String>,
    pub avatar_url: Option<String>,
    pub canonical_alias: Option<String>,
    pub join_rule: String,
    pub room_type: Option<String>,
}

/// What the directory shows of one room, with its visibility.
#[derive(Debug)]
pub struct PublicRoomInfo {
    pub room_id: String,
    pub name: Option<String>,
    pub topic: Option<String>,
    pub avatar_url: Option<String>,
    pub canonical_alias: Option<String>,
    pub num_joined_members: u32,
    pub world_readable: bool,
    pub guest_can_join: bool,
    pub join_rule: String,
    pub room_type: Option<String>,
    pub visibility: RoomDirectoryVisibility,
}

/// The stored name of a visibility.
pub open spec fn directory_visibility_name(v: RoomDirectoryVisibility) -> Seq<char> {
    match v {
        RoomDirectoryVisibility::Public => "public"@,
        RoomDirectoryVisibility::Private => "private"@,
    }
}

impl RoomDirectoryVisibility {
    /// The stored name of the visibility.
    pub fn as_str(&self) -> (r: &'static str)
        ensures
            r@ == directory_visibility_name(*self),
    {
        match self {
            RoomDirectoryVisibility::Public => "public",
            RoomDirectoryVisibility::Private => "private",
        }
    }

    /// The visibility a stored name denotes, if any.
    pub fn from_stored(name: Option<&str>) -> (r: Option<RoomDirectoryVisibility>)
        ensures
            r == match name {
                Some(n) => if n@ == "public"@ {
                    Some(RoomDirectoryVisibility::Public)
                } else if n@ == "private"@ {
                    Some(RoomDirectoryVisibility::Private)
                } else {
                    None
                },
                None => None,
            },
    {
        match name {
            Some(n) => if str_eq(n, "public") {
                Some(RoomDirectoryVisibility::Public)
            } else if str_eq(n, "private") {
                Some(RoomDirectoryVisibility::Private)
            } else {
                None
            },
            None => None,
        }
    }
}

/// The smaller of `a` and `b`.
pub open spec fn min_u32(a: u32, b: u32) -> u32 {
    if a <= b { a } else { b }
}

/// The text that `str::to_lowercase` makes of `s`.
pub uninterp spec fn unicode_lowercase(s: Seq<char>) -> Seq<char>;

/// `str::to_lowercase`: the text with every character lowercased as
/// Unicode defines it.
#[verifier::external_body]
fn to_lowercase(s: &str) -> (r: String)
    ensures
        r@ == unicode_lowercase(s@),
{
    s.to_lowercase()
}

/// The public room directory; the handle `D` is what the caller reads and
/// writes the store with.
pub struct PublicRoomsRepository<D> {
    db: D,
}

impl<D> PublicRoomsRepository<D> {
    /// The store handle this repository was made with.
    pub closed spec fn handle(&self) -> D {
        self.db
    }

    pub fn new(db: D) -> (r: Self)
        ensures
            r.handle() == db,
    {
        PublicRoomsRepository { db }
    }

    /// The store handle.
    pub fn db(&self) -> (r: &D)
        ensures
            *r == self.handle(),
    {
        &self.db
    }

    /// The offset that a `since` token carries: its decimal number, when it
    /// is one that fits in 32 bits.
    pub fn parse_pagination_token(&self, token: Option<&str>) -> (r: Option<u32>)
        ensures
            r == match token {
                Some(t) => parse_u32_spec(t@),
                None => None,
            },
    {
        match token {
            Some(t) => parse_u32(t),
            None => None,
        }
    }

    /// The token of an offset: its decimal text, which reads back as the offset.
    pub fn generate_pagination_token(&self, offset: u32) -> (r: String)
        ensures
            r@ == decimal_digits(offset as nat),
            parse_u32_spec(r@) == Some(offset),
    {
        proof {
            lemma_parse_unsigned_decimal(offset as nat);
            lemma_decimal_digits_props(offset as nat);
        }
        format_u64(offset as u64)
    }

    /// The page size and offset of a listing: the limit, 10 by default and
    /// at most 100; the offset from the `since` token, else 0.
    pub fn public_rooms_request(&self, limit: Option<u32>, since: Option<&str>) -> (r: (u32, u32))
        ensures
            r.0 == min_u32(limit.unwrap_or(10), 100),
            r.1 == match since {
                Some(t) => match parse_u32_spec(t@) {
                    Some(o) => o,
                    None => 0,
                },
                None => 0,
            },
    {
        let l = match limit {
            Some(l) => l,
            None => 10,
        };
        let l = if l <= 100 { l } else { 100 };
        let offset = match self.parse_pagination_token(since) {
            Some(o) => o,
            None => 0,
        };
        (l, offset)
    }

    /// A page of the directory from the rooms fetched at `offset` (one
    /// more than `limit` is fetched to learn whether a next page exists):
    /// at most `limit` rooms, a next token when more were fetched, a
    /// previous token when the offset is not 0.
    pub fn public_rooms_page(
        &self,
        rooms: Vec<PublicRoomEntry>,
        limit: u32,
        offset: u32,
        total_count: u64,
    ) -> (r: PublicRoomsResponse)
        requires
            rooms@.len() > limit ==> offset + limit <= u32::MAX,
        ensures
            r.chunk@ == if rooms@.len() > limit { rooms@.subrange(0, limit as int) } else { rooms@ },
            r.next_batch.is_some() <==> rooms@.len() > limit,
            r.next_batch.is_some() ==> r.next_batch.unwrap()@ == decimal_digits((offset + limit) as nat),
            r.prev_batch.is_some() <==> offset > 0,
            r.prev_batch.is_some() ==> r.prev_batch.unwrap()@ == decimal_digits(
                (if offset >= limit { offset - limit } else { 0 }) as nat,
            ),
            r.total_room_count_estimate == Some(total_count),
    {
        let has_more = rooms.len() > limit as usize;
        let mut chunk = rooms;
        if has_more {
            chunk.truncate(limit as usize);
        }
        let next_batch = if has_more {
            Some(self.generate_pagination_token(offset + limit))
        } else {
            None
        };
        let prev_batch = if offset > 0 {
            let back = if offset >= limit { offset - limit } else { 0 };
            Some(self.generate_pagination_token(back))
        } else {
            None
        };
        PublicRoomsResponse { chunk, next_batch, prev_batch, total_room_count_estimate: Some(total_count) }
    }

    /// The size of a search: the limit, 10 by default and at most 100.
    pub fn search_limit(&self, limit: Option<u32>) -> (r: u32)
        ensures
            r == min_u32(limit.unwrap_or(10), 100),
    {
        let l = match limit {
            Some(l) => l,
            None => 10,
        };
        if l <= 100 { l } else { 100 }
    }

    /// The size of a listing for another server: the limit, 100 by default
    /// and at most 500.
    pub fn federation_limit(&self, limit: Option<u32>) -> (r: u32)
        ensures
            r == min_u32(limit.unwrap_or(100), 500),
    {
        let l = match limit {
            Some(l) => l,
            None => 100,
        };
        if l <= 500 { l } else { 500 }
    }

    /// A page without pagination: a search result or a listing for another
    /// server.
    pub fn unpaged_response(&self, chunk: Vec<PublicRoomEntry>) -> (r: PublicRoomsResponse)
        ensures
            r.chunk == chunk,
            r.next_batch.is_none(),
            r.prev_batch.is_none(),
            r.total_room_count_estimate.is_none(),
    {
        PublicRoomsResponse { chunk, next_batch: None, prev_batch: None, total_room_count_estimate: None }
    }

    /// The number of public rooms from the store's count (absent: 0).
    pub fn public_rooms_count(&self, count: Option<i64>) -> (r: u64)
        ensures
            r == match count {
                Some(c) => c as u64,
                None => 0,
            },
    {
        match count {
            Some(c) => c as u64,
            None => 0,
        }
    }

    /// The visibility a stored name gives a room in the directory.
    pub fn get_room_directory_visibility(&self, stored: Option<&str>) -> (r: Option<RoomDirectoryVisibility>)
        ensures
            r == match stored {
                Some(n) => if n@ == "public"@ {
                    Some(RoomDirectoryVisibility::Public)
                } else if n@ == "private"@ {
                    Some(RoomDirectoryVisibility::Private)
                } else {
                    None
                },
                None => None,
            },
    {
        RoomDirectoryVisibility::from_stored(stored)
    }

    /// The lowercased name and topic a room is searched by.
    pub fn search_index_fields(&self, name: &str, topic: &str) -> (r: (String, String))
        ensures
            r.0@ == unicode_lowercase(name@),
            r.1@ == unicode_lowercase(topic@),
    {
        (to_lowercase(name), to_lowercase(topic))
    }
}

/// A token made for an offset reads back as that offset.
pub proof fn law_pagination_token_roundtrip(offset: u32)
    ensures
        parse_u32_spec(decimal_digits(offset as nat)) == Some(offset),
{
    lemma_parse_unsigned_decimal(offset as nat);
}

} // verus!
