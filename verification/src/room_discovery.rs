//! Room discovery: which directory listing answers a request, who may list
//! a room, and what the directory shows of a room.
use vstd::prelude::*;
use std::sync::Arc;
use crate::error::{RepositoryError, owned, is_validation_error};
use crate::membership::{MembershipState, MembershipRepository};
use crate::public_rooms::{PublicRoomsRepository, PublicRoomsFilter, PublicRoomEntry, PublicRoomInfo, RoomDirectoryVisibility};
use crate::room::RoomRepository;
use crate::room_alias::RoomAliasRepository;
use crate::text::{is_blank, is_blank_exec, opt_view};

verus! {

/// The statistics the directory keeps of a room; `last_activity` is in
/// milliseconds since the UNIX epoch.
#[derive(Debug)]
pub struct RoomStatistics {
    pub room_id: String,
    pub member_count: u32,
    pub visibility: RoomDirectoryVisibility,
    pub last_activity: Option<i64>,
}

/// The listing that answers a directory request.
#[derive(Debug)]
pub enum DirectoryListing {
    /// The public rooms of a server, at most `limit` (as the directory
    /// bounds it for another server).
    Federation { server_name: String, limit: Option<u32> },
    /// A page of this server's public rooms.
    Paged { limit: Option<u32>, since: Option<String> },
    /// The public rooms that match a search term.
    Search { query: String, limit: Option<u32> },
}

/// Room discovery, with the repositories it consults.
pub struct RoomDiscoveryService<D> {
    public_rooms_repo: Arc<PublicRoomsRepository<D>>,
    room_repo: Arc<RoomRepository<D>>,
    room_alias_repo: Arc<RoomAliasRepository<D>>,
    membership_repo: Arc<MembershipRepository<D>>,
}

/// The directory entry of a room's public information.
pub open spec fn entry_of(info: PublicRoomInfo, e: PublicRoomEntry) -> bool {
    &&& e.room_id == info.room_id
    &&& e.name == info.name
    &&& e.topic == info.topic
    &&& e.canonical_alias == info.canonical_alias
    &&& e.num_joined_members == info.num_joined_members
    &&& e.avatar_url == info.avatar_url
    &&& e.world_readable == info.world_readable
    &&& e.guest_can_join == info.guest_can_join
    &&& e.join_rule == info.join_rule
    &&& e.room_type == info.room_type
}

impl<D> RoomDiscoveryService<D> {
    /// The repositories it was made with: public rooms, rooms, aliases,
    /// memberships.
    pub closed spec fn repos(&self) -> (
        Arc<PublicRoomsRepository<D>>,
        Arc<RoomRepository<D>>,
        Arc<RoomAliasRepository<D>>,
        Arc<MembershipRepository<D>>,
    ) {
        (self.public_rooms_repo, self.room_repo, self.room_alias_repo, self.membership_repo)
    }

    pub fn new(
        public_rooms_repo: Arc<PublicRoomsRepository<D>>,
        room_repo: Arc<RoomRepository<D>>,
        room_alias_repo: Arc<RoomAliasRepository<D>>,
        membership_repo: Arc<MembershipRepository<D>>,
    ) -> (r: Self)
        ensures
            r.repos() == (public_rooms_repo, room_repo, room_alias_repo, membership_repo),
    {
        RoomDiscoveryService { public_rooms_repo, room_repo, room_alias_repo, membership_repo }
    }

    /// The public-rooms repository.
    pub fn public_rooms_repo(&self) -> (r: &Arc<PublicRoomsRepository<D>>)
        ensures
            *r == self.repos().0,
    {
        &self.public_rooms_repo
    }

    /// The listing for a request: a server's rooms when the filter names a
    /// server, else a page of this server's rooms.
    pub fn get_public_rooms_list(&self, filter: PublicRoomsFilter) -> (r: DirectoryListing)
        ensures
            match filter.server {
                Some(s) => r == (DirectoryListing::Federation { server_name: s, limit: filter.limit }),
                None => r == (DirectoryListing::Paged { limit: filter.limit, since: filter.since }),
            },
    {
        match filter.server {
            Some(s) => DirectoryListing::Federation { server_name: s, limit: filter.limit },
            None => DirectoryListing::Paged { limit: filter.limit, since: filter.since },
        }
    }

    /// The listing for a search: a blank query lists as without one;
    /// otherwise the rooms that match it.
    pub fn search_rooms(&self, query: &str, filter: PublicRoomsFilter) -> (r: DirectoryListing)
        ensures
            is_blank(query@) ==> match filter.server {
                Some(s) => r == (DirectoryListing::Federation { server_name: s, limit: filter.limit }),
                None => r == (DirectoryListing::Paged { limit: filter.limit, since: filter.since }),
            },
            !is_blank(query@) ==> (r matches DirectoryListing::Search { query: q, limit } && q@ == query@
                && limit == filter.limit),
    {
        if is_blank_exec(query) {
            self.get_public_rooms_list(filter)
        } else {
            DirectoryListing::Search { query: owned(query), limit: filter.limit }
        }
    }

    /// The listing of another server's public rooms.
    pub fn get_federation_public_rooms(&self, server_name: &str, filter: PublicRoomsFilter) -> (r: DirectoryListing)
        ensures
            r matches DirectoryListing::Federation { server_name: s, limit } && s@ == server_name@ && limit
                == filter.limit,
    {
        DirectoryListing::Federation { server_name: owned(server_name), limit: filter.limit }
    }

    /// Whether a user with `membership` in the room may change its
    /// directory visibility: only a joined member may.
    pub fn set_room_directory_visibility(&self, membership: Option<MembershipState>) -> (r: Result<(), RepositoryError>)
        ensures
            membership == Some(MembershipState::Join) ==> r.is_ok(),
            membership != Some(MembershipState::Join) ==> r.is_err() && is_validation_error(
                r->Err_0,
                "user_id"@,
                "User not authorized to modify room directory visibility"@,
            ),
    {
        match membership {
            Some(MembershipState::Join) => Ok(()),
            _ => Err(RepositoryError::ValidationError {
                field: owned("user_id"),
                message: owned("User not authorized to modify room directory visibility"),
            }),
        }
    }

    /// The directory entry of a room: shown only when the room is public.
    pub fn get_room_directory_entry(&self, info: Option<PublicRoomInfo>) -> (r: Option<PublicRoomEntry>)
        ensures
            match info {
                Some(i) => if i.visibility == RoomDirectoryVisibility::Public {
                    r.is_some() && entry_of(i, r.unwrap())
                } else {
                    r.is_none()
                },
                None => r.is_none(),
            },
    {
        match info {
            Some(i) => match i.visibility {
                RoomDirectoryVisibility::Public => Some(PublicRoomEntry {
                    room_id: i.room_id,
                    name: i.name,
                    topic: i.topic,
                    canonical_alias: i.canonical_alias,
                    num_joined_members: i.num_joined_members,
                    avatar_url: i.avatar_url,
                    world_readable: i.world_readable,
                    guest_can_join: i.guest_can_join,
                    join_rule: i.join_rule,
                    room_type: i.room_type,
                }),
                RoomDirectoryVisibility::Private => None,
            },
            None => None,
        }
    }

    /// The public information of a room with its member count brought up
    /// to date, when there is any.
    pub fn update_room_directory_stats(&self, member_count: u32, info: Option<PublicRoomInfo>) -> (r: Option<PublicRoomInfo>)
        ensures
            match info {
                Some(i) => r == Some(PublicRoomInfo { num_joined_members: member_count, ..i }),
                None => r.is_none(),
            },
    {
        match info {
            Some(mut i) => {
                i.num_joined_members = member_count;
                Some(i)
            },
            None => None,
        }
    }

    /// The directory statistics of a room: private unless its public
    /// information says otherwise; no activity is tracked.
    pub fn get_room_statistics(&self, room_id: &str, member_count: u32, info: Option<&PublicRoomInfo>) -> (r: RoomStatistics)
        ensures
            r.room_id@ == room_id@,
            r.member_count == member_count,
            r.visibility == match info {
                Some(i) => i.visibility,
                None => RoomDirectoryVisibility::Private,
            },
            r.last_activity.is_none(),
    {
        let visibility = match info {
            Some(i) => i.visibility,
            None => RoomDirectoryVisibility::Private,
        };
        RoomStatistics { room_id: owned(room_id), member_count, visibility, last_activity: None }
    }
}

} // verus!
