//! Media: what may be uploaded, who may read it, how thumbnails are made,
//! and the pending-upload flow.
use vstd::prelude::*;
use std::sync::Arc;
use crate::codec::{
    sha256_digest, sha256_of, new_uuid_v4, uuid_text_shape, image_decodes, jpeg_fill, jpeg_fill_error,
    jpeg_fit, jpeg_fit_error, jpeg_fill_thumbnail, jpeg_fit_thumbnail,
};
use crate::error::{RepositoryError, owned, concat2, concat3, concat4, is_validation};
use crate::membership::{MembershipState, MembershipRepository, clone_opt};
use crate::room::RoomRepository;
use crate::text::{str_eq, starts_with, has_char, has_char_exec, second_field, second_field_exec, is_prefix_of, opt_view};

verus! {

/// An error of a media operation, as the Matrix media API reports it.
#[derive(Debug)]
pub enum MediaError {
    NotFound,
    NotYetUploaded,
    TooLarge,
    UnsupportedFormat,
    Database(String),
    AccessDenied(String),
    InvalidOperation(String),
    Validation(String),
}

/// The text of a media error.
pub open spec fn media_error_text(e: MediaError) -> Seq<char> {
    match e {
        MediaError::NotFound => "Media not found"@,
        MediaError::NotYetUploaded => "Content not yet uploaded"@,
        MediaError::TooLarge => "Content too large"@,
        MediaError::UnsupportedFormat => "Unsupported format"@,
        MediaError::Database(m) => "Database error: "@ + m@,
        MediaError::AccessDenied(m) => "Access denied: "@ + m@,
        MediaError::InvalidOperation(m) => "Invalid operation: "@ + m@,
        MediaError::Validation(m) => "Validation error: "@ + m@,
    }
}

impl MediaError {
    /// The text of the error.
    pub fn message(&self) -> (r: String)
        ensures
            r@ == media_error_text(*self),
    {
        match self {
            MediaError::NotFound => owned("Media not found"),
            MediaError::NotYetUploaded => owned("Content not yet uploaded"),
            MediaError::TooLarge => owned("Content too large"),
            MediaError::UnsupportedFormat => owned("Unsupported format"),
            MediaError::Database(m) => concat2("Database error: ", m.as_str()),
            MediaError::AccessDenied(m) => concat2("Access denied: ", m.as_str()),
            MediaError::InvalidOperation(m) => concat2("Invalid operation: ", m.as_str()),
            MediaError::Validation(m) => concat2("Validation error: ", m.as_str()),
        }
    }
}

/// `e` carries the message `m` in the variant `v` (one of the three with text).
pub open spec fn media_error_is(e: MediaError, v: int, m: Seq<char>) -> bool {
    match e {
        MediaError::Database(t) => v == 0 && t@ == m,
        MediaError::AccessDenied(t) => v == 1 && t@ == m,
        MediaError::InvalidOperation(t) => v == 2 && t@ == m,
        MediaError::Validation(t) => v == 3 && t@ == m,
        _ => false,
    }
}

/// The media error a repository error becomes: not found, access denied
/// and invalid operation carry over; a validation error keeps `field:
/// message`; anything else is a database error with the error's text.
pub fn media_error_from(e: RepositoryError) -> (r: MediaError)
    ensures
        match e {
            RepositoryError::NotFound { .. } => r is NotFound,
            RepositoryError::AccessDenied { reason } => media_error_is(r, 1, reason@),
            RepositoryError::InvalidOperation { reason } => media_error_is(r, 2, reason@),
            RepositoryError::Validation { field, message } => media_error_is(r, 3, field@ + ": "@ + message@),
            _ => r is Database,
        },
{
    match e {
        RepositoryError::NotFound { .. } => MediaError::NotFound,
        RepositoryError::AccessDenied { reason } => MediaError::AccessDenied(reason),
        RepositoryError::InvalidOperation { reason } => MediaError::InvalidOperation(reason),
        RepositoryError::Validation { field, message } => MediaError::Validation(
            concat3(field.as_str(), ": ", message.as_str()),
        ),
        other => MediaError::Database(other.describe()),
    }
}

/// The result of an upload.
#[derive(Debug)]
pub struct MediaUploadResult {
    pub media_id: String,
    pub content_uri: String,
    pub content_type: String,
    pub content_length: u64,
}

/// The result of a download.
#[derive(Debug)]
pub struct MediaDownloadResult {
    pub content: Vec<u8>,
    pub content_type: String,
    pub content_length: u64,
    pub filename: Option<String>,
}

/// A thumbnail and its size.
#[derive(Debug)]
pub struct ThumbnailResult {
    pub thumbnail: Vec<u8>,
    pub content_type: String,
    pub width: u32,
    pub height: u32,
}

/// What a media cleanup removed.
#[derive(Debug)]
pub struct MediaCleanupResult {
    pub deleted_files: u64,
    pub freed_bytes: u64,
    pub deleted_thumbnails: u64,
}

/// Media statistics for monitoring.
#[derive(Debug)]
pub struct MediaStatistics {
    pub total_files: u64,
    pub total_size: u64,
    pub total_thumbnails: u64,
    pub thumbnail_size: u64,
    pub upload_count_24h: u64,
    pub download_count_24h: u64,
}

/// Media served to another server.
#[derive(Debug)]
pub struct MediaResponse {
    pub content: Vec<u8>,
    pub content_type: String,
    pub content_length: u64,
}

/// What is stored about a media item; times are milliseconds since the
/// UNIX epoch.
#[derive(Debug)]
pub struct MediaInfo {
    pub media_id: String,
    pub server_name: String,
    pub content_type: String,
    pub content_length: u64,
    pub upload_name: Option<String>,
    pub uploaded_by: String,
    pub created_at: i64,
    pub expires_at: Option<i64>,
    pub quarantined: Option<bool>,
    pub quarantined_by: Option<String>,
    pub quarantine_reason: Option<String>,
    pub quarantined_at: Option<i64>,
    pub is_idp_icon: Option<bool>,
}

/// Whether a pending upload has received its content.
#[derive(Debug, Clone, Copy, PartialEq, Eq, Structural)]
pub enum PendingUploadStatus {
    Pending,
    Completed,
}

/// A reservation for an upload; `expires_at` is in milliseconds since the
/// UNIX epoch.
#[derive(Debug)]
pub struct PendingUpload {
    pub media_id: String,
    pub server_name: String,
    pub created_by: String,
    pub expires_at: i64,
    pub status: PendingUploadStatus,
}

/// The largest media item served or stored, in bytes.
pub const MAX_MEDIA_SIZE: u64 = 50_000_000;

/// The largest media item that thumbnails are made of, in bytes.
pub const MAX_THUMBNAIL_SOURCE_SIZE: u64 = 20_000_000;

/// The largest upload accepted, in bytes (50 MiB).
pub const MAX_FILE_SIZE: u64 = 52_428_800;

/// The storage each user may fill, in bytes (5 GiB).
pub const DEFAULT_QUOTA: u64 = 5_368_709_120;

/// How long an upload reservation lasts: 24 hours, in milliseconds.
pub const PENDING_UPLOAD_MILLIS: i64 = 86_400_000;

/// The content types that may be uploaded.
pub open spec fn allowed_content_type(t: Seq<char>) -> bool {
    t == "image/jpeg"@ || t == "image/png"@ || t == "image/gif"@ || t == "image/webp"@ || t
        == "video/mp4"@ || t == "video/webm"@ || t == "audio/mp3"@ || t == "audio/ogg"@ || t
        == "application/pdf"@ || t == "text/plain"@
}

/// The checks of an upload that need no stored data: an allowed type, at
/// most 50 MiB, and a user id with a server part.
pub open spec fn upload_prechecks(user_id: Seq<char>, content_type: Seq<char>, content_length: u64) -> bool {
    allowed_content_type(content_type) && content_length <= MAX_FILE_SIZE && has_char(user_id, ':')
}

/// The server a user's storage is counted on: the second `:` field of its
/// id, else `localhost`.
pub open spec fn quota_server(user_id: Seq<char>) -> Seq<char> {
    match second_field(user_id) {
        Some(s) => s,
        None => "localhost"@,
    }
}

/// The lowercase hexadecimal digit of `d` (below 16).
pub open spec fn hex_digit(d: u8) -> char {
    if d < 10 {
        (('0' as u8) + d) as char
    } else {
        (('a' as u8) + d - 10) as char
    }
}

/// The lowercase hexadecimal text of `bytes`, two digits each.
pub open spec fn hex_of(bytes: Seq<u8>) -> Seq<char>
    decreases bytes.len(),
{
    if bytes.len() == 0 {
        Seq::empty()
    } else {
        hex_of(bytes.drop_last()).push(hex_digit(bytes.last() / 16)).push(hex_digit(bytes.last() % 16))
    }
}

fn hex_str(d: u8) -> (r: &'static str)
    requires
        d < 16,
    ensures
        r@ == seq![hex_digit(d)],
{
    match d {
        0 => {
            proof { reveal_strlit("0"); }
            "0"
        },
        1 => {
            proof { reveal_strlit("1"); }
            "1"
        },
        2 => {
            proof { reveal_strlit("2"); }
            "2"
        },
        3 => {
            proof { reveal_strlit("3"); }
            "3"
        },
        4 => {
            proof { reveal_strlit("4"); }
            "4"
        },
        5 => {
            proof { reveal_strlit("5"); }
            "5"
        },
        6 => {
            proof { reveal_strlit("6"); }
            "6"
        },
        7 => {
            proof { reveal_strlit("7"); }
            "7"
        },
        8 => {
            proof { reveal_strlit("8"); }
            "8"
        },
        9 => {
            proof { reveal_strlit("9"); }
            "9"
        },
        10 => {
            proof { reveal_strlit("a"); }
            "a"
        },
        11 => {
            proof { reveal_strlit("b"); }
            "b"
        },
        12 => {
            proof { reveal_strlit("c"); }
            "c"
        },
        13 => {
            proof { reveal_strlit("d"); }
            "d"
        },
        14 => {
            proof { reveal_strlit("e"); }
            "e"
        },
        15 => {
            proof { reveal_strlit("f"); }
            "f"
        },
        _ => {
            proof { reveal_strlit("f"); }
            "f"
        },
    }
}

/// The lowercase hexadecimal text of `bytes`.
pub fn hex_lower(bytes: &Vec<u8>) -> (r: String)
    ensures
        r@ == hex_of(bytes@),
{
    let mut s = owned("");
    proof { reveal_strlit(""); }
    let mut i: usize = 0;
    while i < bytes.len()
        invariant
            i <= bytes@.len(),
            s@ == hex_of(bytes@.subrange(0, i as int)),
        decreases bytes@.len() - i,
    {
        let b = bytes[i];
        let hi = hex_str(b / 16);
        let lo = hex_str(b % 16);
        proof {
            assert(bytes@.subrange(0, i + 1).drop_last() =~= bytes@.subrange(0, i as int));
        }
        s.append(hi);
        s.append(lo);
        i = i + 1;
    }
    assert(bytes@.subrange(0, bytes@.len() as int) =~= bytes@);
    s
}

/// What an accepted upload is stored as: a fresh id, the server of the
/// uploader, and the content's hash.
#[derive(Debug)]
pub struct UploadPlan {
    pub media_id: String,
    pub server_name: String,
    pub content_hash: String,
}

/// Media, with the repositories it consults and, for remote media, a
/// federation client; `M` is the media store and `F` the client.
pub struct MediaService<M, D, F> {
    media_repo: Arc<M>,
    room_repo: Arc<RoomRepository<D>>,
    membership_repo: Arc<MembershipRepository<D>>,
    federation_media_client: Option<Arc<F>>,
    homeserver_name: String,
}

impl<M, D, F> MediaService<M, D, F> {
    /// The media store it was made with.
    pub closed spec fn media_store(&self) -> Arc<M> {
        self.media_repo
    }

    /// The room repository it was made with.
    pub closed spec fn rooms(&self) -> Arc<RoomRepository<D>> {
        self.room_repo
    }

    /// The membership repository it was made with.
    pub closed spec fn memberships(&self) -> Arc<MembershipRepository<D>> {
        self.membership_repo
    }

    /// The federation client, if one is configured.
    pub closed spec fn federation_client(&self) -> Option<Arc<F>> {
        self.federation_media_client
    }

    /// The name of this homeserver.
    pub closed spec fn homeserver(&self) -> Seq<char> {
        self.homeserver_name@
    }

    /// A service on the given repositories for the homeserver `localhost`,
    /// without a federation client.
    pub fn new(
        media_repo: Arc<M>,
        room_repo: Arc<RoomRepository<D>>,
        membership_repo: Arc<MembershipRepository<D>>,
    ) -> (r: Self)
        ensures
            r.media_store() == media_repo,
            r.rooms() == room_repo,
            r.memberships() == membership_repo,
            r.federation_client().is_none(),
            r.homeserver() == "localhost"@,
    {
        MediaService {
            media_repo,
            room_repo,
            membership_repo,
            federation_media_client: None,
            homeserver_name: owned("localhost"),
        }
    }

    /// The same service with a federation client for remote media, for the
    /// homeserver `homeserver_name`.
    pub fn with_federation_client(self, client: Arc<F>, homeserver_name: String) -> (r: Self)
        ensures
            r.media_store() == self.media_store(),
            r.rooms() == self.rooms(),
            r.memberships() == self.memberships(),
            r.federation_client() == Some(client),
            r.homeserver() == homeserver_name@,
    {
        let mut s = self;
        s.federation_media_client = Some(client);
        s.homeserver_name = homeserver_name;
        s
    }

    /// The media store.
    pub fn media_repo(&self) -> (r: &Arc<M>)
        ensures
            *r == self.media_store(),
    {
        &self.media_repo
    }

    /// The name of this homeserver.
    pub fn homeserver_name(&self) -> (r: &str)
        ensures
            r@ == self.homeserver(),
    {
        self.homeserver_name.as_str()
    }

    /// The checks of an upload that need no stored data.
    pub fn upload_prechecks(&self, user_id: &str, content_type: &str, content_length: u64) -> (r: bool)
        ensures
            r == upload_prechecks(user_id@, content_type@, content_length),
    {
        let allowed = str_eq(content_type, "image/jpeg") || str_eq(content_type, "image/png")
            || str_eq(content_type, "image/gif") || str_eq(content_type, "image/webp")
            || str_eq(content_type, "video/mp4") || str_eq(content_type, "video/webm")
            || str_eq(content_type, "audio/mp3") || str_eq(content_type, "audio/ogg")
            || str_eq(content_type, "application/pdf") || str_eq(content_type, "text/plain");
        if !allowed {
            return false;
        }
        if content_length > MAX_FILE_SIZE {
            return false;
        }
        has_char_exec(user_id, ':')
    }

    /// The server whose storage counts for `user_id`.
    pub fn quota_server_name(&self, user_id: &str) -> (r: String)
        ensures
            r@ == quota_server(user_id@),
    {
        match second_field_exec(user_id) {
            Some(s) => s,
            None => owned("localhost"),
        }
    }

    /// Whether an upload is allowed: it passes the prechecks and, with the
    /// user's `current_usage`, stays within the 5 GiB quota.
    pub fn validate_media_upload(
        &self,
        user_id: &str,
        content_type: &str,
        content_length: u64,
        current_usage: u64,
    ) -> (r: bool)
        requires
            upload_prechecks(user_id@, content_type@, content_length) ==> current_usage + content_length
                <= u64::MAX,
        ensures
            r == (upload_prechecks(user_id@, content_type@, content_length) && current_usage
                + content_length <= DEFAULT_QUOTA),
    {
        if !self.upload_prechecks(user_id, content_type, content_length) {
            return false;
        }
        current_usage + content_length <= DEFAULT_QUOTA
    }

    /// How an upload that `validated` allows is stored: a fresh id, the
    /// server of the uploader (`localhost` when it has none) and the
    /// lowercase hex SHA-256 of the content. A refused upload is a
    /// validation error.
    pub fn upload_plan(&self, user_id: &str, content: &[u8], validated: bool) -> (r: Result<UploadPlan, RepositoryError>)
        ensures
            !validated ==> r.is_err() && is_validation(r->Err_0, "content"@, "Media upload not permitted"@),
            validated ==> r.is_ok() && ({
                let p = r->Ok_0;
                &&& uuid_text_shape(p.media_id@)
                &&& p.server_name@ == quota_server(user_id@)
                &&& p.content_hash@ == hex_of(sha256_of(content@))
            }),
    {
        if !validated {
            return Err(crate::error::validation("content", "Media upload not permitted"));
        }
        let media_id = new_uuid_v4();
        let server_name = self.quota_server_name(user_id);
        let digest = sha256_digest(content);
        let content_hash = hex_lower(&digest);
        Ok(UploadPlan { media_id, server_name, content_hash })
    }

    /// The result of an upload: the media already stored with the same
    /// hash, when there is one, else the planned one.
    pub fn upload_result(
        &self,
        plan: &UploadPlan,
        content_type: &str,
        content_length: u64,
        existing: Option<&MediaInfo>,
    ) -> (r: MediaUploadResult)
        ensures
            upload_result_is(plan, content_type@, content_length, existing, r),
    {
        match existing {
            Some(e) => MediaUploadResult {
                media_id: e.media_id.clone(),
                content_uri: concat4("mxc://", e.server_name.as_str(), "/", e.media_id.as_str()),
                content_type: e.content_type.clone(),
                content_length: e.content_length,
            },
            None => MediaUploadResult {
                media_id: plan.media_id.clone(),
                content_uri: concat4("mxc://", plan.server_name.as_str(), "/", plan.media_id.as_str()),
                content_type: owned(content_type),
                content_length,
            },
        }
    }

    /// Whether media on `server_name` is fetched from another server: it is
    /// not stored here (`stored_here`), and the server is not this one.
    /// Media uploaded here is stored under its uploader's server, so it is
    /// served from here whatever that server is called.
    pub fn is_remote_media(&self, server_name: &str, stored_here: bool) -> (r: bool)
        ensures
            r == (!stored_here && server_name@ != self.homeserver()),
    {
        !stored_here && !str_eq(server_name, self.homeserver_name.as_str())
    }

    /// A download of media on `server_name`, given what is stored here about
    /// it (`media_info`, `content`) and whether the user may see it: remote
    /// media is fetched through the federation client (an error when there is
    /// none), anything else is a local download.
    pub fn download_media(
        &self,
        server_name: &str,
        has_access: bool,
        media_info: Option<MediaInfo>,
        content: Option<Vec<u8>>,
    ) -> (r: Result<DownloadOutcome, MediaError>)
        ensures
            media_info.is_none() && server_name@ != self.homeserver() ==> match self.federation_client() {
                Some(c) => r == Ok::<DownloadOutcome, MediaError>(DownloadOutcome::FetchRemote),
                None => r.is_err() && media_error_is(
                    r->Err_0,
                    2,
                    "Federation media client not configured for remote media downloads"@,
                ),
            },
            media_info.is_some() || server_name@ == self.homeserver() ==> match r {
                Ok(DownloadOutcome::Served(d)) => local_download_ok(has_access, media_info, content, d),
                Ok(DownloadOutcome::FetchRemote) => false,
                Err(e) => local_download_err(has_access, media_info, content, e),
            },
    {
        if self.is_remote_media(server_name, media_info.is_some()) {
            match self.remote_media_client() {
                Ok(_) => { return Ok(DownloadOutcome::FetchRemote); },
                Err(e) => { return Err(e); },
            }
        }
        match self.download_local_media(has_access, media_info, content) {
            Ok(d) => Ok(DownloadOutcome::Served(d)),
            Err(e) => Err(e),
        }
    }

    /// The client to fetch remote media with, or why there is none.
    pub fn remote_media_client(&self) -> (r: Result<&Arc<F>, MediaError>)
        ensures
            match self.federation_client() {
                Some(c) => r == Ok::<&Arc<F>, MediaError>(&c),
                None => r.is_err() && media_error_is(
                    r->Err_0,
                    2,
                    "Federation media client not configured for remote media downloads"@,
                ),
            },
    {
        match &self.federation_media_client {
            Some(c) => Ok(c),
            None => Err(MediaError::InvalidOperation(
                owned("Federation media client not configured for remote media downloads"),
            )),
        }
    }

    /// A local download: refused without access, not found without stored
    /// information or content, refused when quarantined.
    pub fn download_local_media(
        &self,
        has_access: bool,
        media_info: Option<MediaInfo>,
        content: Option<Vec<u8>>,
    ) -> (r: Result<MediaDownloadResult, MediaError>)
        ensures
            r matches Ok(d) ==> local_download_ok(has_access, media_info, content, d),
            r matches Err(e) ==> local_download_err(has_access, media_info, content, e),
            !has_access ==> r.is_err() && media_error_is(r->Err_0, 1, "User does not have access to this media"@),
            has_access && media_info.is_none() ==> r.is_err() && r->Err_0 is NotFound,
            has_access && media_info.is_some() && media_info.unwrap().quarantined == Some(true) ==> r.is_err()
                && media_error_is(r->Err_0, 1, "Media has been quarantined by server administrators"@),
            has_access && media_info.is_some() && media_info.unwrap().quarantined != Some(true)
                && content.is_none() ==> r.is_err() && r->Err_0 is NotFound,
            has_access && media_info.is_some() && media_info.unwrap().quarantined != Some(true)
                && content.is_some() ==> r.is_ok() && ({
                let d = r->Ok_0;
                let info = media_info.unwrap();
                &&& d.content == content.unwrap()
                &&& d.content_type == info.content_type
                &&& d.content_length == info.content_length
                &&& d.filename == info.upload_name
            }),
    {
        if !has_access {
            return Err(MediaError::AccessDenied(owned("User does not have access to this media")));
        }
        let info = match media_info {
            Some(i) => i,
            None => { return Err(MediaError::NotFound); },
        };
        let quarantined = match info.quarantined {
            Some(q) => q,
            None => false,
        };
        if quarantined {
            return Err(MediaError::AccessDenied(owned("Media has been quarantined by server administrators")));
        }
        let content = match content {
            Some(c) => c,
            None => { return Err(MediaError::NotFound); },
        };
        Ok(MediaDownloadResult {
            content,
            content_type: info.content_type,
            content_length: info.content_length,
            filename: info.upload_name,
        })
    }

    /// A thumbnail of `original_content` of `width` x `height`: `crop`
    /// fills the box and crops, `scale` fits within it; the result is JPEG.
    pub fn process_thumbnail(&self, original_content: &[u8], width: u32, height: u32, method: &str) -> (r: Result<Vec<u8>, MediaError>)
        ensures
            r.is_ok() == thumbnail_of(original_content@, width, height, method@).is_some(),
            r matches Ok(t) ==> t@ == thumbnail_of(original_content@, width, height, method@).unwrap(),
            r matches Err(e) ==> thumbnail_error(original_content@, width, height, method@, e),
    {
        if original_content.len() == 0 {
            return Err(MediaError::Validation(owned("Original content cannot be empty")));
        }
        if width == 0 || height == 0 {
            return Err(MediaError::Validation(owned("Width and height must be greater than 0")));
        }
        let crop = str_eq(method, "crop");
        let scale = str_eq(method, "scale");
        if !crop && !scale {
            return Err(MediaError::Validation(owned("Method must be 'crop' or 'scale'")));
        }
        let made = if crop {
            jpeg_fill_thumbnail(original_content, width, height)
        } else {
            jpeg_fit_thumbnail(original_content, width, height)
        };
        match made {
            Ok(buffer) => Ok(buffer),
            Err(None) => Err(MediaError::UnsupportedFormat),
            Err(Some(e)) => {
                let m = concat2("Encoding error: ", e.as_str());
                Err(MediaError::Database(m))
            },
        }
    }

    /// A thumbnail of stored media: the cached one when there is one; else
    /// made from the stored content (as `process_thumbnail` makes it), which
    /// must exist, be an image, and be at most 20 MB.
    pub fn generate_thumbnail(
        &self,
        width: u32,
        height: u32,
        method: &str,
        cached: Option<Vec<u8>>,
        media_info: Option<&MediaInfo>,
        content: Option<&Vec<u8>>,
    ) -> (r: Result<ThumbnailResult, MediaError>)
        ensures
            cached.is_some() ==> r.is_ok() && r->Ok_0.thumbnail == cached.unwrap(),
            r.is_ok() ==> r->Ok_0.content_type@ == "image/jpeg"@ && r->Ok_0.width == width
                && r->Ok_0.height == height,
            cached.is_none() && media_info.is_none() ==> r.is_err() && r->Err_0 is NotFound,
            cached.is_none() && media_info.is_some() && media_info.unwrap().content_length
                > MAX_THUMBNAIL_SOURCE_SIZE ==> r.is_err() && r->Err_0 is TooLarge,
            cached.is_none() && media_info.is_some() && media_info.unwrap().content_length
                <= MAX_THUMBNAIL_SOURCE_SIZE && !is_prefix_of("image/"@, media_info.unwrap().content_type@)
                ==> r.is_err() && r->Err_0 is UnsupportedFormat,
            cached.is_none() && media_info.is_some() && media_info.unwrap().content_length
                <= MAX_THUMBNAIL_SOURCE_SIZE && is_prefix_of("image/"@, media_info.unwrap().content_type@)
                && content.is_none() ==> r.is_err() && r->Err_0 is NotFound,
            cached.is_none() && media_info.is_some() && media_info.unwrap().content_length
                <= MAX_THUMBNAIL_SOURCE_SIZE && is_prefix_of("image/"@, media_info.unwrap().content_type@)
                && content.is_some() ==> ({
                let c = content.unwrap()@;
                &&& r.is_ok() == thumbnail_of(c, width, height, method@).is_some()
                &&& r matches Ok(t) ==> t.thumbnail@ == thumbnail_of(c, width, height, method@).unwrap()
                &&& r matches Err(e) ==> thumbnail_error(c, width, height, method@, e)
            }),
    {
        if let Some(t) = cached {
            return Ok(ThumbnailResult { thumbnail: t, content_type: owned("image/jpeg"), width, height });
        }
        let info = match media_info {
            Some(i) => i,
            None => { return Err(MediaError::NotFound); },
        };
        if info.content_length > MAX_THUMBNAIL_SOURCE_SIZE {
            return Err(MediaError::TooLarge);
        }
        if !starts_with(info.content_type.as_str(), "image/") {
            return Err(MediaError::UnsupportedFormat);
        }
        let original = match content {
            Some(c) => c,
            None => { return Err(MediaError::NotFound); },
        };
        match self.process_thumbnail(original.as_slice(), width, height, method) {
            Ok(thumbnail) => Ok(ThumbnailResult { thumbnail, content_type: owned("image/jpeg"), width, height }),
            Err(e) => Err(e),
        }
    }

    /// Whether `requesting_user` may read stored media. The media store's
    /// own check must pass and the media must exist; media of no room (or a
    /// profile picture) is then readable; in a room, joined and invited
    /// members may read it, other members may not, and non-members may
    /// when the room is world readable or public.
    pub fn validate_media_access(
        &self,
        store_allows: bool,
        media_exists: bool,
        room_association: Option<(String, bool)>,
        membership: Option<MembershipState>,
        room: Option<(Option<String>, Option<bool>)>,
    ) -> (r: bool)
        ensures
            r == media_access_allowed(store_allows, media_exists, room_association, membership, room),
    {
        if !store_allows || !media_exists {
            return false;
        }
        match room_association {
            None => true,
            Some((_, true)) => true,
            Some((_, false)) => match membership {
                Some(MembershipState::Join) => true,
                Some(MembershipState::Invite) => true,
                Some(_) => false,
                None => match room {
                    None => false,
                    Some((visibility, is_public)) => {
                        let public = match is_public {
                            Some(p) => p,
                            None => false,
                        };
                        match visibility {
                            Some(v) => str_eq(v.as_str(), "world_readable") || public,
                            None => public,
                        }
                    },
                },
            },
        }
    }

    /// The cleanup report for `deleted_count` files: a megabyte and five
    /// thumbnails counted per file.
    pub fn cleanup_unused_media(&self, deleted_count: u64) -> (r: MediaCleanupResult)
        requires
            deleted_count * 1_048_576 <= u64::MAX,
        ensures
            r.deleted_files == deleted_count,
            r.freed_bytes == deleted_count * 1_048_576,
            r.deleted_thumbnails == deleted_count * 5,
    {
        MediaCleanupResult {
            deleted_files: deleted_count,
            freed_bytes: deleted_count * 1_048_576,
            deleted_thumbnails: deleted_count * 5,
        }
    }

    /// The statistics from the store's totals (absent: 0): three thumbnails
    /// of 50 KiB per file; a thirtieth of the files uploaded and a tenth
    /// downloaded in a day.
    pub fn get_media_statistics(&self, total_media: Option<u64>, total_size: Option<u64>) -> (r: MediaStatistics)
        requires
            total_media.unwrap_or(0) * 153_600 <= u64::MAX,
        ensures
            r.total_files == total_media.unwrap_or(0),
            r.total_size == total_size.unwrap_or(0),
            r.total_thumbnails == r.total_files * 3,
            r.thumbnail_size == r.total_thumbnails * 51_200,
            r.upload_count_24h == r.total_files / 30,
            r.download_count_24h == r.total_files / 10,
    {
        let total_files = match total_media {
            Some(n) => n,
            None => 0,
        };
        let size = match total_size {
            Some(n) => n,
            None => 0,
        };
        let total_thumbnails = total_files * 3;
        MediaStatistics {
            total_files,
            total_size: size,
            total_thumbnails,
            thumbnail_size: total_thumbnails * 51_200,
            upload_count_24h: total_files / 30,
            download_count_24h: total_files / 10,
        }
    }

    /// Serving media to `requesting_server`: an empty server name is
    /// refused; the media must exist and be at most 50 MB; then the
    /// download decides.
    pub fn handle_federation_media_request(
        &self,
        requesting_server: &str,
        media_info: Option<&MediaInfo>,
        download: Result<MediaDownloadResult, MediaError>,
    ) -> (r: Result<MediaResponse, MediaError>)
        ensures
            requesting_server@.len() == 0 ==> r.is_err() && media_error_is(
                r->Err_0,
                1,
                "User does not have access to this media"@,
            ),
            requesting_server@.len() > 0 && media_info.is_none() ==> r.is_err() && r->Err_0 is NotFound,
            requesting_server@.len() > 0 && media_info.is_some() && media_info.unwrap().content_length
                > MAX_MEDIA_SIZE ==> r.is_err() && r->Err_0 is TooLarge,
            requesting_server@.len() > 0 && media_info.is_some() && media_info.unwrap().content_length
                <= MAX_MEDIA_SIZE ==> match download {
                Ok(d) => r.is_ok() && r->Ok_0.content == d.content && r->Ok_0.content_type
                    == d.content_type && r->Ok_0.content_length == d.content_length,
                Err(e) => r == Err::<MediaResponse, MediaError>(e),
            },
    {
        if requesting_server.unicode_len() == 0 {
            return Err(MediaError::AccessDenied(owned("User does not have access to this media")));
        }
        let info = match media_info {
            Some(i) => i,
            None => { return Err(MediaError::NotFound); },
        };
        if info.content_length > MAX_MEDIA_SIZE {
            return Err(MediaError::TooLarge);
        }
        match download {
            Ok(d) => Ok(MediaResponse { content: d.content, content_type: d.content_type, content_length: d.content_length }),
            Err(e) => Err(e),
        }
    }

    /// A reservation for an upload at `now_millis`, unless the user holds
    /// ten or more already: a fresh id, valid for 24 hours.
    pub fn create_pending_upload(&self, pending_count: u64, now_millis: i64) -> (r: Result<(String, i64), MediaError>)
        requires
            now_millis <= i64::MAX - PENDING_UPLOAD_MILLIS,
        ensures
            pending_count >= 10 ==> r.is_err() && media_error_is(
                r->Err_0,
                2,
                "M_LIMIT_EXCEEDED: Too many pending uploads"@,
            ),
            pending_count < 10 ==> r.is_ok() && uuid_text_shape(r->Ok_0.0@) && r->Ok_0.1 == now_millis
                + PENDING_UPLOAD_MILLIS,
    {
        if pending_count >= 10 {
            return Err(MediaError::InvalidOperation(owned("M_LIMIT_EXCEEDED: Too many pending uploads")));
        }
        Ok((new_uuid_v4(), now_millis + PENDING_UPLOAD_MILLIS))
    }

    /// Whether `user_id` may fill the reservation `pending` at `now_millis`:
    /// it must exist and not have expired (else not found), belong to the
    /// user, and not be filled already.
    pub fn validate_pending_upload(&self, user_id: &str, pending: Option<&PendingUpload>, now_millis: i64) -> (r: Result<(), MediaError>)
        ensures
            r.is_ok() <==> pending_upload_open(user_id@, pending, now_millis),
            pending.is_none() ==> r.is_err() && r->Err_0 is NotFound,
            pending.is_some() && pending.unwrap().expires_at < now_millis ==> r.is_err() && r->Err_0 is NotFound,
            pending.is_some() && pending.unwrap().expires_at >= now_millis && pending.unwrap().created_by@
                != user_id@ ==> r.is_err() && media_error_is(r->Err_0, 1, "M_FORBIDDEN: Wrong user trying to upload"@),
            pending.is_some() && pending.unwrap().expires_at >= now_millis && pending.unwrap().created_by@
                == user_id@ && pending.unwrap().status == PendingUploadStatus::Completed ==> r.is_err()
                && media_error_is(r->Err_0, 2, "M_CANNOT_OVERWRITE_MEDIA: Already uploaded"@),
    {
        let p = match pending {
            Some(p) => p,
            None => { return Err(MediaError::NotFound); },
        };
        if p.expires_at < now_millis {
            return Err(MediaError::NotFound);
        }
        if !str_eq(p.created_by.as_str(), user_id) {
            return Err(MediaError::AccessDenied(owned("M_FORBIDDEN: Wrong user trying to upload")));
        }
        if p.status == PendingUploadStatus::Completed {
            return Err(MediaError::InvalidOperation(owned("M_CANNOT_OVERWRITE_MEDIA: Already uploaded")));
        }
        Ok(())
    }

    /// Filling a reservation at `now_millis`: when it is open and the
    /// content is at most 50 MB, the information to store for the content.
    pub fn upload_to_pending(
        &self,
        media_id: &str,
        server_name: &str,
        user_id: &str,
        content_length: u64,
        content_type: &str,
        pending: Option<&PendingUpload>,
        now_millis: i64,
    ) -> (r: Result<MediaInfo, MediaError>)
        ensures
            !pending_upload_open(user_id@, pending, now_millis) ==> r.is_err(),
            pending.is_none() ==> r.is_err() && r->Err_0 is NotFound,
            pending.is_some() && pending.unwrap().expires_at < now_millis ==> r.is_err() && r->Err_0 is NotFound,
            pending.is_some() && pending.unwrap().expires_at >= now_millis && pending.unwrap().created_by@
                != user_id@ ==> r.is_err() && media_error_is(r->Err_0, 1, "M_FORBIDDEN: Wrong user trying to upload"@),
            pending.is_some() && pending.unwrap().expires_at >= now_millis && pending.unwrap().created_by@
                == user_id@ && pending.unwrap().status == PendingUploadStatus::Completed ==> r.is_err()
                && media_error_is(r->Err_0, 2, "M_CANNOT_OVERWRITE_MEDIA: Already uploaded"@),
            pending_upload_open(user_id@, pending, now_millis) && content_length > MAX_MEDIA_SIZE ==> r.is_err()
                && r->Err_0 is TooLarge,
            pending_upload_open(user_id@, pending, now_millis) && content_length <= MAX_MEDIA_SIZE ==> r.is_ok()
                && ({
                let i = r->Ok_0;
                &&& i.media_id@ == media_id@
                &&& i.server_name@ == server_name@
                &&& i.content_type@ == content_type@
                &&& i.content_length == content_length
                &&& i.upload_name.is_none()
                &&& i.uploaded_by@ == user_id@
                &&& i.created_at == now_millis
                &&& i.expires_at.is_none()
                &&& i.quarantined.is_none()
                &&& i.quarantined_by.is_none()
                &&& i.quarantine_reason.is_none()
                &&& i.quarantined_at.is_none()
                &&& i.is_idp_icon.is_none()
            }),
    {
        match self.validate_pending_upload(user_id, pending, now_millis) {
            Ok(()) => {},
            Err(e) => { return Err(e); },
        }
        if content_length > MAX_MEDIA_SIZE {
            return Err(MediaError::TooLarge);
        }
        Ok(MediaInfo {
            media_id: owned(media_id),
            server_name: owned(server_name),
            content_type: owned(content_type),
            content_length,
            upload_name: None,
            uploaded_by: owned(user_id),
            created_at: now_millis,
            expires_at: None,
            quarantined: None,
            quarantined_by: None,
            quarantine_reason: None,
            quarantined_at: None,
            is_idp_icon: None,
        })
    }

    /// The stored information with a new file name and content type, when
    /// there is stored information.
    pub fn update_media_metadata(&self, media_info: Option<MediaInfo>, filename: &str, content_type: &str) -> (r: Option<MediaInfo>)
        ensures
            match media_info {
                None => r.is_none(),
                Some(old) => r.is_some() && ({
                    let new = r.unwrap();
                    &&& opt_view(new.upload_name) == Some(filename@)
                    &&& new.content_type@ == content_type@
                    &&& new.media_id == old.media_id
                    &&& new.server_name == old.server_name
                    &&& new.content_length == old.content_length
                    &&& new.uploaded_by == old.uploaded_by
                    &&& new.created_at == old.created_at
                }),
            },
    {
        match media_info {
            None => None,
            Some(mut info) => {
                info.upload_name = Some(owned(filename));
                info.content_type = owned(content_type);
                Some(info)
            },
        }
    }
}

/// What a download does: serve the media from here, or fetch it from its
/// server through the federation client.
#[derive(Debug)]
pub enum DownloadOutcome {
    Served(MediaDownloadResult),
    FetchRemote,
}

/// `d` is the local download of the stored `media_info` and `content`:
/// allowed, stored, not quarantined, with the stored content and details.
pub open spec fn local_download_ok(
    has_access: bool,
    media_info: Option<MediaInfo>,
    content: Option<Vec<u8>>,
    d: MediaDownloadResult,
) -> bool {
    &&& has_access
    &&& media_info matches Some(info)
    &&& info.quarantined != Some(true)
    &&& content == Some(d.content)
    &&& d.content_type == info.content_type
    &&& d.content_length == info.content_length
    &&& d.filename == info.upload_name
}

/// `e` is why a local download fails: no access, nothing stored (not
/// found), quarantined, or no stored content (not found), in that order.
pub open spec fn local_download_err(
    has_access: bool,
    media_info: Option<MediaInfo>,
    content: Option<Vec<u8>>,
    e: MediaError,
) -> bool {
    if !has_access {
        media_error_is(e, 1, "User does not have access to this media"@)
    } else if media_info.is_none() {
        e is NotFound
    } else if media_info.unwrap().quarantined == Some(true) {
        media_error_is(e, 1, "Media has been quarantined by server administrators"@)
    } else {
        content.is_none() && e is NotFound
    }
}

/// `r` is the result of an upload planned as `plan`: the media already
/// stored with the same hash (`existing`) when there is one, else the
/// planned media.
pub open spec fn upload_result_is(
    plan: &UploadPlan,
    content_type: Seq<char>,
    content_length: u64,
    existing: Option<&MediaInfo>,
    r: MediaUploadResult,
) -> bool {
    match existing {
        Some(e) => r.media_id@ == e.media_id@ && r.content_uri@ == "mxc://"@ + e.server_name@ + "/"@
            + e.media_id@ && r.content_type@ == e.content_type@ && r.content_length == e.content_length,
        None => r.media_id@ == plan.media_id@ && r.content_uri@ == "mxc://"@ + plan.server_name@ + "/"@
            + plan.media_id@ && r.content_type@ == content_type && r.content_length == content_length,
    }
}

/// Identical content is stored once: two uploads of the same bytes are
/// planned under the same hash, and once the first upload's media is
/// stored under that hash, the second upload, which finds it by the hash,
/// gives the first one's media id and content URI.
pub proof fn law_identical_content_stored_once(
    content1: Seq<u8>,
    content2: Seq<u8>,
    plan1: &UploadPlan,
    plan2: &UploadPlan,
    content_type1: Seq<char>,
    content_type2: Seq<char>,
    length1: u64,
    length2: u64,
    first: MediaUploadResult,
    stored: &MediaInfo,
    second: MediaUploadResult,
)
    requires
        plan1.content_hash@ == hex_of(sha256_of(content1)),
        plan2.content_hash@ == hex_of(sha256_of(content2)),
        content1 == content2,
        upload_result_is(plan1, content_type1, length1, None, first),
        stored.media_id@ == plan1.media_id@,
        stored.server_name@ == plan1.server_name@,
        upload_result_is(plan2, content_type2, length2, Some(stored), second),
    ensures
        plan2.content_hash@ == plan1.content_hash@,
        second.media_id@ == first.media_id@,
        second.content_uri@ == first.content_uri@,
{
}

/// The thumbnail of `bytes` of `width` x `height` by `method`: for
/// non-empty bytes, a box of positive size and the method `crop` (fill and
/// crop) or `scale` (fit), the JPEG the image crate makes, if it makes one.
pub open spec fn thumbnail_of(bytes: Seq<u8>, width: u32, height: u32, method: Seq<char>) -> Option<Seq<u8>> {
    if bytes.len() == 0 || width == 0 || height == 0 {
        None
    } else if method == "crop"@ {
        jpeg_fill(bytes, width, height)
    } else if method == "scale"@ {
        jpeg_fit(bytes, width, height)
    } else {
        None
    }
}

/// `e` is why no thumbnail of `bytes` is made: empty content, a box of size
/// zero, an unknown method, bytes that are not an image, or the encoder's
/// error, in that order.
pub open spec fn thumbnail_error(bytes: Seq<u8>, width: u32, height: u32, method: Seq<char>, e: MediaError) -> bool {
    if bytes.len() == 0 {
        media_error_is(e, 3, "Original content cannot be empty"@)
    } else if width == 0 || height == 0 {
        media_error_is(e, 3, "Width and height must be greater than 0"@)
    } else if method != "crop"@ && method != "scale"@ {
        media_error_is(e, 3, "Method must be 'crop' or 'scale'"@)
    } else if !image_decodes(bytes) {
        e is UnsupportedFormat
    } else if method == "crop"@ {
        e matches MediaError::Database(m) && m@ == "Encoding error: "@ + jpeg_fill_error(bytes, width, height)
    } else {
        e matches MediaError::Database(m) && m@ == "Encoding error: "@ + jpeg_fit_error(bytes, width, height)
    }
}

/// Whether the reservation `pending` is open to `user_id` at `now`.
pub open spec fn pending_upload_open(user_id: Seq<char>, pending: Option<&PendingUpload>, now: i64) -> bool {
    match pending {
        None => false,
        Some(p) => p.expires_at >= now && p.created_by@ == user_id && p.status != PendingUploadStatus::Completed,
    }
}

/// A reservation that has been filled is never open again, and a
/// reservation is only ever open to the user who made it.
pub proof fn law_reservation_filled_once(user_id: Seq<char>, p: PendingUpload, now: i64)
    ensures
        p.status == PendingUploadStatus::Completed ==> !pending_upload_open(user_id, Some(&p), now),
        p.created_by@ != user_id ==> !pending_upload_open(user_id, Some(&p), now),
{
}

/// The media access rule (see `validate_media_access`).
pub open spec fn media_access_allowed(
    store_allows: bool,
    media_exists: bool,
    room_association: Option<(String, bool)>,
    membership: Option<MembershipState>,
    room: Option<(Option<String>, Option<bool>)>,
) -> bool {
    store_allows && media_exists && match room_association {
        None => true,
        Some((_, is_profile)) => is_profile || match membership {
            Some(m) => m == MembershipState::Join || m == MembershipState::Invite,
            None => match room {
                None => false,
                Some((visibility, is_public)) => {
                    let public = is_public == Some(true);
                    match visibility {
                        Some(v) => v@ == "world_readable"@ || public,
                        None => public,
                    }
                },
            },
        },
    }
}

} // verus!
