use std::sync::Arc;

use matryx_repository::error::RepositoryError;
use matryx_repository::media::{
    media_error_from, hex_lower, DownloadOutcome, MediaError, MediaInfo, MediaService, PendingUpload, PendingUploadStatus,
};
use matryx_repository::membership::{MembershipRepository, MembershipState};
use matryx_repository::room::RoomRepository;

type Service = MediaService<(), (), ()>;

fn service() -> Service {
    MediaService::new(Arc::new(()), Arc::new(RoomRepository::new(())), Arc::new(MembershipRepository::new(())))
}

fn info(content_type: &str, length: u64) -> MediaInfo {
    MediaInfo {
        media_id: "abc".to_string(),
        server_name: "example.com".to_string(),
        content_type: content_type.to_string(),
        content_length: length,
        upload_name: Some("file.txt".to_string()),
        uploaded_by: "@test:example.com".to_string(),
        created_at: 0,
        expires_at: None,
        quarantined: None,
        quarantined_by: None,
        quarantine_reason: None,
        quarantined_at: None,
        is_idp_icon: None,
    }
}

fn pending(created_by: &str, expires_at: i64, status: PendingUploadStatus) -> PendingUpload {
    PendingUpload {
        media_id: "pending-id".to_string(),
        server_name: "example.com".to_string(),
        created_by: created_by.to_string(),
        expires_at,
        status,
    }
}

fn png_bytes() -> Vec<u8> {
    let img = image::RgbImage::from_pixel(8, 6, image::Rgb([200, 10, 10]));
    let mut out = std::io::Cursor::new(Vec::new());
    img.write_to(&mut out, image::ImageFormat::Png).unwrap();
    out.into_inner()
}

#[test]
fn test_validate_media_upload_valid() {
    let s = service();
    assert!(s.validate_media_upload("@user:example.com", "image/jpeg", 1024, 0));
}

#[test]
fn test_validate_media_upload_invalid_type() {
    let s = service();
    assert!(!s.validate_media_upload("@user:example.com", "application/malware", 1024, 0));
}

#[test]
fn test_validate_media_upload_too_large() {
    let s = service();
    assert!(!s.validate_media_upload("@user:example.com", "image/jpeg", 100 * 1024 * 1024, 0));
}

#[test]
fn upload_within_quota_only() {
    let s = service();
    assert!(s.validate_media_upload("@user:example.com", "text/plain", 10, 5_368_709_110));
    assert!(!s.validate_media_upload("@user:example.com", "text/plain", 11, 5_368_709_110));
    assert!(!s.upload_prechecks("user-without-server", "text/plain", 10));
}

#[test]
fn test_upload_media_validation_failure() {
    let s = service();
    let allowed = s.upload_prechecks("invalid_user_id", "application/malware", 12);
    assert!(!allowed);
    let e = s.upload_plan("invalid_user_id", b"test content", allowed).unwrap_err();
    match e {
        RepositoryError::Validation { field, message } => {
            assert_eq!(field, "content");
            assert_eq!(message, "Media upload not permitted");
        },
        other => panic!("unexpected {:?}", other),
    }
}

#[test]
fn upload_plan_hashes_the_content() {
    let s = service();
    let plan = s.upload_plan("@test:example.com", b"abc", true).unwrap();
    assert_eq!(plan.content_hash, "ba7816bf8f01cfea414140de5dae2223b00361a396177a9cb410ff61f20015ad");
    assert_eq!(plan.server_name, "example.com");
    assert_eq!(plan.media_id.len(), 36);
    let other = s.upload_plan("@test:example.com", b"abc", true).unwrap();
    assert_ne!(plan.media_id, other.media_id);
    let result = s.upload_result(&plan, "text/plain", 3, None);
    assert_eq!(result.content_uri, format!("mxc://example.com/{}", plan.media_id));
    assert_eq!(result.content_length, 3);
}

#[test]
fn test_media_deduplication() {
    let s = service();
    let user_id = "@test:example.com";
    let content = b"duplicate test content";
    let plan1 = s.upload_plan(user_id, content, true).unwrap();
    let first = s.upload_result(&plan1, "text/plain", 22, None);
    let mut stored = info("text/plain", 22);
    stored.media_id = plan1.media_id.clone();
    stored.server_name = plan1.server_name.clone();
    let plan2 = s.upload_plan(user_id, content, true).unwrap();
    assert_eq!(plan2.content_hash, plan1.content_hash);
    let second = s.upload_result(&plan2, "text/plain", 22, Some(&stored));
    assert_eq!(second.media_id, first.media_id);
    assert_eq!(second.content_uri, first.content_uri);
}

#[test]
fn hex_is_lowercase_two_digits_per_byte() {
    assert_eq!(hex_lower(&vec![0x00, 0x0f, 0xa0, 0xff]), "000fa0ff");
}

#[test]
fn test_download_media_not_found() {
    let s = service();
    assert!(s.download_media("example.com", true, None, None).is_err());
    assert!(matches!(s.download_local_media(true, None, None), Err(MediaError::NotFound)));
    let denied = s.download_local_media(false, Some(info("text/plain", 4)), Some(vec![1, 2, 3, 4]));
    assert!(matches!(denied, Err(MediaError::AccessDenied(ref m)) if m == "User does not have access to this media"));
    let mut quarantined = info("text/plain", 4);
    quarantined.quarantined = Some(true);
    assert!(matches!(
        s.download_local_media(true, Some(quarantined), Some(vec![1])),
        Err(MediaError::AccessDenied(_))
    ));
    let d = s.download_local_media(true, Some(info("text/plain", 4)), Some(b"test".to_vec())).unwrap();
    assert_eq!(d.content, b"test".to_vec());
    assert_eq!(d.filename.as_deref(), Some("file.txt"));
}

#[test]
fn test_generate_thumbnail_non_image() {
    let s = service();
    let text = info("text/plain", 12);
    let r = s.generate_thumbnail(320, 240, "scale", None, Some(&text), Some(&b"text content".to_vec()));
    assert!(matches!(r, Err(MediaError::UnsupportedFormat)));
}

#[test]
fn test_generate_thumbnail_success() {
    let s = service();
    let png = png_bytes();
    let img = info("image/png", png.len() as u64);
    let t = s.generate_thumbnail(320, 240, "scale", None, Some(&img), Some(&png)).unwrap();
    assert_eq!(t.content_type, "image/jpeg");
    assert_eq!((t.width, t.height), (320, 240));
    assert!(!t.thumbnail.is_empty());
    assert_eq!(&t.thumbnail[0..2], &[0xff, 0xd8]);
    let cropped = s.process_thumbnail(&png, 4, 4, "crop").unwrap();
    assert_eq!(&cropped[0..2], &[0xff, 0xd8]);
    let c = image::load_from_memory(&cropped).unwrap();
    assert_eq!((c.width(), c.height()), (4, 4));
    let scaled = s.process_thumbnail(&png, 4, 4, "scale").unwrap();
    let f = image::load_from_memory(&scaled).unwrap();
    assert_eq!((f.width(), f.height()), (4, 3));
}

#[test]
fn thumbnail_refusals() {
    let s = service();
    assert!(matches!(s.process_thumbnail(b"", 1, 1, "crop"), Err(MediaError::Validation(ref m)) if m == "Original content cannot be empty"));
    assert!(matches!(s.process_thumbnail(b"x", 0, 1, "crop"), Err(MediaError::Validation(_))));
    assert!(matches!(s.process_thumbnail(b"x", 1, 1, "zoom"), Err(MediaError::Validation(ref m)) if m == "Method must be 'crop' or 'scale'"));
    assert!(matches!(s.process_thumbnail(b"not an image", 1, 1, "scale"), Err(MediaError::UnsupportedFormat)));
    let big = info("image/png", 20_000_001);
    assert!(matches!(s.generate_thumbnail(1, 1, "scale", None, Some(&big), None), Err(MediaError::TooLarge)));
    let cached = s.generate_thumbnail(1, 1, "scale", Some(vec![9]), None, None).unwrap();
    assert_eq!(cached.thumbnail, vec![9]);
}

#[test]
fn test_validate_media_access_success() {
    let s = service();
    assert!(s.validate_media_access(true, true, None, None, None));
    assert!(!s.validate_media_access(false, true, None, None, None));
    let room = Some(("!r:example.com".to_string(), false));
    assert!(s.validate_media_access(true, true, room.clone(), Some(MembershipState::Invite), None));
    assert!(!s.validate_media_access(true, true, room.clone(), Some(MembershipState::Leave), None));
    assert!(s.validate_media_access(true, true, room.clone(), None, Some((Some("world_readable".to_string()), None))));
    assert!(!s.validate_media_access(true, true, room, None, Some((Some("shared".to_string()), Some(false)))));
}

#[test]
fn test_cleanup_unused_media() {
    let s = service();
    let r = s.cleanup_unused_media(3);
    assert_eq!(r.deleted_files, 3);
    assert_eq!(r.freed_bytes, 3 * 1_048_576);
    assert_eq!(r.deleted_thumbnails, 15);
}

#[test]
fn test_get_media_statistics() {
    let s = service();
    let st = s.get_media_statistics(Some(60), Some(1000));
    assert_eq!(st.total_files, 60);
    assert_eq!(st.total_size, 1000);
    assert_eq!(st.total_thumbnails, 180);
    assert_eq!(st.thumbnail_size, 180 * 51_200);
    assert_eq!(st.upload_count_24h, 2);
    assert_eq!(st.download_count_24h, 6);
    assert_eq!(s.get_media_statistics(None, None).total_files, 0);
}

#[test]
fn test_handle_federation_media_request() {
    let s = service();
    let media = info("text/plain", 23);
    let d = s.download_local_media(true, Some(info("text/plain", 23)), Some(b"federation test content".to_vec()));
    let r = s.handle_federation_media_request("requesting.server.com", Some(&media), d).unwrap();
    assert_eq!(r.content, b"federation test content".to_vec());
    assert_eq!(r.content_type, "text/plain");
    let e = s.handle_federation_media_request("", Some(&media), Err(MediaError::NotFound)).unwrap_err();
    assert!(matches!(e, MediaError::AccessDenied(_)));
    let huge = info("text/plain", 50_000_001);
    assert!(matches!(s.handle_federation_media_request("a.org", Some(&huge), Err(MediaError::NotFound)), Err(MediaError::TooLarge)));
}

#[test]
fn test_create_pending_upload_success() {
    let s = service();
    let (id, expires) = s.create_pending_upload(0, 1_000).unwrap();
    assert_eq!(id.len(), 36);
    assert_eq!(id.as_bytes()[14], b'4');
    assert!(matches!(id.as_bytes()[19], b'8' | b'9' | b'a' | b'b'));
    assert_eq!(expires, 1_000 + 86_400_000);
}

#[test]
fn test_create_pending_upload_rate_limit() {
    let s = service();
    assert!(s.create_pending_upload(9, 0).is_ok());
    let err = s.create_pending_upload(10, 0).unwrap_err();
    assert!(err.message().contains("M_LIMIT_EXCEEDED"));
}

#[test]
fn test_upload_to_pending_success() {
    let s = service();
    let p = pending("@test:example.com", 100, PendingUploadStatus::Pending);
    let content = b"test pending upload content".to_vec();
    let i = s.upload_to_pending("pending-id", "example.com", "@test:example.com", content.len() as u64, "text/plain", Some(&p), 50).unwrap();
    assert_eq!(i.media_id, "pending-id");
    assert_eq!(i.uploaded_by, "@test:example.com");
    assert_eq!(i.created_at, 50);
    match s.download_media("example.com", true, Some(i), Some(content.clone())).unwrap() {
        DownloadOutcome::Served(d) => assert_eq!(d.content, content),
        DownloadOutcome::FetchRemote => panic!("a filled reservation is served from here"),
    }
}

#[test]
fn test_upload_to_pending_expired() {
    let s = service();
    let r = s.upload_to_pending("expired-media-id-12345", "example.com", "@test:example.com", 7, "text/plain", None, 0);
    assert!(matches!(r, Err(MediaError::NotFound)));
    let old = pending("@test:example.com", 10, PendingUploadStatus::Pending);
    assert!(matches!(s.validate_pending_upload("@test:example.com", Some(&old), 11), Err(MediaError::NotFound)));
    assert!(matches!(s.upload_to_pending("pending-id", "example.com", "@test:example.com", 7, "text/plain", Some(&old), 11), Err(MediaError::NotFound)));
}

#[test]
fn test_upload_to_pending_wrong_user() {
    let s = service();
    let p = pending("@creator:example.com", 100, PendingUploadStatus::Pending);
    let err = s.upload_to_pending("pending-id", "example.com", "@wrong:example.com", 7, "text/plain", Some(&p), 0).unwrap_err();
    assert!(err.message().contains("M_FORBIDDEN"));
}

#[test]
fn test_upload_to_pending_already_uploaded() {
    let s = service();
    let p = pending("@test:example.com", 100, PendingUploadStatus::Completed);
    let err = s.upload_to_pending("pending-id", "example.com", "@test:example.com", 7, "text/plain", Some(&p), 0).unwrap_err();
    assert!(err.message().contains("M_CANNOT_OVERWRITE_MEDIA"));
}

#[test]
fn media_errors_from_repository_errors() {
    let e = media_error_from(RepositoryError::Validation { field: "f".to_string(), message: "bad".to_string() });
    assert_eq!(e.message(), "Validation error: f: bad");
    assert!(matches!(media_error_from(RepositoryError::NotFound { entity_type: "x".to_string(), id: "y".to_string() }), MediaError::NotFound));
    assert!(matches!(media_error_from(RepositoryError::Conflict { message: "c".to_string() }), MediaError::Database(_)));
    assert_eq!(MediaError::TooLarge.message(), "Content too large");
}

#[test]
fn metadata_update_keeps_identity() {
    let s = service();
    let updated = s.update_media_metadata(Some(info("text/plain", 4)), "new.txt", "text/markdown").unwrap();
    assert_eq!(updated.upload_name.as_deref(), Some("new.txt"));
    assert_eq!(updated.content_type, "text/markdown");
    assert_eq!(updated.media_id, "abc");
    assert!(s.update_media_metadata(None, "a", "b").is_none());
}

#[test]
fn remote_media_needs_a_client() {
    let s = service();
    assert!(s.is_remote_media("other.org", false));
    assert!(!s.is_remote_media("other.org", true));
    assert!(!s.is_remote_media("localhost", false));
    assert!(matches!(s.remote_media_client(), Err(MediaError::InvalidOperation(_))));
    assert!(matches!(s.download_media("other.org", true, None, None),
        Err(MediaError::InvalidOperation(ref m)) if m == "Federation media client not configured for remote media downloads"));
    let s = s.with_federation_client(Arc::new(()), "example.com".to_string());
    assert_eq!(s.homeserver_name(), "example.com");
    assert!(s.remote_media_client().is_ok());
    assert!(matches!(s.download_media("other.org", true, None, None), Ok(DownloadOutcome::FetchRemote)));
    assert!(matches!(s.download_media("example.com", true, None, None), Err(MediaError::NotFound)));
}

#[test]
fn test_upload_media_success() {
    let s = service();
    let content = b"test file content";
    assert!(s.validate_media_upload("@test:example.com", "text/plain", content.len() as u64, 0));
    let plan = s.upload_plan("@test:example.com", content, true).unwrap();
    let result = s.upload_result(&plan, "text/plain", content.len() as u64, None);
    assert!(!result.media_id.is_empty());
    assert!(result.content_uri.starts_with("mxc://"));
    assert_eq!(result.content_type, "text/plain");
    assert_eq!(result.content_length, content.len() as u64);
}

#[test]
fn test_download_media_success() {
    let s = service();
    let user_id = "@test:example.com";
    let content = b"test download content".to_vec();
    let plan = s.upload_plan(user_id, &content, true).unwrap();
    let uploaded = s.upload_result(&plan, "text/plain", content.len() as u64, None);
    let parts: Vec<&str> = uploaded.content_uri.strip_prefix("mxc://").unwrap().split('/').collect();
    let (server_name, media_id) = (parts[0], parts[1]);
    assert_eq!(server_name, "example.com");
    let mut stored = info("text/plain", uploaded.content_length);
    stored.media_id = media_id.to_string();
    stored.server_name = server_name.to_string();
    match s.download_media(server_name, true, Some(stored), Some(content.clone())).unwrap() {
        DownloadOutcome::Served(d) => {
            assert_eq!(d.content, content);
            assert_eq!(d.content_type, "text/plain");
            assert_eq!(d.content_length, 21);
        }
        DownloadOutcome::FetchRemote => panic!("media uploaded here is served from here"),
    }
}
