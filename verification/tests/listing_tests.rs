use a_icon::db::Database;
use a_icon::error::ApiError;
use a_icon::listing::{
    build_directory_response, extract_bearer_token, map_sort_param, normalize_page,
    normalize_page_size,
};
use a_icon::models::{AssetType, GenerationStatus, SourceType};
use a_icon::pipeline::{commit_submission, prepare_submission, IngestOutcome, SubmissionInput};

#[test]
fn query_parameter_defaults_and_caps() {
    assert_eq!(normalize_page(None), 1);
    assert_eq!(normalize_page(Some(7)), 7);
    assert_eq!(normalize_page(Some(0)), 1);
    assert_eq!(normalize_page(Some(-3)), 1);

    assert_eq!(normalize_page_size(None), 100);
    assert_eq!(normalize_page_size(Some(20)), 20);
    assert_eq!(normalize_page_size(Some(1000)), 500);
    assert_eq!(normalize_page_size(Some(0)), 1);
}

#[test]
fn sort_parameter_mapping() {
    assert_eq!(map_sort_param("createdAt"), "date");
    assert_eq!(map_sort_param("slug"), "url");
    assert_eq!(map_sort_param("domain"), "domain");
    assert_eq!(map_sort_param("anything-else"), "domain");
}

#[test]
fn total_pages_is_the_ceiling() {
    assert_eq!(build_directory_response(Vec::new(), 5, 1, 2).total_pages, 3);
    assert_eq!(build_directory_response(Vec::new(), 4, 1, 2).total_pages, 2);
    assert_eq!(build_directory_response(Vec::new(), 0, 1, 100).total_pages, 0);
    assert_eq!(build_directory_response(Vec::new(), 1, 1, 500).total_pages, 1);
    let r = build_directory_response(Vec::new(), 7, 2, 3);
    assert_eq!(r.total, 7);
    assert_eq!(r.page, 2);
    assert_eq!(r.page_size, 3);
    assert_eq!(r.total_pages, 3);
}

#[test]
fn bearer_token_extraction() {
    assert_eq!(extract_bearer_token("Bearer abc123").unwrap(), "abc123");
    assert!(matches!(
        extract_bearer_token("Basic abc123"),
        Err(ApiError::Unauthorized(_))
    ));
    assert!(extract_bearer_token("bearer abc123").is_err());
    assert!(extract_bearer_token("abc123").is_err());
}

#[test]
fn enumeration_round_trips() {
    assert_eq!(SourceType::from_str(SourceType::Upload.as_str()), Some(SourceType::Upload));
    assert_eq!(SourceType::from_str(SourceType::Canvas.as_str()), Some(SourceType::Canvas));
    assert_eq!(SourceType::from_str("upload"), None);
    assert_eq!(
        GenerationStatus::from_str(GenerationStatus::Pending.as_str()),
        Some(GenerationStatus::Pending)
    );
    assert_eq!(
        GenerationStatus::from_str(GenerationStatus::Success.as_str()),
        Some(GenerationStatus::Success)
    );
    assert_eq!(
        GenerationStatus::from_str(GenerationStatus::Failed.as_str()),
        Some(GenerationStatus::Failed)
    );
    assert_eq!(GenerationStatus::from_str(""), None);
    assert_eq!(AssetType::from_str("ICO"), Some(AssetType::Ico));
    assert_eq!(AssetType::from_str("PNG"), Some(AssetType::Png));
    assert_eq!(AssetType::from_str("SVG"), Some(AssetType::Svg));
    assert_eq!(AssetType::from_str("GIF"), None);
}

#[test]
fn error_kinds_map_to_their_statuses() {
    assert_eq!(ApiError::BadRequest("m".to_string()).status_code(), 400);
    assert_eq!(ApiError::ValidationError("m".to_string()).status_code(), 400);
    assert_eq!(ApiError::Unauthorized("m".to_string()).status_code(), 401);
    assert_eq!(ApiError::NotFound("m".to_string()).status_code(), 404);
    assert_eq!(ApiError::InternalError("m".to_string()).status_code(), 500);
    assert_eq!(ApiError::DatabaseError("m".to_string()).status_code(), 500);
    assert_eq!(ApiError::StorageError("m".to_string()).status_code(), 500);

    assert_eq!(ApiError::BadRequest("m".to_string()).label(), "Bad Request");
    assert_eq!(ApiError::NotFound("m".to_string()).label(), "Not Found");
    assert_eq!(ApiError::Unauthorized("m".to_string()).label(), "Unauthorized");
    assert_eq!(ApiError::StorageError("m".to_string()).label(), "Internal Server Error");
    assert_eq!(ApiError::NotFound("gone".to_string()).message(), "gone");
}

fn seed(db: &mut Database, n: u8, domain: &str) {
    let input = SubmissionInput {
        bytes: vec![0x89, 0x50, 0x4E, 0x47, n],
        declared_mime: Some("image/png".to_string()),
        source_type: SourceType::Upload,
        title: None,
        target_domain: Some(domain.to_string()),
        metadata: None,
    };
    match prepare_submission(db, input, "2024-05-01T12:00:00+00:00").unwrap() {
        IngestOutcome::NeedsUpload(p) => {
            commit_submission(db, p).unwrap();
        },
        IngestOutcome::Existing(_) => panic!("seed content must be fresh"),
    }
}

#[test]
fn listing_pages_published_records() {
    let mut db = Database::new(":memory:").unwrap();
    seed(&mut db, 1, "a.example.com");
    seed(&mut db, 2, "b.example.com");
    seed(&mut db, 3, "c.example.com");

    let (items, total) = db.list_published_favicons(1, 2, "domain", "asc").unwrap();
    assert_eq!(total, 3);
    assert_eq!(items.len(), 2);
    assert_eq!(items[0].target_domain.as_deref(), Some("a.example.com"));
    assert_eq!(items[1].target_domain.as_deref(), Some("b.example.com"));

    let (items, total) = db.list_published_favicons(2, 2, "domain", "asc").unwrap();
    assert_eq!(total, 3);
    assert_eq!(items.len(), 1);
    assert_eq!(items[0].target_domain.as_deref(), Some("c.example.com"));

    let (items, _) = db.list_published_favicons(1, 3, "domain", "desc").unwrap();
    assert_eq!(items[0].target_domain.as_deref(), Some("c.example.com"));

    let response = build_directory_response(items, total, 1, 2);
    assert_eq!(response.total_pages, 2);
}
