use a_icon::db::{is_rfc3339_text, Database};
use a_icon::models::{
    AssetType, Favicon, FaviconAsset, FaviconDetailResponse, GenerationStatus, SourceType,
};

fn sample_favicon(id: &str, slug: &str) -> Favicon {
    Favicon {
        id: id.to_string(),
        slug: slug.to_string(),
        title: Some("Title".to_string()),
        target_domain: Some("example.com".to_string()),
        published_url: format!("/f/{}", slug),
        canonical_svg_key: None,
        source_type: SourceType::Upload,
        source_original_mime: Some("image/png".to_string()),
        source_hash: Some("abc".to_string()),
        source_size: Some(3),
        is_published: true,
        created_at: "2024-05-01T12:00:00+00:00".to_string(),
        updated_at: "2024-05-01T12:00:00+00:00".to_string(),
        generated_at: None,
        generation_status: GenerationStatus::Pending,
        generation_error: None,
        metadata: None,
        has_steganography: false,
    }
}

fn sample_asset(id: &str, favicon_id: &str) -> FaviconAsset {
    FaviconAsset {
        id: id.to_string(),
        favicon_id: favicon_id.to_string(),
        asset_type: AssetType::Png,
        size: Some("32x32".to_string()),
        format: "png".to_string(),
        storage_key: format!("assets/{}/32.png", favicon_id),
        mime_type: "image/png".to_string(),
        created_at: "2024-05-01T12:00:00+00:00".to_string(),
    }
}

#[test]
fn detail_view_rewrites_storage_keys_into_urls() {
    let favicon = sample_favicon("rec-1", "slug01");
    let assets = vec![sample_asset("asset-1", "rec-1"), sample_asset("asset-2", "rec-1")];
    let detail = FaviconDetailResponse::from_favicon_and_assets(favicon, assets);

    assert_eq!(detail.id, "rec-1");
    assert_eq!(detail.source_url, "/api/storage/sources/rec-1/original");
    assert_eq!(detail.assets.len(), 2);
    assert_eq!(detail.assets[0].id, "asset-1");
    assert_eq!(detail.assets[0].url, "/api/storage/assets/rec-1/32.png");
    assert_eq!(detail.assets[0].asset_type, "PNG");
    assert_eq!(detail.assets[0].mime_type, "image/png");
}

#[test]
fn asset_rows_round_trip_through_the_store() {
    let mut db = Database::new(":memory:").unwrap();
    let favicon = sample_favicon("rec-9", "slug09");
    db.insert_favicon(&favicon).unwrap();

    db.insert_asset(&sample_asset("a1", "rec-9")).unwrap();
    db.insert_asset(&sample_asset("a2", "rec-9")).unwrap();

    let assets = db.get_assets_by_favicon_id("rec-9").unwrap();
    assert_eq!(assets.len(), 2);
    assert!(assets.iter().all(|a| a.favicon_id == "rec-9"));
    assert!(assets.iter().any(|a| a.id == "a1"));
    assert!(assets.iter().any(|a| a.id == "a2"));
    assert_eq!(assets[0].size.as_deref(), Some("32x32"));

    db.delete_assets_by_favicon_id("rec-9").unwrap();
    assert!(db.get_assets_by_favicon_id("rec-9").unwrap().is_empty());
}

#[test]
fn timestamp_shape_check() {
    assert!(is_rfc3339_text("2024-05-01T12:00:00+00:00"));
    assert!(is_rfc3339_text("2024-05-01T12:00:00Z"));
    assert!(is_rfc3339_text("2024-05-01t12:00:00.123456789z"));
    assert!(is_rfc3339_text("1999-12-31T23:59:59-08:00"));

    assert!(!is_rfc3339_text("not-a-timestamp"));
    assert!(!is_rfc3339_text("2024-05-01 12:00:00Z"));
    assert!(!is_rfc3339_text("2024-05-01T12:00:00"));
    assert!(!is_rfc3339_text("2024-05-01T12:00:00.+00:00"));
    assert!(!is_rfc3339_text("2024-05-01T12:00:00.123"));
    assert!(!is_rfc3339_text(""));
}

#[test]
fn corrupt_stored_timestamp_fails_the_fetch() {
    // spec: an unparseable timestamp in a stored row is unrecoverable for
    // that row's fetch
    let mut db = Database::new(":memory:").unwrap();
    let mut bad = sample_favicon("rec-bad", "slugbad");
    bad.created_at = "not-a-timestamp".to_string();
    db.insert_favicon(&bad).unwrap();

    assert!(matches!(
        db.get_favicon_by_id("rec-bad"),
        Err(a_icon::error::ApiError::DatabaseError(_))
    ));

    // a derived-asset row with a corrupt timestamp poisons the asset fetch
    db.insert_favicon(&sample_favicon("rec-ok", "slugok")).unwrap();
    let mut bad_asset = sample_asset("a-bad", "rec-ok");
    bad_asset.created_at = "garbage".to_string();
    db.insert_asset(&bad_asset).unwrap();
    assert!(matches!(
        db.get_assets_by_favicon_id("rec-ok"),
        Err(a_icon::error::ApiError::DatabaseError(_))
    ));
}

#[test]
fn record_delete_cascades_to_asset_rows() {
    // the schema declares ON DELETE CASCADE and the bundled SQLite enforces
    // foreign keys by default, so deleting the record removes its asset rows
    let mut db = Database::new(":memory:").unwrap();
    db.insert_favicon(&sample_favicon("rec-7", "slug07")).unwrap();
    db.insert_asset(&sample_asset("a7", "rec-7")).unwrap();

    db.delete_favicon("rec-7").unwrap();

    assert!(db.get_favicon_by_id("rec-7").unwrap().is_none());
    assert!(db.get_assets_by_favicon_id("rec-7").unwrap().is_empty());
}

#[test]
fn update_keeps_identity_and_creation_time() {
    let mut db = Database::new(":memory:").unwrap();
    let mut favicon = sample_favicon("rec-5", "slug05");
    db.insert_favicon(&favicon).unwrap();

    favicon.title = Some("Renamed".to_string());
    favicon.updated_at = "2024-06-01T00:00:00+00:00".to_string();
    favicon.generation_status = GenerationStatus::Success;
    db.update_favicon(&favicon).unwrap();

    let read = db.get_favicon_by_id("rec-5").unwrap().unwrap();
    assert_eq!(read.title.as_deref(), Some("Renamed"));
    assert_eq!(read.created_at, "2024-05-01T12:00:00+00:00");
    assert_eq!(read.updated_at, "2024-06-01T00:00:00+00:00");
    assert!(matches!(read.generation_status, GenerationStatus::Success));

    // duplicate identifiers are refused by the store, as a database error
    assert!(matches!(
        db.insert_favicon(&sample_favicon("rec-5", "slug99")),
        Err(a_icon::error::ApiError::DatabaseError(_))
    ));
}
