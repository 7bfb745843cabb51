use a_icon::db::Database;
use a_icon::ident::generate_short_id;
use a_icon::models::SourceType;
use a_icon::pipeline::{
    begin_delete, canvas_submission, commit_submission, finish_delete, prepare_submission,
    upload_submission, DeletePlan, IngestOutcome, SubmissionInput,
};

fn png_submission(extra: u8) -> SubmissionInput {
    SubmissionInput {
        bytes: vec![0x89, 0x50, 0x4E, 0x47, 0x0D, 0x0A, 0x1A, 0x0A, extra],
        declared_mime: Some("image/png".to_string()),
        source_type: SourceType::Upload,
        title: Some("An icon".to_string()),
        target_domain: Some("example.com".to_string()),
        metadata: None,
    }
}

const NOW: &str = "2024-05-01T12:00:00+00:00";

fn ingest(db: &mut Database, input: SubmissionInput) -> a_icon::models::FaviconDetailResponse {
    match prepare_submission(db, input, NOW).unwrap() {
        IngestOutcome::Existing(detail) => detail,
        IngestOutcome::NeedsUpload(pending) => {
            // the blob write would happen here, before the metadata commit
            commit_submission(db, pending).unwrap()
        },
    }
}

#[test]
fn idempotent_ingestion() {
    let mut db = Database::new(":memory:").unwrap();
    let first = ingest(&mut db, png_submission(1));
    let second = ingest(&mut db, png_submission(1));
    assert_eq!(first.id, second.id);
    assert_eq!(first.slug, second.slug);
    // and only one record exists
    let (_, total) = db.list_published_favicons(1, 100, "domain", "asc").unwrap();
    assert_eq!(total, 1);
}

#[test]
fn distinct_content_is_not_deduplicated() {
    let mut db = Database::new(":memory:").unwrap();
    let first = ingest(&mut db, png_submission(1));
    let second = ingest(&mut db, png_submission(2));
    assert_ne!(first.id, second.id);
    let (_, total) = db.list_published_favicons(1, 100, "domain", "asc").unwrap();
    assert_eq!(total, 2);
}

#[test]
fn sequential_ingestions_have_distinct_slugs() {
    let mut db = Database::new(":memory:").unwrap();
    let mut slugs = Vec::new();
    for n in 0..5u8 {
        slugs.push(ingest(&mut db, png_submission(n)).slug);
    }
    for i in 0..slugs.len() {
        for j in 0..i {
            assert_ne!(slugs[i], slugs[j]);
        }
    }
}

#[test]
fn short_ids_are_short_and_distinct() {
    let a = generate_short_id(10);
    let b = generate_short_id(10);
    assert_eq!(a.len(), 10);
    assert_eq!(b.len(), 10);
    assert!(!a.contains('-'));
    assert_ne!(a, b);
    assert_eq!(generate_short_id(40).len(), 32);
}

#[test]
fn ingested_record_detail_shape() {
    let mut db = Database::new(":memory:").unwrap();
    let detail = ingest(&mut db, png_submission(7));
    assert_eq!(detail.source_url, format!("/api/storage/sources/{}/original", detail.id));
    assert_eq!(detail.published_url, format!("/f/{}", detail.slug));
    assert_eq!(detail.source_type, "UPLOAD");
    assert_eq!(detail.generation_status, "PENDING");
    assert!(detail.is_published);
    assert_eq!(detail.created_at, NOW);
    assert!(detail.assets.is_empty());
    assert_eq!(detail.title.as_deref(), Some("An icon"));
    // the stored record reads back identically by id and by slug
    let by_id = db.get_favicon_by_id(&detail.id).unwrap().unwrap();
    assert_eq!(by_id.slug, detail.slug);
    assert_eq!(by_id.source_size, Some(9));
    assert_eq!(by_id.source_hash.as_ref().unwrap().len(), 32);
    let by_slug = db.get_favicon_by_slug(&detail.slug).unwrap().unwrap();
    assert_eq!(by_slug.id, detail.id);
}

#[test]
fn validation_failures_write_nothing() {
    let mut db = Database::new(":memory:").unwrap();

    let mut oversized = png_submission(1);
    oversized.bytes = vec![0x89, 0x50, 0x4E, 0x47]
        .into_iter()
        .chain(std::iter::repeat(0u8).take(512 * 1024))
        .collect();
    assert!(prepare_submission(&db, oversized, NOW).is_err());

    let mut not_an_image = png_submission(1);
    not_an_image.bytes = b"just some text".to_vec();
    assert!(prepare_submission(&db, not_an_image, NOW).is_err());

    let mut bad_domain = png_submission(1);
    bad_domain.target_domain = Some("nodomain".to_string());
    assert!(prepare_submission(&db, bad_domain, NOW).is_err());

    let mut bad_metadata = png_submission(1);
    bad_metadata.metadata = Some("x".repeat(257));
    assert!(prepare_submission(&db, bad_metadata, NOW).is_err());

    let mut not_image_mime = png_submission(1);
    not_image_mime.declared_mime = Some("text/plain".to_string());
    assert!(prepare_submission(&db, not_image_mime, NOW).is_err());

    let (_, total) = db.list_published_favicons(1, 100, "domain", "asc").unwrap();
    assert_eq!(total, 0);
}

#[test]
fn whitespace_metadata_is_normalized_to_absent() {
    let mut db = Database::new(":memory:").unwrap();
    let mut blank_meta = png_submission(1);
    blank_meta.metadata = Some("   \t ".to_string());
    let detail = ingest(&mut db, blank_meta);
    assert_eq!(detail.metadata, None);

    let mut real_meta = png_submission(2);
    real_meta.metadata = Some("  keep me  ".to_string());
    let detail = ingest(&mut db, real_meta);
    // a non-blank metadata string is stored as given, untrimmed
    assert_eq!(detail.metadata.as_deref(), Some("  keep me  "));
}

#[test]
fn canvas_submissions_flow_through_the_same_pipeline() {
    let mut db = Database::new(":memory:").unwrap();
    // the PNG magic bytes, base64-encoded
    let input = canvas_submission("data:image/png;base64,iVBORw0KGgo=", None, None, None)
        .unwrap();
    assert!(matches!(input.source_type, SourceType::Canvas));
    let detail = ingest(&mut db, input);
    assert_eq!(detail.source_type, "CANVAS");
}

#[test]
fn canvas_resubmission_is_answered_from_the_existing_record() {
    let mut db = Database::new(":memory:").unwrap();
    let url = "data:image/png;base64,iVBORw0KGgo=";
    let first = ingest(&mut db, canvas_submission(url, None, None, None).unwrap());
    let second = ingest(&mut db, canvas_submission(url, None, None, None).unwrap());
    assert_eq!(first.id, second.id);
    let (_, total) = db.list_published_favicons(1, 100, "domain", "asc").unwrap();
    assert_eq!(total, 1);
}

#[test]
fn upload_submission_from_multipart_body() {
    let mut body = Vec::new();
    body.extend_from_slice(b"--B\r\nContent-Disposition: form-data; name=\"title\"\r\n\r\nT\r\n");
    body.extend_from_slice(
        b"--B\r\nContent-Disposition: form-data; name=\"file\"; filename=\"i.png\"\r\n",
    );
    body.extend_from_slice(b"Content-Type: image/png\r\n\r\n\x89PNG\r\n");
    body.extend_from_slice(b"--B--\r\n");
    let input = upload_submission(&body, "multipart/form-data; boundary=B").unwrap();
    assert_eq!(input.bytes, b"\x89PNG".to_vec());
    assert_eq!(input.declared_mime.as_deref(), Some("image/png"));
    assert_eq!(input.title.as_deref(), Some("T"));
    assert!(input.target_domain.is_none());

    // a body without a file part is rejected
    let fieldless = b"--B\r\nContent-Disposition: form-data; name=\"title\"\r\n\r\nT\r\n--B--\r\n";
    assert!(upload_submission(fieldless, "multipart/form-data; boundary=B").is_err());
}

#[test]
fn partial_delete() {
    let mut db = Database::new(":memory:").unwrap();
    let kept = ingest(&mut db, png_submission(1));
    let gone = ingest(&mut db, png_submission(2));

    // deleting an existing and a missing identifier yields independent results
    let mut results = Vec::new();
    for id in [gone.id.as_str(), "no-such-id"] {
        match begin_delete(&db, id) {
            DeletePlan::Stop(res) => results.push(res),
            DeletePlan::Proceed(_keys) => {
                // blob deletion would happen here, best-effort
                results.push(finish_delete(&mut db, id));
            },
        }
    }
    assert_eq!(results.len(), 2);
    assert!(results[0].success);
    assert!(results[0].error.is_none());
    assert!(!results[1].success);
    assert_eq!(results[1].error.as_deref(), Some("Not found"));

    // the deleted record no longer resolves; the other is unchanged
    assert!(db.get_favicon_by_id(&gone.id).unwrap().is_none());
    let still = db.get_favicon_by_id(&kept.id).unwrap().unwrap();
    assert_eq!(still.slug, kept.slug);
}
