//! The ingestion pipeline: validate a decoded submission, fingerprint it,
//! answer duplicates from the existing record without writing anything, and
//! otherwise stage a new record whose binary must be committed to the blob
//! store before the metadata row is inserted. The delete path mirrors this:
//! a read-only plan naming the blobs, then the row removals.

use vstd::prelude::*;
use crate::db::{
    Database,
    FaviconRowModel,
    decoded_asset_ok,
    decoded_assets_complete,
    fingerprint_match,
    has_fingerprint,
    spec_decode_asset,
    spec_decode_favicon,
    spec_encode_favicon,
};
use crate::error::ApiError;
use crate::ident;
use crate::models::{
    Favicon,
    FaviconAssetModel,
    FaviconDetailResponse,
    GenerationStatus,
    SourceType,
    spec_detail_response,
};
use crate::storage;
use crate::text;
use crate::validation;
use crate::validation::{MAX_FILE_SIZE, MAX_TEXT_LEN, spec_sniff, valid_domain_chars};
use crate::text::seq_starts_with;

verus! {

/// One decoded submission, from either entry variant: the raw bytes, the
/// client-declared MIME type (multipart header or data-URL header), and the
/// optional text fields.
pub struct SubmissionInput {
    pub bytes: Vec<u8>,
    pub declared_mime: Option<String>,
    pub source_type: SourceType,
    pub title: Option<String>,
    pub target_domain: Option<String>,
    pub metadata: Option<String>,
}

#[verifier::ext_equal]
pub ghost struct SubmissionModel {
    pub bytes: Seq<u8>,
    pub declared_mime: Option<Seq<char>>,
    pub source_type: SourceType,
    pub title: Option<Seq<char>>,
    pub target_domain: Option<Seq<char>>,
    pub metadata: Option<Seq<char>>,
}

impl View for SubmissionInput {
    type V = SubmissionModel;

    open spec fn view(&self) -> SubmissionModel {
        SubmissionModel {
            bytes: self.bytes@,
            declared_mime: self.declared_mime.deep_view(),
            source_type: self.source_type,
            title: self.title.deep_view(),
            target_domain: self.target_domain.deep_view(),
            metadata: self.metadata.deep_view(),
        }
    }
}

/// The validation rules, all of which must hold for any write to happen:
/// the size ceiling, a declared MIME type that for direct uploads names an
/// image, a recognized magic-byte signature, and, where supplied, domain
/// syntax and the metadata length bound.
pub open spec fn spec_submission_valid(s: SubmissionModel) -> bool {
    &&& s.bytes.len() <= MAX_FILE_SIZE
    &&& s.declared_mime is Some
    &&& (s.source_type is Upload ==> seq_starts_with(s.declared_mime->Some_0, "image/"@))
    &&& spec_sniff(s.bytes) is Some
    &&& (s.target_domain matches Some(d) ==> valid_domain_chars(d))
    &&& (s.metadata matches Some(m) ==> m.len() <= MAX_TEXT_LEN)
}

/// The metadata field a submission stores: the text as given when its
/// trimmed form is non-empty, absent otherwise.
pub open spec fn spec_normalized_metadata(m: Option<Seq<char>>) -> Option<Seq<char>> {
    match m {
        Some(t) => if text::spec_trim_spaces(t).len() > 0 {
            Some(t)
        } else {
            None
        },
        None => None,
    }
}

/// A staged ingestion: the record to insert, the object key its binary must
/// be written under first, and that binary with its content type.
pub struct PendingIngest {
    pub favicon: Favicon,
    pub source_key: String,
    pub bytes: Vec<u8>,
    pub mime: String,
}

/// What preparing a submission decides: answer from an existing duplicate,
/// or upload then commit a staged record.
pub enum IngestOutcome {
    Existing(FaviconDetailResponse),
    NeedsUpload(PendingIngest),
}

/// The staged record carries exactly the submission's data: the fingerprint
/// of its bytes, its declared MIME type and text fields, a pending
/// generation status, immediate publication, and the derived URL and key.
pub open spec fn spec_staged_ok(p: PendingIngest, s: SubmissionModel, now: Seq<char>) -> bool {
    &&& p.favicon@.source_hash == Some(ident::md5_hex_of(s.bytes))
    &&& p.favicon@.source_size == Some(s.bytes.len() as int)
    &&& p.favicon@.source_type == s.source_type
    &&& p.favicon@.source_original_mime == s.declared_mime
    &&& p.favicon@.generation_status is Pending
    &&& p.favicon@.is_published == true
    &&& p.favicon@.generated_at is None
    &&& p.favicon@.generation_error is None
    &&& p.favicon@.canonical_svg_key is None
    &&& p.favicon@.has_steganography == false
    &&& p.favicon@.created_at == now
    &&& p.favicon@.updated_at == now
    &&& p.favicon@.title == s.title
    &&& p.favicon@.target_domain == s.target_domain
    &&& p.favicon@.metadata == spec_normalized_metadata(s.metadata)
    &&& p.favicon@.published_url == "/f/"@ + p.favicon@.slug
    &&& p.favicon@.slug.len() == 10
    &&& (forall|i: int|
        0 <= i < p.favicon@.slug.len() ==> ident::is_lower_hex_char(
            #[trigger] p.favicon@.slug[i],
        ))
    &&& p.favicon@.id.len() == 36
    &&& p.source_key@ == "sources/"@ + p.favicon@.id + "/original"@
    &&& p.bytes@ == s.bytes
    &&& p.mime@ == s.declared_mime->Some_0
}

/// Validates a submission and resolves duplicates, writing nothing.
///
/// A rule violation is a validation-kind error, exactly when
/// `spec_submission_valid` fails. On a fingerprint hit the outcome is the
/// existing record's detail view, assembled from the stored row and its
/// decoded assets. Otherwise the outcome stages a fresh record (see
/// `spec_staged_ok`); only storage failures yield database-kind errors.
pub fn prepare_submission(db: &Database, input: SubmissionInput, now: &str) -> (r: Result<
    IngestOutcome,
    ApiError,
>)
    ensures
        (r matches Err(e) && e.is_validation()) <==> !spec_submission_valid(input@),
        r matches Err(e) ==> e.is_validation() || e matches ApiError::DatabaseError(_),
        r matches Ok(o) ==> (o matches IngestOutcome::Existing(d) ==> has_fingerprint(
            db.favicons(),
            ident::md5_hex_of(input@.bytes),
            input@.bytes.len() as int,
        ) && exists|k: Seq<char>| #![auto]
            db.favicons().contains_key(k) && fingerprint_match(
                db.favicons()[k],
                ident::md5_hex_of(input@.bytes),
                input@.bytes.len() as int,
            ) && (spec_decode_favicon(db.favicons()[k]) matches Some(f) && d@.id == f.id && d@.id
                == k && exists|assets: Seq<FaviconAssetModel>| #![auto]
                d@ == spec_detail_response(f, assets) && (forall|i: int|
                    0 <= i < assets.len() ==> decoded_asset_ok(
                        db.assets(),
                        k,
                        #[trigger] assets[i],
                    )) && decoded_assets_complete(db.assets(), k, assets))),
        r matches Ok(o) ==> (o matches IngestOutcome::NeedsUpload(p) ==> !has_fingerprint(
            db.favicons(),
            ident::md5_hex_of(input@.bytes),
            input@.bytes.len() as int,
        ) && spec_staged_ok(p, input@, now@)),
{
    let SubmissionInput { bytes, declared_mime, source_type, title, target_domain, metadata } =
        input;
    match validation::validate_file_size(bytes.len()) {
        Err(e) => {
            return Err(e);
        },
        Ok(()) => {},
    }
    let mime = match declared_mime {
        None => {
            return Err(
                ApiError::ValidationError(String::from_str("Missing file content type")),
            );
        },
        Some(m) => m,
    };
    match source_type {
        SourceType::Upload => {
            if !text::str_starts_with(mime.as_str(), "image/") {
                return Err(
                    ApiError::ValidationError(String::from_str("Only image files are allowed")),
                );
            }
        },
        SourceType::Canvas => {},
    }
    match validation::validate_image_type(bytes.as_slice()) {
        Err(e) => {
            return Err(e);
        },
        Ok(_detected) => {},
    }
    match &target_domain {
        Some(d) => match validation::validate_domain(d.as_str()) {
            Err(e) => {
                return Err(e);
            },
            Ok(()) => {},
        },
        None => {},
    }
    match &metadata {
        Some(m) => match validation::validate_metadata(m.as_str()) {
            Err(e) => {
                return Err(e);
            },
            Ok(()) => {},
        },
        None => {},
    }
    let hash = ident::md5_hex(bytes.as_slice());
    let source_size: i64 = bytes.len() as i64;
    match db.find_duplicate(hash.as_str(), source_size) {
        Err(e) => Err(e),
        Ok(Some(existing)) => {
            proof {
                assert(source_size as int == bytes@.len());
            }
            let ghost dupkey = choose|k: Seq<char>| #![auto]
                db.favicons().contains_key(k) && fingerprint_match(
                    db.favicons()[k],
                    hash@,
                    source_size as int,
                ) && spec_decode_favicon(db.favicons()[k]) == Some(existing@) && existing@.id
                == k;
            let assets = match db.get_assets_by_favicon_id(existing.id.as_str()) {
                Err(e) => {
                    return Err(e);
                },
                Ok(v) => v,
            };
            let ghost assets_ghost = crate::models::asset_models(assets@);
            let detail = FaviconDetailResponse::from_favicon_and_assets(existing, assets);
            proof {
                assert forall|i: int| 0 <= i < assets_ghost.len() implies decoded_asset_ok(
                    db.assets(),
                    dupkey,
                    #[trigger] assets_ghost[i],
                ) by {
                    assert(assets_ghost[i] == assets@[i]@);
                    assert(decoded_asset_ok(db.assets(), existing@.id, assets@[i]@));
                }
            }
            Ok(IngestOutcome::Existing(detail))
        },
        Ok(None) => {
            let id = ident::new_record_id();
            let slug = ident::generate_short_id(10);
            let mut published_url = String::from_str("/f/");
            published_url.append(slug.as_str());
            let has_metadata = match &metadata {
                Some(m) => {
                    let t = text::trim_spaces(m.as_str());
                    t.as_str().unicode_len() > 0
                },
                None => false,
            };
            let source_key = storage::source_key_for(id.as_str());
            let favicon = Favicon {
                id,
                slug,
                title,
                target_domain,
                published_url,
                canonical_svg_key: None,
                source_type,
                source_original_mime: Some(mime.clone()),
                source_hash: Some(hash),
                source_size: Some(source_size),
                is_published: true,
                created_at: String::from_str(now),
                updated_at: String::from_str(now),
                generated_at: None,
                generation_status: GenerationStatus::Pending,
                generation_error: None,
                metadata: if has_metadata {
                    metadata
                } else {
                    None
                },
                has_steganography: false,
            };
            Ok(IngestOutcome::NeedsUpload(PendingIngest { favicon, source_key, bytes, mime }))
        },
    }
}

/// Commits a staged ingestion after its binary was durably written: inserts
/// the metadata row (success certifies its id and slug were free) and
/// assembles the detail view from the new record and its stored asset rows
/// (none at ingestion time). A failure after the insert leaves the inserted
/// row in place (deletion is not compensated).
pub fn commit_submission(db: &mut Database, pending: PendingIngest) -> (r: Result<
    FaviconDetailResponse,
    ApiError,
>)
    ensures
        r is Ok ==> final(db).favicons() == old(db).favicons().insert(
            pending.favicon@.id,
            spec_encode_favicon(pending.favicon@),
        ) && final(db).assets() == old(db).assets() && !old(db).favicons().contains_key(
            pending.favicon@.id,
        ) && (forall|k: Seq<char>| #![auto]
            old(db).favicons().contains_key(k) ==> old(db).favicons()[k].slug
                != pending.favicon@.slug),
        r matches Ok(d) ==> d@.id == pending.favicon@.id && exists|
            assets: Seq<FaviconAssetModel>,
        | #![auto]
            d@ == spec_detail_response(pending.favicon@, assets) && (forall|i: int|
                0 <= i < assets.len() ==> decoded_asset_ok(
                    final(db).assets(),
                    pending.favicon@.id,
                    #[trigger] assets[i],
                )) && decoded_assets_complete(final(db).assets(), pending.favicon@.id, assets),
        r matches Err(e) ==> e matches ApiError::DatabaseError(_) && (final(db).favicons()
            == old(db).favicons() || final(db).favicons() == old(db).favicons().insert(
            pending.favicon@.id,
            spec_encode_favicon(pending.favicon@),
        )) && final(db).assets() == old(db).assets(),
{
    match db.insert_favicon(&pending.favicon) {
        Err(e) => {
            return Err(e);
        },
        Ok(()) => {},
    }
    let assets = match db.get_assets_by_favicon_id(pending.favicon.id.as_str()) {
        Err(e) => {
            return Err(e);
        },
        Ok(v) => v,
    };
    let ghost assets_ghost = crate::models::asset_models(assets@);
    let ghost fid = pending.favicon@.id;
    let ghost table = db.assets();
    let detail = FaviconDetailResponse::from_favicon_and_assets(pending.favicon, assets);
    proof {
        assert forall|i: int| 0 <= i < assets_ghost.len() implies decoded_asset_ok(
            table,
            fid,
            #[trigger] assets_ghost[i],
        ) by {
            assert(assets_ghost[i] == assets@[i]@);
            assert(decoded_asset_ok(table, fid, assets@[i]@));
        }
    }
    Ok(detail)
}

/// One per-identifier outcome of the batch delete.
pub struct DeleteResult {
    pub id: String,
    pub success: bool,
    pub error: Option<String>,
}

#[verifier::ext_equal]
pub ghost struct DeleteResultModel {
    pub id: Seq<char>,
    pub success: bool,
    pub error: Option<Seq<char>>,
}

impl View for DeleteResult {
    type V = DeleteResultModel;

    open spec fn view(&self) -> DeleteResultModel {
        DeleteResultModel {
            id: self.id@,
            success: self.success,
            error: self.error.deep_view(),
        }
    }
}

/// The blobs a record's deletion should best-effort remove: its source
/// binary and each derived asset's storage key.
pub struct DeleteKeys {
    pub source_key: String,
    pub asset_keys: Vec<String>,
}

/// What inspecting a record before deletion decides: stop with a failed
/// per-identifier result, or proceed to remove these blobs and then the
/// rows.
pub enum DeletePlan {
    Stop(DeleteResult),
    Proceed(DeleteKeys),
}

/// `key` is the storage key of some derived-asset row owned by `fid`.
pub open spec fn asset_key_listed(
    m: Map<Seq<char>, crate::db::AssetRowModel>,
    fid: Seq<char>,
    key: Seq<char>,
) -> bool {
    exists|k: Seq<char>| #![auto]
        m.contains_key(k) && m[k].favicon_id == fid && m[k].storage_key == key
}

/// Every derived-asset row owned by `fid` has its storage key in `keys`.
pub open spec fn asset_keys_complete(
    m: Map<Seq<char>, crate::db::AssetRowModel>,
    fid: Seq<char>,
    keys: Seq<String>,
) -> bool {
    forall|k: Seq<char>| #![auto]
        m.contains_key(k) && m[k].favicon_id == fid ==> exists|i: int| #![auto]
            0 <= i < keys.len() && keys[i]@ == m[k].storage_key
}

fn failure_result(id: &str, prefix: &str, detail: &String) -> (r: DeleteResult)
    ensures
        r@.id == id@,
        r@.success == false,
        r@.error == Some(prefix@ + detail@),
        seq_starts_with(prefix@ + detail@, prefix@),
{
    let mut msg = String::from_str(prefix);
    msg.append(detail.as_str());
    proof {
        assert((prefix@ + detail@).subrange(0, prefix@.len() as int) =~= prefix@);
    }
    DeleteResult { id: String::from_str(id), success: false, error: Some(msg) }
}

/// Inspects the record under `id` and names the blobs its deletion should
/// remove. A missing record stops with a failed result saying "Not found" —
/// a message no existing record's stop ever carries; a storage failure
/// stops with a "Database error: " or "Failed to get assets: " message;
/// otherwise the plan names the source key and the storage key of every
/// derived-asset row owned by the record — no fewer and no others.
pub fn begin_delete(db: &Database, id: &str) -> (r: DeletePlan)
    ensures
        r matches DeletePlan::Stop(res) ==> res@.id == id@ && res@.success == false && (
        res@.error == Some("Not found"@) || (res@.error matches Some(m) && (seq_starts_with(
            m,
            "Database error: "@,
        ) || seq_starts_with(m, "Failed to get assets: "@)))),
        r matches DeletePlan::Stop(res) ==> (res@.error == Some("Not found"@)
            ==> !db.favicons().contains_key(id@)),
        !db.favicons().contains_key(id@) ==> !(r matches DeletePlan::Proceed(_)),
        r matches DeletePlan::Proceed(keys) ==> db.favicons().contains_key(id@)
            && keys.source_key@ == "sources/"@ + id@ + "/original"@ && forall|i: int|
            #![trigger keys.asset_keys@[i]]
            0 <= i < keys.asset_keys@.len() ==> asset_key_listed(
                db.assets(),
                id@,
                keys.asset_keys@[i]@,
            ),
        r matches DeletePlan::Proceed(keys) ==> asset_keys_complete(
            db.assets(),
            id@,
            keys.asset_keys@,
        ),
{
    proof {
        reveal_strlit("Not found");
    }
    match db.get_favicon_by_id(id) {
        Ok(None) => DeletePlan::Stop(
            DeleteResult {
                id: String::from_str(id),
                success: false,
                error: Some(String::from_str("Not found")),
            },
        ),
        Err(e) => {
            let res = failure_result(id, "Database error: ", e.message());
            proof {
                reveal_strlit("Database error: ");
                assert(res@.error != Some("Not found"@)) by {
                    assert(("Database error: "@ + e.spec_message()).len() != "Not found"@.len());
                }
            }
            DeletePlan::Stop(res)
        },
        Ok(Some(_record)) => {
            match db.get_assets_by_favicon_id(id) {
                Err(e) => {
                    let res = failure_result(id, "Failed to get assets: ", e.message());
                    proof {
                        reveal_strlit("Failed to get assets: ");
                        assert(res@.error != Some("Not found"@)) by {
                            assert(("Failed to get assets: "@ + e.spec_message()).len()
                                != "Not found"@.len());
                        }
                    }
                    DeletePlan::Stop(res)
                },
                Ok(assets) => {
                    let mut asset_keys: Vec<String> = Vec::new();
                    let n = assets.len();
                    let mut i: usize = 0;
                    while i < n
                        invariant
                            i <= n,
                            n == assets@.len(),
                            asset_keys@.len() == i,
                            forall|j: int|
                                0 <= j < i ==> (#[trigger] asset_keys@[j])@ == assets@[
                                    j
                                ]@.storage_key,
                        decreases n - i,
                    {
                        asset_keys.push(assets[i].storage_key.clone());
                        i += 1;
                    }
                    proof {
                        assert forall|j: int| #![trigger asset_keys@[j]]
                            0 <= j < asset_keys@.len() implies asset_key_listed(
                            db.assets(),
                            id@,
                            asset_keys@[j]@,
                        ) by {
                            assert(decoded_asset_ok(db.assets(), id@, assets@[j]@));
                            let k = choose|k: Seq<char>| #![auto]
                                db.assets().contains_key(k) && db.assets()[k].favicon_id == id@
                                    && spec_decode_asset(db.assets()[k]) == Some(assets@[j]@)
                                    && assets@[j]@.id == k;
                            assert(db.assets()[k].storage_key == asset_keys@[j]@);
                        }
                        let models = crate::models::asset_models(assets@);
                        assert forall|k: Seq<char>| #![auto]
                            db.assets().contains_key(k) && db.assets()[k].favicon_id == id@
                                implies exists|i: int| #![auto]
                                0 <= i < asset_keys@.len() && asset_keys@[i]@ == db.assets()[
                                k
                            ].storage_key by {
                            let i = choose|i: int| #![auto]
                                0 <= i < models.len() && spec_decode_asset(db.assets()[k])
                                    == Some(models[i]);
                            assert(models[i] == assets@[i]@);
                            assert(asset_keys@[i]@ == db.assets()[k].storage_key);
                            assert(0 <= i < asset_keys@.len() && asset_keys@[i]@ == db.assets()[
                                k
                            ].storage_key);
                        }
                        assert(asset_keys_complete(db.assets(), id@, asset_keys@));
                    }
                    DeletePlan::Proceed(
                        DeleteKeys { source_key: storage::source_key_for(id), asset_keys },
                    )
                },
            }
        },
    }
}

/// Removes the record's rows, derived assets first: on success the record
/// and every asset row owned by it are gone and nothing else moved; a
/// failed step stops the rest and reports its message, leaving the record
/// row in place.
pub fn finish_delete(db: &mut Database, id: &str) -> (r: DeleteResult)
    ensures
        r@.id == id@,
        r@.success ==> final(db).favicons() == old(db).favicons().remove(id@)
            && final(db).assets() == old(db).assets().remove_keys(
            old(db).assets().dom().filter(
                |k: Seq<char>| old(db).assets()[k].favicon_id == id@,
            ),
        ) && r@.error is None,
        !r@.success ==> r@.error is Some && final(db).favicons() == old(db).favicons(),
{
    match db.delete_assets_by_favicon_id(id) {
        Err(e) => {
            return failure_result(id, "Failed to delete assets: ", e.message());
        },
        Ok(()) => {},
    }
    let ghost mid = db.assets();
    match db.delete_favicon(id) {
        Err(e) => {
            return failure_result(id, "Failed to delete favicon: ", e.message());
        },
        Ok(()) => {},
    }
    proof {
        // the explicit removal already emptied the id's asset rows, so the
        // cascade of the record delete removes nothing further
        let owned_mid = mid.dom().filter(|k: Seq<char>| mid[k].favicon_id == id@);
        assert forall|k: Seq<char>| !(#[trigger] owned_mid.contains(k)) by {
            if mid.dom().contains(k) && mid[k].favicon_id == id@ {
                assert(old(db).assets().contains_key(k));
                assert(mid[k] == old(db).assets()[k]);
                assert(false);
            }
        }
        assert(owned_mid =~= Set::<Seq<char>>::empty());
        assert(mid.remove_keys(owned_mid) =~= mid);
    }
    DeleteResult { id: String::from_str(id), success: true, error: None }
}

// --- the two entry variants ---

/// The text of the first field named `name`, when it exists and its bytes
/// read as UTF-8.
pub open spec fn spec_field_text(
    parts: Seq<crate::multipart::PartModel>,
    name: Seq<char>,
) -> Option<Seq<char>> {
    match crate::multipart::first_part_named(parts, name) {
        Some(p) => if vstd::utf8::valid_utf8(p.content) {
            Some(vstd::utf8::decode_utf8(p.content))
        } else {
            None
        },
        None => None,
    }
}

/// Decodes a direct upload: the multipart body against the boundary from
/// the Content-Type header, requiring a file part named `file`; the
/// optional `title`, `targetDomain` and `metadata` fields ride along.
/// A missing boundary or file part is a validation-kind error; otherwise
/// the submission carries the file's bytes and declared content type.
pub fn upload_submission(body: &[u8], content_type_header: &str) -> (r: Result<
    SubmissionInput,
    ApiError,
>)
    ensures
        r matches Err(e) ==> e.is_validation(),
        crate::multipart::spec_extract_boundary(content_type_header@) is None ==> r is Err,
        r matches Ok(s) ==> {
            let boundary = crate::multipart::spec_extract_boundary(content_type_header@)
                ->Some_0;
            let parts = crate::multipart::spec_parse_multipart(body@, boundary);
            &&& crate::multipart::first_file_named(parts, "file"@) matches Some(f)
                && s@.bytes == f.content && s@.declared_mime == f.content_type
            &&& s@.source_type is Upload
            &&& s@.title == spec_field_text(parts, "title"@)
            &&& s@.target_domain == spec_field_text(parts, "targetDomain"@)
            &&& s@.metadata == spec_field_text(parts, "metadata"@)
        },
        r is Err ==> crate::multipart::spec_extract_boundary(content_type_header@) is None || {
            let boundary = crate::multipart::spec_extract_boundary(content_type_header@)
                ->Some_0;
            crate::multipart::first_file_named(
                crate::multipart::spec_parse_multipart(body@, boundary),
                "file"@,
            ) is None
        },
{
    let boundary = match crate::multipart::extract_boundary(content_type_header) {
        Err(e) => {
            return Err(e);
        },
        Ok(b) => b,
    };
    let data = match crate::multipart::parse_multipart(body, boundary.as_str()) {
        Err(e) => {
            return Err(e);
        },
        Ok(d) => d,
    };
    let (bytes, declared_mime) = match data.get_file("file") {
        None => {
            return Err(ApiError::ValidationError(String::from_str("No file uploaded")));
        },
        Some(part) => {
            let bytes = crate::text::bytes_range(
                part.content.as_slice(),
                0,
                part.content.len(),
            );
            proof {
                assert(bytes@ =~= part.content@);
            }
            (bytes, crate::models::clone_opt_string(&part.content_type))
        },
    };
    let title = data.get_field("title");
    let target_domain = data.get_field("targetDomain");
    let metadata = data.get_field("metadata");
    Ok(
        SubmissionInput {
            bytes,
            declared_mime,
            source_type: SourceType::Upload,
            title,
            target_domain,
            metadata,
        },
    )
}

/// Decodes a canvas submission: the data-URL yields the bytes and MIME
/// type, and the request's optional fields ride along. A malformed
/// data-URL is the bad-request error `parse_data_url` reports.
pub fn canvas_submission(
    data_url: &str,
    title: Option<String>,
    target_domain: Option<String>,
    metadata: Option<String>,
) -> (r: Result<SubmissionInput, ApiError>)
    ensures
        r is Ok <==> crate::dataurl::spec_data_url_ok(data_url@),
        r matches Ok(s) ==> {
            let (h, d) = crate::dataurl::data_url_parts(data_url@)->Some_0;
            &&& s@.declared_mime == Some(crate::dataurl::mime_of_header(h))
            &&& crate::dataurl::base64_decoding(d) == Some(s@.bytes)
            &&& s@.source_type is Canvas
            &&& s@.title == title.deep_view()
            &&& s@.target_domain == target_domain.deep_view()
            &&& s@.metadata == metadata.deep_view()
        },
        r matches Err(e) ==> e matches ApiError::BadRequest(_),
{
    match crate::dataurl::parse_data_url(data_url) {
        Err(e) => Err(e),
        Ok((mime, bytes)) => Ok(
            SubmissionInput {
                bytes,
                declared_mime: Some(mime),
                source_type: SourceType::Canvas,
                title,
                target_domain,
                metadata,
            },
        ),
    }
}

// --- ingestion and deletion laws ---

/// Idempotent ingestion: committing a staged record for a fingerprint that
/// had no match gives the store a match, and the new record is the only
/// match — so a byte-identical resubmission is answered from that record,
/// with the same identifier, and writes nothing.
pub proof fn law_ingest_idempotent(
    m: Map<Seq<char>, FaviconRowModel>,
    row: FaviconRowModel,
    hash: Seq<char>,
    size: int,
)
    requires
        !has_fingerprint(m, hash, size),
        fingerprint_match(row, hash, size),
    ensures
        has_fingerprint(m.insert(row.id, row), hash, size),
        forall|k: Seq<char>| #![auto]
            m.insert(row.id, row).contains_key(k) && fingerprint_match(
                m.insert(row.id, row)[k],
                hash,
                size,
            ) ==> k == row.id,
{
    let m2 = m.insert(row.id, row);
    assert(m2.contains_key(row.id) && fingerprint_match(m2[row.id], hash, size));
    assert forall|k: Seq<char>| #![auto]
        m2.contains_key(k) && fingerprint_match(m2[k], hash, size) implies k == row.id by {
        if k != row.id {
            assert(m.contains_key(k) && m[k] == m2[k]);
        }
    }
}

/// No two records carry the same slug.
pub open spec fn distinct_slugs(m: Map<Seq<char>, FaviconRowModel>) -> bool {
    forall|k1: Seq<char>, k2: Seq<char>| #![auto]
        m.contains_key(k1) && m.contains_key(k2) && k1 != k2 ==> m[k1].slug != m[k2].slug
}

/// Slug uniqueness: a successful insert certifies that no stored record
/// carried the new slug (the store's UNIQUE constraint, stated by
/// `insert_favicon`), so pairwise-distinct slugs are preserved across any
/// sequence of ingestions — N ingestions yield N distinct slugs.
pub proof fn law_slug_uniqueness(m: Map<Seq<char>, FaviconRowModel>, row: FaviconRowModel)
    requires
        distinct_slugs(m),
        forall|k: Seq<char>| #![auto] m.contains_key(k) ==> m[k].slug != row.slug,
    ensures
        distinct_slugs(m.insert(row.id, row)),
{
    let m2 = m.insert(row.id, row);
    assert forall|k1: Seq<char>, k2: Seq<char>| #![auto]
        m2.contains_key(k1) && m2.contains_key(k2) && k1 != k2 implies m2[k1].slug
        != m2[k2].slug by {
        if k1 != row.id && k2 != row.id {
            assert(m.contains_key(k1) && m.contains_key(k2));
        } else if k1 == row.id {
            assert(m.contains_key(k2) && m2[k2] == m[k2]);
        } else {
            assert(m.contains_key(k1) && m2[k1] == m[k1]);
        }
    }
}

/// Partial delete independence: removing one record resolves its identifier
/// to nothing afterwards and leaves every other identifier's record exactly
/// as it was.
pub proof fn law_delete_partial(
    m: Map<Seq<char>, FaviconRowModel>,
    id: Seq<char>,
    other: Seq<char>,
)
    requires
        id != other,
    ensures
        !m.remove(id).contains_key(id),
        m.contains_key(other) ==> m.remove(id).contains_key(other) && m.remove(id)[other]
            == m[other],
{
}

} // verus!
