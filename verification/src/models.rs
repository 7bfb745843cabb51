//! Domain model of the registry: asset records and their derived-asset rows,
//! the closed enumerations stored as open strings at the storage boundary,
//! and the public response shapes assembled from them.
//!
//! Each executable type has a ghost model as its view; every contract in the
//! crate speaks of those models.

use vstd::prelude::*;
use crate::text;

verus! {

/// How the source image entered the registry.
#[derive(Clone, Copy, Debug, PartialEq, Eq, Structural)]
pub enum SourceType {
    Upload,
    Canvas,
}

/// State machine of derived-asset production: a record is created `Pending`
/// and is moved to `Success` or `Failed` only by the generation worker;
/// no transition leads back to `Pending`.
#[derive(Clone, Copy, Debug, PartialEq, Eq, Structural)]
pub enum GenerationStatus {
    Pending,
    Success,
    Failed,
}

/// The kind of a derived asset.
#[derive(Clone, Copy, Debug, PartialEq, Eq, Structural)]
pub enum AssetType {
    Ico,
    Png,
    Svg,
}

impl SourceType {
    pub open spec fn spec_str(self) -> Seq<char> {
        match self {
            SourceType::Upload => "UPLOAD"@,
            SourceType::Canvas => "CANVAS"@,
        }
    }

    /// The inverse of `spec_str` on the stored representation.
    pub open spec fn spec_from_str(s: Seq<char>) -> Option<SourceType> {
        if s == "UPLOAD"@ {
            Some(SourceType::Upload)
        } else if s == "CANVAS"@ {
            Some(SourceType::Canvas)
        } else {
            None
        }
    }

    pub fn as_str(&self) -> (s: &'static str)
        ensures
            s@ == self.spec_str(),
    {
        match self {
            SourceType::Upload => "UPLOAD",
            SourceType::Canvas => "CANVAS",
        }
    }

    pub fn from_str(s: &str) -> (r: Option<SourceType>)
        ensures
            r == SourceType::spec_from_str(s@),
    {
        if text::str_eq(s, "UPLOAD") {
            Some(SourceType::Upload)
        } else if text::str_eq(s, "CANVAS") {
            Some(SourceType::Canvas)
        } else {
            None
        }
    }
}

impl GenerationStatus {
    pub open spec fn spec_str(self) -> Seq<char> {
        match self {
            GenerationStatus::Pending => "PENDING"@,
            GenerationStatus::Success => "SUCCESS"@,
            GenerationStatus::Failed => "FAILED"@,
        }
    }

    /// The inverse of `spec_str` on the stored representation.
    pub open spec fn spec_from_str(s: Seq<char>) -> Option<GenerationStatus> {
        if s == "PENDING"@ {
            Some(GenerationStatus::Pending)
        } else if s == "SUCCESS"@ {
            Some(GenerationStatus::Success)
        } else if s == "FAILED"@ {
            Some(GenerationStatus::Failed)
        } else {
            None
        }
    }

    pub fn as_str(&self) -> (s: &'static str)
        ensures
            s@ == self.spec_str(),
    {
        match self {
            GenerationStatus::Pending => "PENDING",
            GenerationStatus::Success => "SUCCESS",
            GenerationStatus::Failed => "FAILED",
        }
    }

    pub fn from_str(s: &str) -> (r: Option<GenerationStatus>)
        ensures
            r == GenerationStatus::spec_from_str(s@),
    {
        if text::str_eq(s, "PENDING") {
            Some(GenerationStatus::Pending)
        } else if text::str_eq(s, "SUCCESS") {
            Some(GenerationStatus::Success)
        } else if text::str_eq(s, "FAILED") {
            Some(GenerationStatus::Failed)
        } else {
            None
        }
    }
}

impl AssetType {
    pub open spec fn spec_str(self) -> Seq<char> {
        match self {
            AssetType::Ico => "ICO"@,
            AssetType::Png => "PNG"@,
            AssetType::Svg => "SVG"@,
        }
    }

    /// The inverse of `spec_str` on the stored representation.
    pub open spec fn spec_from_str(s: Seq<char>) -> Option<AssetType> {
        if s == "ICO"@ {
            Some(AssetType::Ico)
        } else if s == "PNG"@ {
            Some(AssetType::Png)
        } else if s == "SVG"@ {
            Some(AssetType::Svg)
        } else {
            None
        }
    }

    pub fn as_str(&self) -> (s: &'static str)
        ensures
            s@ == self.spec_str(),
    {
        match self {
            AssetType::Ico => "ICO",
            AssetType::Png => "PNG",
            AssetType::Svg => "SVG",
        }
    }

    pub fn from_str(s: &str) -> (r: Option<AssetType>)
        ensures
            r == AssetType::spec_from_str(s@),
    {
        if text::str_eq(s, "ICO") {
            Some(AssetType::Ico)
        } else if text::str_eq(s, "PNG") {
            Some(AssetType::Png)
        } else if text::str_eq(s, "SVG") {
            Some(AssetType::Svg)
        } else {
            None
        }
    }
}

/// Every stored string round-trips through its enumeration: decoding the
/// encoding of a value gives the value back, for each of the three closed
/// enumerations.
pub proof fn lemma_enum_str_round_trip(
    st: SourceType,
    gs: GenerationStatus,
    at: AssetType,
)
    ensures
        SourceType::spec_from_str(st.spec_str()) == Some(st),
        GenerationStatus::spec_from_str(gs.spec_str()) == Some(gs),
        AssetType::spec_from_str(at.spec_str()) == Some(at),
{
    reveal_strlit("UPLOAD");
    reveal_strlit("CANVAS");
    reveal_strlit("PENDING");
    reveal_strlit("SUCCESS");
    reveal_strlit("FAILED");
    reveal_strlit("ICO");
    reveal_strlit("PNG");
    reveal_strlit("SVG");
    assert("CANVAS"@[0] != "UPLOAD"@[0]);
    assert("SUCCESS"@[0] != "PENDING"@[0]);
    assert("FAILED"@.len() != "PENDING"@.len());
    assert("FAILED"@.len() != "SUCCESS"@.len());
    assert("PNG"@[0] != "ICO"@[0]);
    assert("SVG"@[0] != "ICO"@[0]);
    assert("SVG"@[0] != "PNG"@[0]);
}

/// An asset record ("favicon"): the unit of ingestion and deduplication.
/// Timestamps are carried as their stored RFC3339 text.
pub struct Favicon {
    pub id: String,
    pub slug: String,
    pub title: Option<String>,
    pub target_domain: Option<String>,
    pub published_url: String,
    pub canonical_svg_key: Option<String>,
    pub source_type: SourceType,
    pub source_original_mime: Option<String>,
    pub source_hash: Option<String>,
    pub source_size: Option<i64>,
    pub is_published: bool,
    pub created_at: String,
    pub updated_at: String,
    pub generated_at: Option<String>,
    pub generation_status: GenerationStatus,
    pub generation_error: Option<String>,
    pub metadata: Option<String>,
    pub has_steganography: bool,
}

/// The mathematical model of an asset record.
#[verifier::ext_equal]
pub ghost struct FaviconModel {
    pub id: Seq<char>,
    pub slug: Seq<char>,
    pub title: Option<Seq<char>>,
    pub target_domain: Option<Seq<char>>,
    pub published_url: Seq<char>,
    pub canonical_svg_key: Option<Seq<char>>,
    pub source_type: SourceType,
    pub source_original_mime: Option<Seq<char>>,
    pub source_hash: Option<Seq<char>>,
    pub source_size: Option<int>,
    pub is_published: bool,
    pub created_at: Seq<char>,
    pub updated_at: Seq<char>,
    pub generated_at: Option<Seq<char>>,
    pub generation_status: GenerationStatus,
    pub generation_error: Option<Seq<char>>,
    pub metadata: Option<Seq<char>>,
    pub has_steganography: bool,
}

impl View for Favicon {
    type V = FaviconModel;

    open spec fn view(&self) -> FaviconModel {
        FaviconModel {
            id: self.id@,
            slug: self.slug@,
            title: self.title.deep_view(),
            target_domain: self.target_domain.deep_view(),
            published_url: self.published_url@,
            canonical_svg_key: self.canonical_svg_key.deep_view(),
            source_type: self.source_type,
            source_original_mime: self.source_original_mime.deep_view(),
            source_hash: self.source_hash.deep_view(),
            source_size: match self.source_size {
                Some(n) => Some(n as int),
                None => None,
            },
            is_published: self.is_published,
            created_at: self.created_at@,
            updated_at: self.updated_at@,
            generated_at: self.generated_at.deep_view(),
            generation_status: self.generation_status,
            generation_error: self.generation_error.deep_view(),
            metadata: self.metadata.deep_view(),
            has_steganography: self.has_steganography,
        }
    }
}

/// A derived asset row, owned by its parent record.
pub struct FaviconAsset {
    pub id: String,
    pub favicon_id: String,
    pub asset_type: AssetType,
    pub size: Option<String>,
    pub format: String,
    pub storage_key: String,
    pub mime_type: String,
    pub created_at: String,
}

/// The mathematical model of a derived asset row.
#[verifier::ext_equal]
pub ghost struct FaviconAssetModel {
    pub id: Seq<char>,
    pub favicon_id: Seq<char>,
    pub asset_type: AssetType,
    pub size: Option<Seq<char>>,
    pub format: Seq<char>,
    pub storage_key: Seq<char>,
    pub mime_type: Seq<char>,
    pub created_at: Seq<char>,
}

impl View for FaviconAsset {
    type V = FaviconAssetModel;

    open spec fn view(&self) -> FaviconAssetModel {
        FaviconAssetModel {
            id: self.id@,
            favicon_id: self.favicon_id@,
            asset_type: self.asset_type,
            size: self.size.deep_view(),
            format: self.format@,
            storage_key: self.storage_key@,
            mime_type: self.mime_type@,
            created_at: self.created_at@,
        }
    }
}

/// The models of a sequence of derived asset rows.
pub open spec fn asset_models(s: Seq<FaviconAsset>) -> Seq<FaviconAssetModel> {
    s.map_values(|a: FaviconAsset| a@)
}

/// One listing entry of the public directory.
pub struct DirectoryItem {
    pub id: String,
    pub slug: String,
    pub title: Option<String>,
    pub target_domain: Option<String>,
    pub published_url: String,
    pub created_at: String,
}

#[verifier::ext_equal]
pub ghost struct DirectoryItemModel {
    pub id: Seq<char>,
    pub slug: Seq<char>,
    pub title: Option<Seq<char>>,
    pub target_domain: Option<Seq<char>>,
    pub published_url: Seq<char>,
    pub created_at: Seq<char>,
}

impl View for DirectoryItem {
    type V = DirectoryItemModel;

    open spec fn view(&self) -> DirectoryItemModel {
        DirectoryItemModel {
            id: self.id@,
            slug: self.slug@,
            title: self.title.deep_view(),
            target_domain: self.target_domain.deep_view(),
            published_url: self.published_url@,
            created_at: self.created_at@,
        }
    }
}

/// The paginated directory listing returned to callers.
pub struct DirectoryResponse {
    pub items: Vec<DirectoryItem>,
    pub total: i64,
    pub page: i64,
    pub page_size: i64,
    pub total_pages: i64,
}

#[verifier::ext_equal]
pub ghost struct DirectoryResponseModel {
    pub items: Seq<DirectoryItemModel>,
    pub total: int,
    pub page: int,
    pub page_size: int,
    pub total_pages: int,
}

impl View for DirectoryResponse {
    type V = DirectoryResponseModel;

    open spec fn view(&self) -> DirectoryResponseModel {
        DirectoryResponseModel {
            items: self.items@.map_values(|d: DirectoryItem| d@),
            total: self.total as int,
            page: self.page as int,
            page_size: self.page_size as int,
            total_pages: self.total_pages as int,
        }
    }
}

pub(crate) fn clone_opt_string(o: &Option<String>) -> (r: Option<String>)
    ensures
        r.deep_view() == o.deep_view(),
{
    match o {
        Some(s) => Some(s.clone()),
        None => None,
    }
}

/// The public projection of one derived asset, its storage key rewritten
/// into a public URL.
pub struct AssetResponse {
    pub id: String,
    pub asset_type: String,
    pub size: Option<String>,
    pub format: String,
    pub mime_type: String,
    pub url: String,
}

#[verifier::ext_equal]
pub ghost struct AssetResponseModel {
    pub id: Seq<char>,
    pub asset_type: Seq<char>,
    pub size: Option<Seq<char>>,
    pub format: Seq<char>,
    pub mime_type: Seq<char>,
    pub url: Seq<char>,
}

impl View for AssetResponse {
    type V = AssetResponseModel;

    open spec fn view(&self) -> AssetResponseModel {
        AssetResponseModel {
            id: self.id@,
            asset_type: self.asset_type@,
            size: self.size.deep_view(),
            format: self.format@,
            mime_type: self.mime_type@,
            url: self.url@,
        }
    }
}

/// The projection of a derived asset: its fields verbatim, the type as its
/// stored string, and the URL `/api/storage/{storageKey}`.
pub open spec fn spec_asset_response(a: FaviconAssetModel) -> AssetResponseModel {
    AssetResponseModel {
        id: a.id,
        asset_type: a.asset_type.spec_str(),
        size: a.size,
        format: a.format,
        mime_type: a.mime_type,
        url: "/api/storage/"@ + a.storage_key,
    }
}

impl AssetResponse {
    /// Builds the public projection of one derived asset.
    pub fn from_asset(asset: FaviconAsset) -> (r: AssetResponse)
        ensures
            r@ == spec_asset_response(asset@),
    {
        let mut url = String::from_str("/api/storage/");
        url.append(asset.storage_key.as_str());
        let r = AssetResponse {
            id: asset.id,
            asset_type: String::from_str(asset.asset_type.as_str()),
            size: asset.size,
            format: asset.format,
            mime_type: asset.mime_type,
            url,
        };
        proof {
            assert(r@ =~= spec_asset_response(asset@));
        }
        r
    }
}

fn clone_asset(a: &FaviconAsset) -> (r: FaviconAsset)
    ensures
        r@ == a@,
{
    FaviconAsset {
        id: a.id.clone(),
        favicon_id: a.favicon_id.clone(),
        asset_type: a.asset_type,
        size: clone_opt_string(&a.size),
        format: a.format.clone(),
        storage_key: a.storage_key.clone(),
        mime_type: a.mime_type.clone(),
        created_at: a.created_at.clone(),
    }
}

/// The detail view of one record together with its derived assets.
pub struct FaviconDetailResponse {
    pub id: String,
    pub slug: String,
    pub title: Option<String>,
    pub target_domain: Option<String>,
    pub published_url: String,
    pub source_url: String,
    pub source_type: String,
    pub is_published: bool,
    pub created_at: String,
    pub generated_at: Option<String>,
    pub generation_status: String,
    pub generation_error: Option<String>,
    pub metadata: Option<String>,
    pub has_steganography: bool,
    pub assets: Vec<AssetResponse>,
}

#[verifier::ext_equal]
pub ghost struct FaviconDetailResponseModel {
    pub id: Seq<char>,
    pub slug: Seq<char>,
    pub title: Option<Seq<char>>,
    pub target_domain: Option<Seq<char>>,
    pub published_url: Seq<char>,
    pub source_url: Seq<char>,
    pub source_type: Seq<char>,
    pub is_published: bool,
    pub created_at: Seq<char>,
    pub generated_at: Option<Seq<char>>,
    pub generation_status: Seq<char>,
    pub generation_error: Option<Seq<char>>,
    pub metadata: Option<Seq<char>>,
    pub has_steganography: bool,
    pub assets: Seq<AssetResponseModel>,
}

impl View for FaviconDetailResponse {
    type V = FaviconDetailResponseModel;

    open spec fn view(&self) -> FaviconDetailResponseModel {
        FaviconDetailResponseModel {
            id: self.id@,
            slug: self.slug@,
            title: self.title.deep_view(),
            target_domain: self.target_domain.deep_view(),
            published_url: self.published_url@,
            source_url: self.source_url@,
            source_type: self.source_type@,
            is_published: self.is_published,
            created_at: self.created_at@,
            generated_at: self.generated_at.deep_view(),
            generation_status: self.generation_status@,
            generation_error: self.generation_error.deep_view(),
            metadata: self.metadata.deep_view(),
            has_steganography: self.has_steganography,
            assets: self.assets@.map_values(|a: AssetResponse| a@),
        }
    }
}

/// The detail view of a record: its fields verbatim, the enumerations as
/// their stored strings, the source URL
/// `/api/storage/sources/{id}/original`, and one projection per asset.
pub open spec fn spec_detail_response(
    f: FaviconModel,
    assets: Seq<FaviconAssetModel>,
) -> FaviconDetailResponseModel {
    FaviconDetailResponseModel {
        id: f.id,
        slug: f.slug,
        title: f.title,
        target_domain: f.target_domain,
        published_url: f.published_url,
        source_url: "/api/storage/sources/"@ + f.id + "/original"@,
        source_type: f.source_type.spec_str(),
        is_published: f.is_published,
        created_at: f.created_at,
        generated_at: f.generated_at,
        generation_status: f.generation_status.spec_str(),
        generation_error: f.generation_error,
        metadata: f.metadata,
        has_steganography: f.has_steganography,
        assets: assets.map_values(|a: FaviconAssetModel| spec_asset_response(a)),
    }
}

impl FaviconDetailResponse {
    /// Assembles the detail view from a record and its derived assets.
    pub fn from_favicon_and_assets(favicon: Favicon, assets: Vec<FaviconAsset>) -> (r:
        FaviconDetailResponse)
        ensures
            r@ == spec_detail_response(favicon@, asset_models(assets@)),
    {
        let mut source_url = String::from_str("/api/storage/sources/");
        source_url.append(favicon.id.as_str());
        source_url.append("/original");
        let mut rendered: Vec<AssetResponse> = Vec::new();
        let n = assets.len();
        let mut i: usize = 0;
        while i < n
            invariant
                i <= n,
                n == assets@.len(),
                rendered@.len() == i,
                forall|j: int|
                    0 <= j < i ==> (#[trigger] rendered@[j])@ == spec_asset_response(
                        assets@[j]@,
                    ),
            decreases n - i,
        {
            rendered.push(AssetResponse::from_asset(clone_asset(&assets[i])));
            i += 1;
        }
        let r = FaviconDetailResponse {
            id: favicon.id,
            slug: favicon.slug,
            title: favicon.title,
            target_domain: favicon.target_domain,
            published_url: favicon.published_url,
            source_url,
            source_type: String::from_str(favicon.source_type.as_str()),
            is_published: favicon.is_published,
            created_at: favicon.created_at,
            generated_at: favicon.generated_at,
            generation_status: String::from_str(favicon.generation_status.as_str()),
            generation_error: favicon.generation_error,
            metadata: favicon.metadata,
            has_steganography: favicon.has_steganography,
            assets: rendered,
        };
        proof {
            assert(r@.assets =~= asset_models(assets@).map_values(
                |a: FaviconAssetModel| spec_asset_response(a),
            ));
            assert(r@ =~= spec_detail_response(favicon@, asset_models(assets@)));
        }
        r
    }
}

} // verus!
