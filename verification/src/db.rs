//! The metadata store: asset records and derived-asset rows persisted in a
//! relational engine. The engine itself is trusted at its interface — each
//! SQL operation is a wrapper whose contract speaks of the two table
//! contents — while the encode/decode boundary between domain values and
//! stored rows, and everything built on it, is verified.

use vstd::prelude::*;
use vstd::arithmetic::div_mod::lemma_fundamental_div_mod;
use vstd::arithmetic::mul::lemma_mul_inequality;
use rusqlite::OptionalExtension;
use crate::error::ApiError;
use crate::models::{
    DirectoryItem,
    Favicon,
    FaviconAsset,
    FaviconAssetModel,
    FaviconModel,
    GenerationStatus,
    SourceType,
};
use crate::models::AssetType;
use crate::models::clone_opt_string;

verus! {

#[verifier::external_type_specification]
#[verifier::external_body]
pub struct ExConnection(rusqlite::Connection);

#[verifier::external_type_specification]
#[verifier::external_body]
pub struct ExRow<'a>(rusqlite::Row<'a>);

#[verifier::external_type_specification]
#[verifier::external_body]
pub struct ExSqliteError(rusqlite::Error);

/// An asset record as stored: enumerations are open strings, flags are
/// integers; decoding back to the domain type can reject a corrupt row.
pub struct FaviconRow {
    pub id: String,
    pub slug: String,
    pub title: Option<String>,
    pub target_domain: Option<String>,
    pub published_url: String,
    pub canonical_svg_key: Option<String>,
    pub source_type: String,
    pub source_original_mime: Option<String>,
    pub source_hash: Option<String>,
    pub source_size: Option<i64>,
    pub is_published: i64,
    pub created_at: String,
    pub updated_at: String,
    pub generated_at: Option<String>,
    pub generation_status: String,
    pub generation_error: Option<String>,
    pub metadata: Option<String>,
    pub has_steganography: i64,
}

#[verifier::ext_equal]
pub ghost struct FaviconRowModel {
    pub id: Seq<char>,
    pub slug: Seq<char>,
    pub title: Option<Seq<char>>,
    pub target_domain: Option<Seq<char>>,
    pub published_url: Seq<char>,
    pub canonical_svg_key: Option<Seq<char>>,
    pub source_type: Seq<char>,
    pub source_original_mime: Option<Seq<char>>,
    pub source_hash: Option<Seq<char>>,
    pub source_size: Option<int>,
    pub is_published: int,
    pub created_at: Seq<char>,
    pub updated_at: Seq<char>,
    pub generated_at: Option<Seq<char>>,
    pub generation_status: Seq<char>,
    pub generation_error: Option<Seq<char>>,
    pub metadata: Option<Seq<char>>,
    pub has_steganography: int,
}

impl View for FaviconRow {
    type V = FaviconRowModel;

    open spec fn view(&self) -> FaviconRowModel {
        FaviconRowModel {
            id: self.id@,
            slug: self.slug@,
            title: self.title.deep_view(),
            target_domain: self.target_domain.deep_view(),
            published_url: self.published_url@,
            canonical_svg_key: self.canonical_svg_key.deep_view(),
            source_type: self.source_type@,
            source_original_mime: self.source_original_mime.deep_view(),
            source_hash: self.source_hash.deep_view(),
            source_size: match self.source_size {
                Some(n) => Some(n as int),
                None => None,
            },
            is_published: self.is_published as int,
            created_at: self.created_at@,
            updated_at: self.updated_at@,
            generated_at: self.generated_at.deep_view(),
            generation_status: self.generation_status@,
            generation_error: self.generation_error.deep_view(),
            metadata: self.metadata.deep_view(),
            has_steganography: self.has_steganography as int,
        }
    }
}

/// A derived-asset row as stored.
pub struct AssetRow {
    pub id: String,
    pub favicon_id: String,
    pub asset_type: String,
    pub size: Option<String>,
    pub format: String,
    pub storage_key: String,
    pub mime_type: String,
    pub created_at: String,
}

#[verifier::ext_equal]
pub ghost struct AssetRowModel {
    pub id: Seq<char>,
    pub favicon_id: Seq<char>,
    pub asset_type: Seq<char>,
    pub size: Option<Seq<char>>,
    pub format: Seq<char>,
    pub storage_key: Seq<char>,
    pub mime_type: Seq<char>,
    pub created_at: Seq<char>,
}

impl View for AssetRow {
    type V = AssetRowModel;

    open spec fn view(&self) -> AssetRowModel {
        AssetRowModel {
            id: self.id@,
            favicon_id: self.favicon_id@,
            asset_type: self.asset_type@,
            size: self.size.deep_view(),
            format: self.format@,
            storage_key: self.storage_key@,
            mime_type: self.mime_type@,
            created_at: self.created_at@,
        }
    }
}

// --- the shape of stored timestamps ---

pub open spec fn is_digit_char(c: char) -> bool {
    48 <= c as u32 && c as u32 <= 57
}

/// Decimal digits everywhere in `[from, to)`.
pub open spec fn digits_in(s: Seq<char>, from: int, to: int) -> bool {
    forall|i: int| from <= i < to ==> is_digit_char(#[trigger] s[i])
}

/// The index of the first non-digit at or after `k` (`s.len()` when the
/// digits run to the end).
pub open spec fn first_non_digit_from(s: Seq<char>, k: int) -> int
    decreases s.len() - k,
{
    if k < 0 || k >= s.len() {
        s.len() as int
    } else if !is_digit_char(s[k]) {
        k
    } else {
        first_non_digit_from(s, k + 1)
    }
}

proof fn lemma_first_non_digit_from(s: Seq<char>, k: int)
    requires
        0 <= k <= s.len(),
    ensures
        k <= first_non_digit_from(s, k) <= s.len(),
        digits_in(s, k, first_non_digit_from(s, k)),
        first_non_digit_from(s, k) < s.len() ==> !is_digit_char(s[first_non_digit_from(s, k)]),
    decreases s.len() - k,
{
    if 0 <= k < s.len() && is_digit_char(s[k]) {
        lemma_first_non_digit_from(s, k + 1);
    }
}

/// The shape of an RFC3339 timestamp, as this store requires its stored
/// timestamps to read: `YYYY-MM-DDThh:mm:ss`, an optional non-empty
/// fraction `.digits`, then `Z` or a numeric offset `±hh:mm` closing the
/// text. Lowercase `t`/`z` are accepted; calendar validity of the digit
/// fields is not examined — this is the corruption test of §stored rows,
/// not a calendar.
pub open spec fn rfc3339_text(s: Seq<char>) -> bool {
    &&& s.len() >= 20
    &&& digits_in(s, 0, 4)
    &&& s[4] == '-'
    &&& digits_in(s, 5, 7)
    &&& s[7] == '-'
    &&& digits_in(s, 8, 10)
    &&& (s[10] == 'T' || s[10] == 't')
    &&& digits_in(s, 11, 13)
    &&& s[13] == ':'
    &&& digits_in(s, 14, 16)
    &&& s[16] == ':'
    &&& digits_in(s, 17, 19)
    &&& {
        let off = if s[19] == '.' {
            first_non_digit_from(s, 20)
        } else {
            19
        };
        &&& (s[19] == '.' ==> off > 20)
        &&& off < s.len()
        &&& if s[off] == 'Z' || s[off] == 'z' {
            off == s.len() - 1
        } else {
            &&& (s[off] == '+' || s[off] == '-')
            &&& s.len() == off + 6
            &&& digits_in(s, off + 1, off + 3)
            &&& s[off + 3] == ':'
            &&& digits_in(s, off + 4, off + 6)
        }
    }
}

fn is_digit(c: char) -> (r: bool)
    ensures
        r == is_digit_char(c),
{
    let u = c as u32;
    48 <= u && u <= 57
}

/// Checks `digits_in(s, from, to)`.
fn check_digits(s: &str, from: usize, to: usize) -> (r: bool)
    requires
        from <= to <= s@.len(),
    ensures
        r == digits_in(s@, from as int, to as int),
{
    let mut i: usize = from;
    while i < to
        invariant
            from <= i <= to <= s@.len(),
            forall|j: int| from <= j < i ==> is_digit_char(#[trigger] s@[j]),
        decreases to - i,
    {
        if !is_digit(s.get_char(i)) {
            return false;
        }
        i += 1;
    }
    true
}

/// Whether `s` reads as an RFC3339 timestamp (see `rfc3339_text`).
pub fn is_rfc3339_text(s: &str) -> (r: bool)
    ensures
        r == rfc3339_text(s@),
{
    let n = s.unicode_len();
    if n < 20 {
        return false;
    }
    if !(check_digits(s, 0, 4) && s.get_char(4) == '-' && check_digits(s, 5, 7) && s.get_char(7)
        == '-' && check_digits(s, 8, 10)) {
        return false;
    }
    let t = s.get_char(10);
    if !(t == 'T' || t == 't') {
        return false;
    }
    if !(check_digits(s, 11, 13) && s.get_char(13) == ':' && check_digits(s, 14, 16)
        && s.get_char(16) == ':' && check_digits(s, 17, 19)) {
        return false;
    }
    let off: usize = if s.get_char(19) == '.' {
        let mut i: usize = 20;
        while i < n && is_digit(s.get_char(i))
            invariant
                20 <= i <= n,
                n == s@.len(),
                forall|j: int| 20 <= j < i ==> is_digit_char(#[trigger] s@[j]),
            decreases n - i,
        {
            i += 1;
        }
        proof {
            lemma_first_non_digit_from(s@, 20);
            let f = first_non_digit_from(s@, 20);
            if f < i as int {
                assert(is_digit_char(s@[f]));
                assert(false);
            }
            if f > i as int {
                assert((i as int) < s@.len());
                assert(is_digit_char(s@[i as int]));
                assert(false);
            }
        }
        if i == 20 {
            return false;
        }
        i
    } else {
        19
    };
    if off >= n {
        return false;
    }
    let c = s.get_char(off);
    if c == 'Z' || c == 'z' {
        return off == n - 1;
    }
    if !(c == '+' || c == '-') {
        return false;
    }
    if n - off != 6 {
        return false;
    }
    check_digits(s, off + 1, off + 3) && s.get_char(off + 3) == ':' && check_digits(
        s,
        off + 4,
        off + 6,
    )
}

// --- the encode/decode boundary ---

/// The stored form of a domain record.
pub open spec fn spec_encode_favicon(f: FaviconModel) -> FaviconRowModel {
    FaviconRowModel {
        id: f.id,
        slug: f.slug,
        title: f.title,
        target_domain: f.target_domain,
        published_url: f.published_url,
        canonical_svg_key: f.canonical_svg_key,
        source_type: f.source_type.spec_str(),
        source_original_mime: f.source_original_mime,
        source_hash: f.source_hash,
        source_size: f.source_size,
        is_published: if f.is_published {
            1
        } else {
            0
        },
        created_at: f.created_at,
        updated_at: f.updated_at,
        generated_at: f.generated_at,
        generation_status: f.generation_status.spec_str(),
        generation_error: f.generation_error,
        metadata: f.metadata,
        has_steganography: if f.has_steganography {
            1
        } else {
            0
        },
    }
}

/// The domain reading of a stored row; `None` when an enumeration holds an
/// unrecognized value or a timestamp is not RFC3339-shaped (a corrupt row,
/// unrecoverable for this row's fetch).
pub open spec fn spec_decode_favicon(r: FaviconRowModel) -> Option<FaviconModel> {
    match (SourceType::spec_from_str(r.source_type), GenerationStatus::spec_from_str(
        r.generation_status,
    )) {
        (Some(st), Some(gs)) => if !(rfc3339_text(r.created_at) && rfc3339_text(r.updated_at)
            && (r.generated_at matches Some(g) ==> rfc3339_text(g))) {
            None
        } else {
            Some(
                FaviconModel {
                id: r.id,
                slug: r.slug,
                title: r.title,
                target_domain: r.target_domain,
                published_url: r.published_url,
                canonical_svg_key: r.canonical_svg_key,
                source_type: st,
                source_original_mime: r.source_original_mime,
                source_hash: r.source_hash,
                source_size: r.source_size,
                is_published: r.is_published == 1,
                created_at: r.created_at,
                updated_at: r.updated_at,
                generated_at: r.generated_at,
                generation_status: gs,
                    generation_error: r.generation_error,
                    metadata: r.metadata,
                    has_steganography: r.has_steganography == 1,
                },
            )
        },
        _ => None,
    }
}

pub open spec fn spec_encode_asset(a: FaviconAssetModel) -> AssetRowModel {
    AssetRowModel {
        id: a.id,
        favicon_id: a.favicon_id,
        asset_type: a.asset_type.spec_str(),
        size: a.size,
        format: a.format,
        storage_key: a.storage_key,
        mime_type: a.mime_type,
        created_at: a.created_at,
    }
}

/// The domain reading of a stored derived-asset row; `None` when the type
/// is unrecognized or the timestamp is not RFC3339-shaped.
pub open spec fn spec_decode_asset(r: AssetRowModel) -> Option<FaviconAssetModel> {
    match AssetType::spec_from_str(r.asset_type) {
        Some(t) => if !rfc3339_text(r.created_at) {
            None
        } else {
            Some(
                FaviconAssetModel {
                    id: r.id,
                    favicon_id: r.favicon_id,
                    asset_type: t,
                    size: r.size,
                    format: r.format,
                    storage_key: r.storage_key,
                    mime_type: r.mime_type,
                    created_at: r.created_at,
                },
            )
        },
        None => None,
    }
}

/// Decoding inverts encoding: a row written from a domain value whose
/// timestamps are well-formed RFC3339 text reads back as that value, for
/// records and for derived-asset rows.
pub proof fn lemma_row_round_trip(f: FaviconModel, a: FaviconAssetModel)
    requires
        rfc3339_text(f.created_at),
        rfc3339_text(f.updated_at),
        f.generated_at matches Some(g) ==> rfc3339_text(g),
        rfc3339_text(a.created_at),
    ensures
        spec_decode_favicon(spec_encode_favicon(f)) == Some(f),
        spec_decode_asset(spec_encode_asset(a)) == Some(a),
{
    crate::models::lemma_enum_str_round_trip(
        f.source_type,
        f.generation_status,
        a.asset_type,
    );
    match spec_decode_favicon(spec_encode_favicon(f)) {
        Some(g) => {
            assert(g =~= f);
        },
        None => {
            assert(false);
        },
    }
    match spec_decode_asset(spec_encode_asset(a)) {
        Some(b) => {
            assert(b =~= a);
        },
        None => {
            assert(false);
        },
    }
}

/// Encodes a domain record into its stored row form.
pub fn encode_favicon(f: &Favicon) -> (r: FaviconRow)
    ensures
        r@ == spec_encode_favicon(f@),
{
    let r = FaviconRow {
        id: f.id.clone(),
        slug: f.slug.clone(),
        title: clone_opt_string(&f.title),
        target_domain: clone_opt_string(&f.target_domain),
        published_url: f.published_url.clone(),
        canonical_svg_key: clone_opt_string(&f.canonical_svg_key),
        source_type: String::from_str(f.source_type.as_str()),
        source_original_mime: clone_opt_string(&f.source_original_mime),
        source_hash: clone_opt_string(&f.source_hash),
        source_size: f.source_size,
        is_published: if f.is_published {
            1
        } else {
            0
        },
        created_at: f.created_at.clone(),
        updated_at: f.updated_at.clone(),
        generated_at: clone_opt_string(&f.generated_at),
        generation_status: String::from_str(f.generation_status.as_str()),
        generation_error: clone_opt_string(&f.generation_error),
        metadata: clone_opt_string(&f.metadata),
        has_steganography: if f.has_steganography {
            1
        } else {
            0
        },
    };
    proof {
        assert(r@ =~= spec_encode_favicon(f@));
    }
    r
}

/// Decodes a stored row into the domain record, rejecting a row whose
/// enumerations hold unrecognized values or whose timestamps are not
/// RFC3339-shaped.
pub fn decode_favicon(r: FaviconRow) -> (o: Option<Favicon>)
    ensures
        match o {
            Some(f) => spec_decode_favicon(r@) == Some(f@),
            None => spec_decode_favicon(r@) is None,
        },
{
    if !is_rfc3339_text(r.created_at.as_str()) || !is_rfc3339_text(r.updated_at.as_str()) {
        return None;
    }
    match &r.generated_at {
        Some(g) => {
            if !is_rfc3339_text(g.as_str()) {
                return None;
            }
        },
        None => {},
    }
    let st = SourceType::from_str(r.source_type.as_str());
    let gs = GenerationStatus::from_str(r.generation_status.as_str());
    match (st, gs) {
        (Some(st), Some(gs)) => {
            let f = Favicon {
                id: r.id,
                slug: r.slug,
                title: r.title,
                target_domain: r.target_domain,
                published_url: r.published_url,
                canonical_svg_key: r.canonical_svg_key,
                source_type: st,
                source_original_mime: r.source_original_mime,
                source_hash: r.source_hash,
                source_size: r.source_size,
                is_published: r.is_published == 1,
                created_at: r.created_at,
                updated_at: r.updated_at,
                generated_at: r.generated_at,
                generation_status: gs,
                generation_error: r.generation_error,
                metadata: r.metadata,
                has_steganography: r.has_steganography == 1,
            };
            proof {
                assert(spec_decode_favicon(r@) == Some(f@)) by {
                    assert(spec_decode_favicon(r@)->Some_0 =~= f@);
                }
            }
            Some(f)
        },
        _ => None,
    }
}

/// Encodes a derived-asset value into its stored row form.
pub fn encode_asset(a: &FaviconAsset) -> (r: AssetRow)
    ensures
        r@ == spec_encode_asset(a@),
{
    let r = AssetRow {
        id: a.id.clone(),
        favicon_id: a.favicon_id.clone(),
        asset_type: String::from_str(a.asset_type.as_str()),
        size: clone_opt_string(&a.size),
        format: a.format.clone(),
        storage_key: a.storage_key.clone(),
        mime_type: a.mime_type.clone(),
        created_at: a.created_at.clone(),
    };
    proof {
        assert(r@ =~= spec_encode_asset(a@));
    }
    r
}

/// Decodes a stored derived-asset row, rejecting an unrecognized type or a
/// timestamp that is not RFC3339-shaped.
pub fn decode_asset(r: &AssetRow) -> (o: Option<FaviconAsset>)
    ensures
        match o {
            Some(a) => spec_decode_asset(r@) == Some(a@),
            None => spec_decode_asset(r@) is None,
        },
{
    if !is_rfc3339_text(r.created_at.as_str()) {
        return None;
    }
    match AssetType::from_str(r.asset_type.as_str()) {
        Some(t) => {
            let a = FaviconAsset {
                id: r.id.clone(),
                favicon_id: r.favicon_id.clone(),
                asset_type: t,
                size: clone_opt_string(&r.size),
                format: r.format.clone(),
                storage_key: r.storage_key.clone(),
                mime_type: r.mime_type.clone(),
                created_at: r.created_at.clone(),
            };
            proof {
                assert(spec_decode_asset(r@) == Some(a@)) by {
                    assert(spec_decode_asset(r@)->Some_0 =~= a@);
                }
            }
            Some(a)
        },
        None => None,
    }
}

// --- the store and its trusted interface ---

/// What the record table holds: stored rows keyed by record id.
pub uninterp spec fn favicon_rows(c: rusqlite::Connection) -> Map<Seq<char>, FaviconRowModel>;

/// What the derived-asset table holds: stored rows keyed by asset id.
pub uninterp spec fn asset_rows(c: rusqlite::Connection) -> Map<Seq<char>, AssetRowModel>;

/// The keys of the published records.
pub open spec fn published_keys(m: Map<Seq<char>, FaviconRowModel>) -> Set<Seq<char>> {
    m.dom().filter(|k: Seq<char>| m[k].is_published == 1)
}

/// The row carries this content fingerprint: the deduplication key.
pub open spec fn fingerprint_match(r: FaviconRowModel, hash: Seq<char>, size: int) -> bool {
    r.source_hash == Some(hash) && r.source_size == Some(size)
}

/// Some record in the table carries this fingerprint.
pub open spec fn has_fingerprint(
    m: Map<Seq<char>, FaviconRowModel>,
    hash: Seq<char>,
    size: int,
) -> bool {
    exists|k: Seq<char>| #![auto] m.contains_key(k) && fingerprint_match(m[k], hash, size)
}

/// A listing entry projects the given stored row.
pub open spec fn directory_item_of(
    d: crate::models::DirectoryItemModel,
    k: Seq<char>,
    r: FaviconRowModel,
) -> bool {
    &&& d.id == k
    &&& d.slug == r.slug
    &&& d.title == r.title
    &&& d.target_domain == r.target_domain
    &&& d.published_url == r.published_url
    &&& d.created_at == r.created_at
}

/// The decoded asset `a` reads some stored row owned by `fid`.
pub open spec fn decoded_asset_ok(
    m: Map<Seq<char>, AssetRowModel>,
    fid: Seq<char>,
    a: FaviconAssetModel,
) -> bool {
    exists|k: Seq<char>| #![auto]
        m.contains_key(k) && m[k].favicon_id == fid && spec_decode_asset(m[k]) == Some(a)
            && a.id == k
}

/// Every stored row owned by `fid` decodes to some element of `s`.
pub open spec fn decoded_assets_complete(
    m: Map<Seq<char>, AssetRowModel>,
    fid: Seq<char>,
    s: Seq<FaviconAssetModel>,
) -> bool {
    forall|k: Seq<char>| #![auto]
        m.contains_key(k) && m[k].favicon_id == fid ==> exists|i: int| #![auto]
            0 <= i < s.len() && spec_decode_asset(m[k]) == Some(s[i])
}

/// The listing entry projects some published record of the table.
pub open spec fn listed_item_ok(
    m: Map<Seq<char>, FaviconRowModel>,
    d: crate::models::DirectoryItemModel,
) -> bool {
    exists|k: Seq<char>| #![auto]
        m.contains_key(k) && m[k].is_published == 1 && directory_item_of(d, k, m[k])
}

// --- the listing order ---

/// Strict code-point lexicographic order on text. SQLite's default BINARY
/// collation compares the UTF-8 bytes with memcmp, which orders TEXT values
/// exactly by code point.
pub open spec fn lex_lt(a: Seq<char>, b: Seq<char>) -> bool
    decreases a.len(),
{
    if b.len() == 0 {
        false
    } else if a.len() == 0 {
        true
    } else if a[0] != b[0] {
        (a[0] as u32) < (b[0] as u32)
    } else {
        lex_lt(a.drop_first(), b.drop_first())
    }
}

pub open spec fn lex_leq(a: Seq<char>, b: Seq<char>) -> bool {
    !lex_lt(b, a)
}

/// A stored record's value under a sort column; `None` is SQL NULL, which
/// orders before every value ascending and after every value descending.
pub open spec fn sort_key_of(r: FaviconRowModel, column: Seq<char>) -> Option<Seq<char>> {
    if column == "created_at"@ {
        Some(r.created_at)
    } else if column == "slug"@ {
        Some(r.slug)
    } else {
        r.target_domain
    }
}

/// A listing entry's value under a sort column.
pub open spec fn item_sort_key(
    d: crate::models::DirectoryItemModel,
    column: Seq<char>,
) -> Option<Seq<char>> {
    if column == "created_at"@ {
        Some(d.created_at)
    } else if column == "slug"@ {
        Some(d.slug)
    } else {
        d.target_domain
    }
}

pub open spec fn key_leq(a: Option<Seq<char>>, b: Option<Seq<char>>) -> bool {
    match (a, b) {
        (None, _) => true,
        (Some(_), None) => false,
        (Some(x), Some(y)) => lex_leq(x, y),
    }
}

pub open spec fn key_lt(a: Option<Seq<char>>, b: Option<Seq<char>>) -> bool {
    !key_leq(b, a)
}

/// The models of a sequence of listing entries.
pub open spec fn directory_models(
    s: Seq<DirectoryItem>,
) -> Seq<crate::models::DirectoryItemModel> {
    s.map_values(|d: DirectoryItem| d@)
}

/// The page is sorted by the column in the chosen direction.
pub open spec fn page_sorted(
    items: Seq<crate::models::DirectoryItemModel>,
    column: Seq<char>,
    descending: bool,
) -> bool {
    forall|i: int, j: int| #![trigger items[i], items[j]]
        0 <= i < j < items.len() ==> if descending {
            key_leq(item_sort_key(items[j], column), item_sort_key(items[i], column))
        } else {
            key_leq(item_sort_key(items[i], column), item_sort_key(items[j], column))
        }
}

/// The published records ordered strictly before (`strict`) or at-or-before
/// `key` in the scan direction.
pub open spec fn published_before(
    m: Map<Seq<char>, FaviconRowModel>,
    column: Seq<char>,
    key: Option<Seq<char>>,
    descending: bool,
    strict: bool,
) -> Set<Seq<char>> {
    published_keys(m).filter(
        |k: Seq<char>|
            {
                let rk = sort_key_of(m[k], column);
                if strict {
                    if descending {
                        key_lt(key, rk)
                    } else {
                        key_lt(rk, key)
                    }
                } else {
                    if descending {
                        key_leq(key, rk)
                    } else {
                        key_leq(rk, key)
                    }
                }
            },
    )
}

/// How many rows the window at `offset` capped at `limit` holds, out of
/// `count` rows in all.
pub open spec fn window_len(count: int, limit: int, offset: int) -> int {
    if count <= offset {
        0
    } else if count - offset < limit {
        count - offset
    } else {
        limit
    }
}

/// The stored column a listing sort key names; unrecognized keys fall back
/// to the target domain.
pub open spec fn spec_sort_column(sort_by: Seq<char>) -> Seq<char> {
    if sort_by == "date"@ {
        "created_at"@
    } else if sort_by == "url"@ {
        "slug"@
    } else {
        "target_domain"@
    }
}

/// A page's offset: `(page - 1) * page_size`, saturated at the i64 range.
pub open spec fn spec_listing_offset(page: int, page_size: int) -> int {
    if page_size == 0 {
        0
    } else if page - 1 > (i64::MAX as int) / page_size {
        i64::MAX as int
    } else {
        (page - 1) * page_size
    }
}

/// Every page item sits in the window at `offset`: at most `offset + i`
/// published records order strictly before the item at position `i`, and
/// more than `offset + i` order at-or-before it. Ties between equal keys
/// leave open which of them crosses a window edge.
pub open spec fn page_rank_window(
    m: Map<Seq<char>, FaviconRowModel>,
    column: Seq<char>,
    descending: bool,
    offset: int,
    items: Seq<crate::models::DirectoryItemModel>,
) -> bool {
    forall|i: int| #![trigger items[i]]
        0 <= i < items.len() ==> {
            let key = item_sort_key(items[i], column);
            &&& published_before(m, column, key, descending, true).len() <= offset + i
            &&& offset + i < published_before(m, column, key, descending, false).len()
        }
}

/// The relational persistence layer for records and derived-asset rows.
pub struct Database {
    conn: rusqlite::Connection,
}

/// Relies on rusqlite's `Connection::open`: opens (creating if missing) the
/// SQLite database at the path. Nothing is assumed of the contents found.
#[verifier::external_body]
fn open_connection(db_path: &str) -> (r: Result<rusqlite::Connection, String>) {
    rusqlite::Connection::open(db_path).map_err(|e| e.to_string())
}

/// Relies on rusqlite's `Row::get`: reads the eighteen columns of a record
/// row one for one, in the order the record queries select them.
#[verifier::external_body]
fn read_favicon_row(row: &rusqlite::Row<'_>) -> (r: Result<FaviconRow, rusqlite::Error>) {
    Ok(FaviconRow {
        id: row.get(0)?, slug: row.get(1)?, title: row.get(2)?,
        target_domain: row.get(3)?, published_url: row.get(4)?,
        canonical_svg_key: row.get(5)?, source_type: row.get(6)?,
        source_original_mime: row.get(7)?, source_hash: row.get(8)?,
        source_size: row.get(9)?, is_published: row.get(10)?,
        created_at: row.get(11)?, updated_at: row.get(12)?,
        generated_at: row.get(13)?, generation_status: row.get(14)?,
        generation_error: row.get(15)?, metadata: row.get(16)?,
        has_steganography: row.get(17)?,
    })
}

/// Relies on rusqlite's `Row::get`: reads the eight columns of a
/// derived-asset row one for one.
#[verifier::external_body]
fn read_asset_row(row: &rusqlite::Row<'_>) -> (r: Result<AssetRow, rusqlite::Error>) {
    Ok(AssetRow {
        id: row.get(0)?, favicon_id: row.get(1)?, asset_type: row.get(2)?,
        size: row.get(3)?, format: row.get(4)?, storage_key: row.get(5)?,
        mime_type: row.get(6)?, created_at: row.get(7)?,
    })
}

/// Relies on rusqlite's `Row::get`: reads the six columns of a listing row
/// one for one.
#[verifier::external_body]
fn read_directory_row(row: &rusqlite::Row<'_>) -> (r: Result<DirectoryItem, rusqlite::Error>) {
    Ok(DirectoryItem {
        id: row.get(0)?, slug: row.get(1)?, title: row.get(2)?,
        target_domain: row.get(3)?, published_url: row.get(4)?,
        created_at: row.get(5)?,
    })
}

impl Database {
    /// The record table's contents.
    pub closed spec fn favicons(&self) -> Map<Seq<char>, FaviconRowModel> {
        favicon_rows(self.conn)
    }

    /// The derived-asset table's contents.
    pub closed spec fn assets(&self) -> Map<Seq<char>, AssetRowModel> {
        asset_rows(self.conn)
    }

    /// Relies on rusqlite's `Connection::execute_batch` running the
    /// idempotent schema creation (both tables and their indexes); stored
    /// rows are untouched.
    #[verifier::external_body]
    fn init_schema(&mut self) -> (r: Result<(), String>)
        ensures
            favicon_rows(final(self).conn) == favicon_rows(old(self).conn),
            asset_rows(final(self).conn) == asset_rows(old(self).conn),
    {
        self.conn.execute_batch(
            "CREATE TABLE IF NOT EXISTS favicons (id TEXT PRIMARY KEY, slug TEXT UNIQUE NOT NULL, title TEXT, target_domain TEXT, published_url TEXT NOT NULL, canonical_svg_key TEXT, source_type TEXT NOT NULL CHECK(source_type IN ('UPLOAD', 'CANVAS')), source_original_mime TEXT, source_hash TEXT, source_size INTEGER, is_published INTEGER NOT NULL DEFAULT 0, created_at TEXT NOT NULL, updated_at TEXT NOT NULL, generated_at TEXT, generation_status TEXT NOT NULL CHECK(generation_status IN ('PENDING', 'SUCCESS', 'FAILED')), generation_error TEXT, metadata TEXT, has_steganography INTEGER NOT NULL DEFAULT 0); CREATE INDEX IF NOT EXISTS idx_favicons_created_at ON favicons(created_at); CREATE INDEX IF NOT EXISTS idx_favicons_published_url ON favicons(published_url); CREATE INDEX IF NOT EXISTS idx_favicons_target_domain ON favicons(target_domain); CREATE INDEX IF NOT EXISTS idx_favicons_is_published ON favicons(is_published); CREATE INDEX IF NOT EXISTS idx_favicons_source_hash ON favicons(source_hash); CREATE TABLE IF NOT EXISTS favicon_assets (id TEXT PRIMARY KEY, favicon_id TEXT NOT NULL, type TEXT NOT NULL, size TEXT, format TEXT NOT NULL, storage_key TEXT NOT NULL, mime_type TEXT NOT NULL, created_at TEXT NOT NULL, FOREIGN KEY (favicon_id) REFERENCES favicons(id) ON DELETE CASCADE); CREATE INDEX IF NOT EXISTS idx_favicon_assets_favicon_id ON favicon_assets(favicon_id);",
        ).map_err(|e| e.to_string())
    }

    /// Opens the store at `db_path` and ensures the schema exists. Nothing
    /// is assumed of the rows already stored there; every failure is a
    /// database-kind error. The constraints the insert contracts certify
    /// (id PRIMARY KEY, slug UNIQUE) and the delete cascade are the
    /// schema's: a pre-existing file whose tables were created without them
    /// is outside what the store's contracts describe, since `CREATE TABLE
    /// IF NOT EXISTS` does not repair such a table.
    pub fn new(db_path: &str) -> (r: Result<Database, ApiError>)
        ensures
            r matches Err(e) ==> e matches ApiError::DatabaseError(_),
    {
        match open_connection(db_path) {
            Err(e) => Err(ApiError::DatabaseError(e)),
            Ok(conn) => {
                let mut db = Database { conn };
                match db.init_schema() {
                    Err(e) => Err(ApiError::DatabaseError(e)),
                    Ok(()) => Ok(db),
                }
            },
        }
    }

    /// Relies on rusqlite's `prepare`/`query_row` running a point SELECT by
    /// primary key: a returned row is the table's entry under `id`; `None`
    /// means the table has none.
    #[verifier::external_body]
    fn query_row_by_id(&self, id: &str) -> (r: Result<Option<FaviconRow>, String>)
        ensures
            match r {
                Ok(Some(row)) => self.favicons().contains_key(id@) && self.favicons()[id@]
                    == row@ && row@.id == id@,
                Ok(None) => !self.favicons().contains_key(id@),
                Err(_) => true,
            },
    {
        self.conn.prepare(
            "SELECT id, slug, title, target_domain, published_url, canonical_svg_key, source_type, source_original_mime, source_hash, source_size, is_published, created_at, updated_at, generated_at, generation_status, generation_error, metadata, has_steganography FROM favicons WHERE id = ?",
        ).and_then(|mut st| st.query_row([id], |row| read_favicon_row(row)).optional()).map_err(
            |e| e.to_string(),
        )
    }

    /// Relies on rusqlite's `prepare`/`query_row` running a point SELECT by
    /// the unique slug column: a returned row is a table entry carrying
    /// `slug`; `None` means no entry does.
    #[verifier::external_body]
    fn query_row_by_slug(&self, slug: &str) -> (r: Result<Option<FaviconRow>, String>)
        ensures
            match r {
                Ok(Some(row)) => exists|k: Seq<char>| #![auto]
                    self.favicons().contains_key(k) && self.favicons()[k] == row@ && row@.id
                        == k && row@.slug == slug@,
                Ok(None) => forall|k: Seq<char>|
                    self.favicons().contains_key(k) ==> #[trigger] self.favicons()[k].slug
                        != slug@,
                Err(_) => true,
            },
    {
        self.conn.prepare(
            "SELECT id, slug, title, target_domain, published_url, canonical_svg_key, source_type, source_original_mime, source_hash, source_size, is_published, created_at, updated_at, generated_at, generation_status, generation_error, metadata, has_steganography FROM favicons WHERE slug = ?",
        ).and_then(|mut st| st.query_row([slug], |row| read_favicon_row(row)).optional()).map_err(
            |e| e.to_string(),
        )
    }

    /// Relies on rusqlite's `prepare`/`query_row` running the duplicate
    /// lookup `SELECT id ... WHERE source_hash = ? AND source_size = ?
    /// LIMIT 1`: a returned id names some row carrying the fingerprint;
    /// `None` means no row does. Which of several matches is returned is
    /// not specified.
    #[verifier::external_body]
    fn query_duplicate_id(&self, hash: &str, size: i64) -> (r: Result<Option<String>, String>)
        ensures
            match r {
                Ok(Some(id)) => self.favicons().contains_key(id@) && fingerprint_match(
                    self.favicons()[id@],
                    hash@,
                    size as int,
                ),
                Ok(None) => !has_fingerprint(self.favicons(), hash@, size as int),
                Err(_) => true,
            },
    {
        self.conn.prepare(
            "SELECT id FROM favicons WHERE source_hash = ? AND source_size = ? LIMIT 1",
        ).and_then(|mut st| st.query_row((hash, size), |row| row.get(0)).optional()).map_err(
            |e| e.to_string(),
        )
    }

    /// Relies on rusqlite's `Connection::execute` running the 18-column
    /// INSERT: on success the record table gains exactly this row under its
    /// id, and success certifies the id (PRIMARY KEY) and the slug (UNIQUE)
    /// were free — a conflicting insert fails and changes nothing. The
    /// derived-asset table is untouched.
    #[verifier::external_body]
    fn insert_row(&mut self, row: &FaviconRow) -> (r: Result<(), String>)
        ensures
            r is Ok ==> final(self).favicons() == old(self).favicons().insert(row@.id, row@)
                && final(self).assets() == old(self).assets() && !old(
                self,
            ).favicons().contains_key(row@.id) && (forall|k: Seq<char>| #![auto]
                old(self).favicons().contains_key(k) ==> old(self).favicons()[k].slug
                    != row@.slug),
            r is Err ==> final(self).favicons() == old(self).favicons() && final(self).assets()
                == old(self).assets(),
    {
        let p: [&dyn rusqlite::types::ToSql; 18] = [
            &row.id, &row.slug, &row.title, &row.target_domain, &row.published_url,
            &row.canonical_svg_key, &row.source_type, &row.source_original_mime,
            &row.source_hash, &row.source_size, &row.is_published, &row.created_at,
            &row.updated_at, &row.generated_at, &row.generation_status,
            &row.generation_error, &row.metadata, &row.has_steganography,
        ];
        self.conn.execute(
            "INSERT INTO favicons (id, slug, title, target_domain, published_url, canonical_svg_key, source_type, source_original_mime, source_hash, source_size, is_published, created_at, updated_at, generated_at, generation_status, generation_error, metadata, has_steganography) VALUES (?, ?, ?, ?, ?, ?, ?, ?, ?, ?, ?, ?, ?, ?, ?, ?, ?, ?)",
            p.as_slice(),
        ).map(|_| ()).map_err(|e| e.to_string())
    }

    /// Relies on rusqlite's `Connection::execute` running the UPDATE that
    /// sets every column but `id` and `created_at` on the row under
    /// `row.id`: on success, if that key exists its row now holds the new
    /// values with its old `created_at`; a missing key changes nothing, as
    /// does a failure. The derived-asset table is untouched.
    #[verifier::external_body]
    fn update_row(&mut self, row: &FaviconRow) -> (r: Result<(), String>)
        ensures
            r is Ok ==> final(self).favicons() == if old(self).favicons().contains_key(
                row@.id,
            ) {
                old(self).favicons().insert(
                    row@.id,
                    FaviconRowModel { created_at: old(self).favicons()[row@.id].created_at, ..row@ },
                )
            } else {
                old(self).favicons()
            } && final(self).assets() == old(self).assets(),
            r is Err ==> final(self).favicons() == old(self).favicons() && final(self).assets()
                == old(self).assets(),
    {
        let p: [&dyn rusqlite::types::ToSql; 17] = [
            &row.slug, &row.title, &row.target_domain, &row.published_url,
            &row.canonical_svg_key, &row.source_type, &row.source_original_mime,
            &row.source_hash, &row.source_size, &row.is_published, &row.updated_at,
            &row.generated_at, &row.generation_status, &row.generation_error, &row.metadata,
            &row.has_steganography, &row.id,
        ];
        self.conn.execute(
            "UPDATE favicons SET slug = ?, title = ?, target_domain = ?, published_url = ?, canonical_svg_key = ?, source_type = ?, source_original_mime = ?, source_hash = ?, source_size = ?, is_published = ?, updated_at = ?, generated_at = ?, generation_status = ?, generation_error = ?, metadata = ?, has_steganography = ? WHERE id = ?",
            p.as_slice(),
        ).map(|_| ()).map_err(|e| e.to_string())
    }

    /// Relies on rusqlite's `Connection::execute` running `DELETE FROM
    /// favicons WHERE id = ?`: on success the record table no longer holds
    /// the key, and the schema's `ON DELETE CASCADE` removes exactly the
    /// derived-asset rows owned by it (the bundled SQLite is compiled with
    /// `SQLITE_DEFAULT_FOREIGN_KEYS=1`, so foreign keys are enforced).
    #[verifier::external_body]
    fn delete_row(&mut self, id: &str) -> (r: Result<(), String>)
        ensures
            r is Ok ==> final(self).favicons() == old(self).favicons().remove(id@)
                && final(self).assets() == old(self).assets().remove_keys(
                old(self).assets().dom().filter(
                    |k: Seq<char>| old(self).assets()[k].favicon_id == id@,
                ),
            ),
            r is Err ==> final(self).favicons() == old(self).favicons() && final(self).assets()
                == old(self).assets(),
    {
        self.conn.execute("DELETE FROM favicons WHERE id = ?", [id]).map(|_| ()).map_err(
            |e| e.to_string(),
        )
    }

    /// Relies on rusqlite's `prepare`/`query_map` running the SELECT of all
    /// derived-asset rows under `favicon_id`: the returned rows are exactly
    /// the table entries carrying that owner, each under its own id, with
    /// no id repeated. Their order is not specified.
    #[verifier::external_body]
    fn query_asset_rows(&self, favicon_id: &str) -> (r: Result<Vec<AssetRow>, String>)
        ensures
            match r {
                Ok(v) => (forall|i: int|
                    0 <= i < v@.len() ==> (#[trigger] self.assets().contains_key(v@[i]@.id)
                        && self.assets()[v@[i]@.id] == v@[i]@ && v@[i]@.favicon_id
                        == favicon_id@)) && (forall|k: Seq<char>| #![auto]
                    self.assets().contains_key(k) && self.assets()[k].favicon_id == favicon_id@
                        ==> exists|i: int| 0 <= i < v@.len() && v@[i]@.id == k) && (forall|
                    i: int,
                    j: int,
                |
                    0 <= i < j < v@.len() ==> v@[i]@.id != v@[j]@.id),
                Err(_) => true,
            },
    {
        self.conn.prepare(
            "SELECT id, favicon_id, type, size, format, storage_key, mime_type, created_at FROM favicon_assets WHERE favicon_id = ?",
        ).and_then(
            |mut st| st.query_map([favicon_id], |row| read_asset_row(row))?.collect::<Result<
                Vec<_>,
                _,
            >>(),
        ).map_err(|e| e.to_string())
    }

    /// Relies on rusqlite's `Connection::execute` running the 8-column
    /// INSERT into the derived-asset table: on success it gains exactly
    /// this row under its id; on failure nothing changes. The record table
    /// is untouched.
    #[verifier::external_body]
    fn insert_asset_row(&mut self, row: &AssetRow) -> (r: Result<(), String>)
        ensures
            r is Ok ==> final(self).assets() == old(self).assets().insert(row@.id, row@)
                && final(self).favicons() == old(self).favicons(),
            r is Err ==> final(self).favicons() == old(self).favicons() && final(self).assets()
                == old(self).assets(),
    {
        let p: [&dyn rusqlite::types::ToSql; 8] = [
            &row.id, &row.favicon_id, &row.asset_type, &row.size, &row.format,
            &row.storage_key, &row.mime_type, &row.created_at,
        ];
        self.conn.execute(
            "INSERT INTO favicon_assets (id, favicon_id, type, size, format, storage_key, mime_type, created_at) VALUES (?, ?, ?, ?, ?, ?, ?, ?)",
            p.as_slice(),
        ).map(|_| ()).map_err(|e| e.to_string())
    }

    /// Relies on rusqlite's `Connection::execute` running `DELETE FROM
    /// favicon_assets WHERE favicon_id = ?`: on success exactly the rows
    /// under that owner are gone; the record table is untouched.
    #[verifier::external_body]
    fn delete_asset_rows(&mut self, favicon_id: &str) -> (r: Result<(), String>)
        ensures
            r is Ok ==> final(self).assets() == old(self).assets().remove_keys(
                old(self).assets().dom().filter(
                    |k: Seq<char>| old(self).assets()[k].favicon_id == favicon_id@,
                ),
            ) && final(self).favicons() == old(self).favicons(),
            r is Err ==> final(self).favicons() == old(self).favicons() && final(self).assets()
                == old(self).assets(),
    {
        self.conn.execute("DELETE FROM favicon_assets WHERE favicon_id = ?", [favicon_id]).map(
            |_| (),
        ).map_err(|e| e.to_string())
    }

    /// Relies on rusqlite's `query_row` running `SELECT COUNT(*) ... WHERE
    /// is_published = 1`: the count of published records, a finite set.
    #[verifier::external_body]
    fn count_published(&self) -> (r: Result<i64, String>)
        ensures
            r matches Ok(n) ==> published_keys(self.favicons()).finite() && n >= 0 && n as int
                == published_keys(self.favicons()).len(),
    {
        self.conn.query_row(
            "SELECT COUNT(*) FROM favicons WHERE is_published = 1",
            [],
            |row| row.get(0),
        ).map_err(|e| e.to_string())
    }

    /// Relies on rusqlite's `prepare`/`query_map` running the published
    /// listing with ORDER BY over a fixed column name, LIMIT and OFFSET:
    /// the rows come back sorted by that column under SQLite's BINARY
    /// collation (code-point order; NULLs first ascending, last descending),
    /// and they are the window at `offset` capped at `limit` of the
    /// published records — exactly `window_len` many, each projecting some
    /// published record, no record id repeated, each within the rank bounds
    /// of its window position (ties between equal keys leave open which of
    /// them crosses a window edge).
    #[verifier::external_body]
    fn query_published_page(
        &self,
        column: &str,
        descending: bool,
        limit: i64,
        offset: i64,
    ) -> (r: Result<Vec<DirectoryItem>, String>)
        requires
            column@ == "created_at"@ || column@ == "slug"@ || column@ == "target_domain"@,
            limit >= 0,
            offset >= 0,
        ensures
            match r {
                Ok(v) => v@.len() <= limit && (forall|i: int|
                    0 <= i < v@.len() ==> listed_item_ok(self.favicons(), #[trigger] v@[i]@))
                    && (forall|i: int, j: int|
                    0 <= i < j < v@.len() ==> v@[i]@.id != v@[j]@.id) && published_keys(
                    self.favicons(),
                ).finite() && v@.len() as int == window_len(
                    published_keys(self.favicons()).len() as int,
                    limit as int,
                    offset as int,
                ) && page_sorted(directory_models(v@), column@, descending)
                    && page_rank_window(
                    self.favicons(),
                    column@,
                    descending,
                    offset as int,
                    directory_models(v@),
                ),
                Err(_) => true,
            },
    {
        let sql = format!(
            "SELECT id, slug, title, target_domain, published_url, created_at FROM favicons WHERE is_published = 1 ORDER BY {} {} LIMIT ? OFFSET ?",
            column,
            if descending { "DESC" } else { "ASC" },
        );
        self.conn.prepare(&sql).and_then(
            |mut st| st.query_map((limit, offset), |row| read_directory_row(row))?.collect::<
                Result<Vec<_>, _>,
            >(),
        ).map_err(|e| e.to_string())
    }

    /// Point lookup by record id, decoding the stored row; an unrecognized
    /// stored enumeration or a malformed stored timestamp is a
    /// database-kind data-corruption error.
    pub fn get_favicon_by_id(&self, id: &str) -> (r: Result<Option<Favicon>, ApiError>)
        ensures
            match r {
                Ok(Some(f)) => self.favicons().contains_key(id@) && spec_decode_favicon(
                    self.favicons()[id@],
                ) == Some(f@) && f@.id == id@,
                Ok(None) => !self.favicons().contains_key(id@),
                Err(e) => e matches ApiError::DatabaseError(_),
            },
    {
        match self.query_row_by_id(id) {
            Err(e) => Err(ApiError::DatabaseError(e)),
            Ok(None) => Ok(None),
            Ok(Some(row)) => match decode_favicon(row) {
                Some(f) => Ok(Some(f)),
                None => Err(
                    ApiError::DatabaseError(
                        String::from_str("stored record row holds a corrupt value"),
                    ),
                ),
            },
        }
    }

    /// Point lookup by slug, decoding the stored row; `Ok(None)` exactly
    /// when no record carries the slug.
    pub fn get_favicon_by_slug(&self, slug: &str) -> (r: Result<Option<Favicon>, ApiError>)
        ensures
            match r {
                Ok(Some(f)) => exists|k: Seq<char>| #![auto]
                    self.favicons().contains_key(k) && spec_decode_favicon(self.favicons()[k])
                        == Some(f@) && f@.id == k && f@.slug == slug@,
                Ok(None) => forall|k: Seq<char>|
                    self.favicons().contains_key(k) ==> #[trigger] self.favicons()[k].slug
                        != slug@,
                Err(e) => e matches ApiError::DatabaseError(_),
            },
    {
        match self.query_row_by_slug(slug) {
            Err(e) => Err(ApiError::DatabaseError(e)),
            Ok(None) => Ok(None),
            Ok(Some(row)) => match decode_favicon(row) {
                Some(f) => Ok(Some(f)),
                None => Err(
                    ApiError::DatabaseError(
                        String::from_str("stored record row holds a corrupt value"),
                    ),
                ),
            },
        }
    }

    /// Duplicate lookup by the `(fingerprint, size)` pair: `Ok(Some)` is a
    /// decoded record carrying the pair, `Ok(None)` means no record does.
    pub fn find_duplicate(&self, hash: &str, size: i64) -> (r: Result<Option<Favicon>, ApiError>)
        ensures
            match r {
                Ok(Some(f)) => exists|k: Seq<char>| #![auto]
                    self.favicons().contains_key(k) && fingerprint_match(
                        self.favicons()[k],
                        hash@,
                        size as int,
                    ) && spec_decode_favicon(self.favicons()[k]) == Some(f@) && f@.id == k,
                Ok(None) => !has_fingerprint(self.favicons(), hash@, size as int),
                Err(e) => e matches ApiError::DatabaseError(_),
            },
    {
        match self.query_duplicate_id(hash, size) {
            Err(e) => Err(ApiError::DatabaseError(e)),
            Ok(None) => Ok(None),
            Ok(Some(id)) => match self.get_favicon_by_id(id.as_str()) {
                Err(e) => Err(e),
                Ok(Some(f)) => Ok(Some(f)),
                Ok(None) => {
                    proof {
                        assert(false);
                    }
                    Ok(None)
                },
            },
        }
    }

    /// Inserts a record: on success the record table gains exactly the
    /// encoding of `favicon` under its id, which certifies that no existing
    /// record carried its id or its slug; nothing else moves.
    pub fn insert_favicon(&mut self, favicon: &Favicon) -> (r: Result<(), ApiError>)
        ensures
            r is Ok ==> final(self).favicons() == old(self).favicons().insert(
                favicon@.id,
                spec_encode_favicon(favicon@),
            ) && final(self).assets() == old(self).assets() && !old(
                self,
            ).favicons().contains_key(favicon@.id) && (forall|k: Seq<char>| #![auto]
                old(self).favicons().contains_key(k) ==> old(self).favicons()[k].slug
                    != favicon@.slug),
            r matches Err(e) ==> e matches ApiError::DatabaseError(_) && final(self).favicons()
                == old(self).favicons() && final(self).assets() == old(self).assets(),
    {
        let row = encode_favicon(favicon);
        match self.insert_row(&row) {
            Ok(()) => Ok(()),
            Err(e) => Err(ApiError::DatabaseError(e)),
        }
    }

    /// Updates a record in place: on success the row under its id holds the
    /// new encoding, keeping its original creation time; a missing id
    /// changes nothing.
    pub fn update_favicon(&mut self, favicon: &Favicon) -> (r: Result<(), ApiError>)
        ensures
            r is Ok ==> final(self).favicons() == if old(self).favicons().contains_key(
                favicon@.id,
            ) {
                old(self).favicons().insert(
                    favicon@.id,
                    FaviconRowModel {
                        created_at: old(self).favicons()[favicon@.id].created_at,
                        ..spec_encode_favicon(favicon@)
                    },
                )
            } else {
                old(self).favicons()
            } && final(self).assets() == old(self).assets(),
            r matches Err(e) ==> e matches ApiError::DatabaseError(_) && final(self).favicons()
                == old(self).favicons() && final(self).assets() == old(self).assets(),
    {
        let row = encode_favicon(favicon);
        match self.update_row(&row) {
            Ok(()) => Ok(()),
            Err(e) => Err(ApiError::DatabaseError(e)),
        }
    }

    /// Deletes the record under `id`, cascading to its derived-asset rows
    /// (the delete path also removes those explicitly first, so the cascade
    /// usually finds none left).
    pub fn delete_favicon(&mut self, id: &str) -> (r: Result<(), ApiError>)
        ensures
            r is Ok ==> final(self).favicons() == old(self).favicons().remove(id@)
                && final(self).assets() == old(self).assets().remove_keys(
                old(self).assets().dom().filter(
                    |k: Seq<char>| old(self).assets()[k].favicon_id == id@,
                ),
            ),
            r matches Err(e) ==> e matches ApiError::DatabaseError(_) && final(self).favicons()
                == old(self).favicons() && final(self).assets() == old(self).assets(),
    {
        match self.delete_row(id) {
            Ok(()) => Ok(()),
            Err(e) => Err(ApiError::DatabaseError(e)),
        }
    }

    /// All derived-asset rows owned by `favicon_id`, decoded; a corrupt row
    /// is a database-kind error.
    pub fn get_assets_by_favicon_id(&self, favicon_id: &str) -> (r: Result<
        Vec<FaviconAsset>,
        ApiError,
    >)
        ensures
            match r {
                Ok(v) => (forall|i: int|
                    0 <= i < v@.len() ==> decoded_asset_ok(
                        self.assets(),
                        favicon_id@,
                        #[trigger] v@[i]@,
                    )) && decoded_assets_complete(
                    self.assets(),
                    favicon_id@,
                    crate::models::asset_models(v@),
                ),
                Err(e) => e matches ApiError::DatabaseError(_),
            },
    {
        let rows = match self.query_asset_rows(favicon_id) {
            Err(e) => {
                return Err(ApiError::DatabaseError(e));
            },
            Ok(rows) => rows,
        };
        let mut out: Vec<FaviconAsset> = Vec::new();
        let n = rows.len();
        let mut i: usize = 0;
        while i < n
            invariant
                i <= n,
                n == rows@.len(),
                out@.len() == i,
                forall|j: int|
                    0 <= j < i ==> spec_decode_asset(rows@[j]@) == Some(#[trigger] out@[j]@)
                        && out@[j]@.id == rows@[j]@.id,
            decreases n - i,
        {
            match decode_asset(&rows[i]) {
                Some(a) => {
                    out.push(a);
                },
                None => {
                    return Err(
                        ApiError::DatabaseError(
                            String::from_str(
                                "stored derived-asset row holds a corrupt value",
                            ),
                        ),
                    );
                },
            }
            i += 1;
        }
        proof {
            assert forall|j: int| 0 <= j < out@.len() implies decoded_asset_ok(
                self.assets(),
                favicon_id@,
                out@[j]@,
            ) by {
                let k = rows@[j]@.id;
                assert(self.assets().contains_key(k) && self.assets()[k] == rows@[j]@);
                assert(spec_decode_asset(self.assets()[k]) == Some(out@[j]@));
            }
            let models = crate::models::asset_models(out@);
            assert forall|k: Seq<char>| #![auto]
                self.assets().contains_key(k) && self.assets()[k].favicon_id == favicon_id@
                    implies exists|j: int| #![auto]
                    0 <= j < models.len() && spec_decode_asset(self.assets()[k]) == Some(
                    models[j],
                ) by {
                let j = choose|j: int| 0 <= j < rows@.len() && rows@[j]@.id == k;
                assert(self.assets()[k] == rows@[j]@);
                assert(models[j] == out@[j]@);
                assert(0 <= j < models.len() && spec_decode_asset(self.assets()[k]) == Some(
                    models[j],
                ));
            }
        }
        Ok(out)
    }

    /// Inserts a derived-asset row: on success the derived-asset table
    /// gains exactly the encoding of `asset` under its id.
    pub fn insert_asset(&mut self, asset: &FaviconAsset) -> (r: Result<(), ApiError>)
        ensures
            r is Ok ==> final(self).assets() == old(self).assets().insert(
                asset@.id,
                spec_encode_asset(asset@),
            ) && final(self).favicons() == old(self).favicons(),
            r matches Err(e) ==> e matches ApiError::DatabaseError(_) && final(self).favicons()
                == old(self).favicons() && final(self).assets() == old(self).assets(),
    {
        let row = encode_asset(asset);
        match self.insert_asset_row(&row) {
            Ok(()) => Ok(()),
            Err(e) => Err(ApiError::DatabaseError(e)),
        }
    }

    /// Removes every derived-asset row owned by `favicon_id`.
    pub fn delete_assets_by_favicon_id(&mut self, favicon_id: &str) -> (r: Result<(), ApiError>)
        ensures
            r is Ok ==> final(self).assets() == old(self).assets().remove_keys(
                old(self).assets().dom().filter(
                    |k: Seq<char>| old(self).assets()[k].favicon_id == favicon_id@,
                ),
            ) && final(self).favicons() == old(self).favicons(),
            r matches Err(e) ==> e matches ApiError::DatabaseError(_) && final(self).favicons()
                == old(self).favicons() && final(self).assets() == old(self).assets(),
    {
        match self.delete_asset_rows(favicon_id) {
            Ok(()) => Ok(()),
            Err(e) => Err(ApiError::DatabaseError(e)),
        }
    }

    /// Paginated listing over published records: the page's items, sorted by
    /// the chosen key (falling back to the target domain for unrecognized
    /// values; anything but `desc` sorts ascending), taken from the window at
    /// offset `(page - 1) * page_size` (saturated), plus the total published
    /// count.
    pub fn list_published_favicons(
        &self,
        page: i64,
        page_size: i64,
        sort_by: &str,
        sort_dir: &str,
    ) -> (r: Result<(Vec<DirectoryItem>, i64), ApiError>)
        requires
            page >= 1,
            page_size >= 0,
        ensures
            match r {
                Ok((items, total)) => items@.len() <= page_size && total >= 0 && total as int
                    == published_keys(self.favicons()).len() && published_keys(
                    self.favicons(),
                ).finite() && (forall|i: int|
                    0 <= i < items@.len() ==> listed_item_ok(
                        self.favicons(),
                        #[trigger] items@[i]@,
                    )) && (forall|i: int, j: int|
                    0 <= i < j < items@.len() ==> items@[i]@.id != items@[j]@.id)
                    && items@.len() as int == window_len(
                    total as int,
                    page_size as int,
                    spec_listing_offset(page as int, page_size as int),
                ) && page_sorted(
                    directory_models(items@),
                    spec_sort_column(sort_by@),
                    sort_dir@ == "desc"@,
                ) && page_rank_window(
                    self.favicons(),
                    spec_sort_column(sort_by@),
                    sort_dir@ == "desc"@,
                    spec_listing_offset(page as int, page_size as int),
                    directory_models(items@),
                ),
                Err(e) => e matches ApiError::DatabaseError(_),
            },
    {
        let total = match self.count_published() {
            Err(e) => {
                return Err(ApiError::DatabaseError(e));
            },
            Ok(n) => n,
        };
        let column = if crate::text::str_eq(sort_by, "date") {
            "created_at"
        } else if crate::text::str_eq(sort_by, "url") {
            "slug"
        } else {
            "target_domain"
        };
        let descending = crate::text::str_eq(sort_dir, "desc");
        let pm1 = page - 1;
        let offset = if page_size == 0 {
            0
        } else {
            let q = i64::MAX / page_size;
            if pm1 > q {
                i64::MAX
            } else {
                proof {
                    lemma_fundamental_div_mod(i64::MAX as int, page_size as int);
                    lemma_mul_inequality(pm1 as int, q as int, page_size as int);
                }
                pm1 * page_size
            }
        };
        proof {
            assert(column@ == spec_sort_column(sort_by@));
            assert(descending == (sort_dir@ == "desc"@));
            assert(offset as int == spec_listing_offset(page as int, page_size as int));
        }
        match self.query_published_page(column, descending, page_size, offset) {
            Err(e) => Err(ApiError::DatabaseError(e)),
            Ok(items) => Ok((items, total)),
        }
    }
}

} // verus!
