//! The directory endpoint's rules: query-parameter normalization (defaults,
//! the hard page-size cap), the sort-key mapping, total-page computation,
//! and bearer-token extraction for the admin endpoints.

use vstd::prelude::*;
use crate::error::ApiError;
use crate::models::{DirectoryItem, DirectoryResponse};
use crate::text::{self, seq_starts_with};

verus! {

/// Hard cap on the page size a caller may request.
pub const MAX_PAGE_SIZE: i64 = 500;

/// Default page size when none is given.
pub const DEFAULT_PAGE_SIZE: i64 = 100;

/// The page number used for a listing: 1 when absent or below 1.
pub open spec fn spec_normalize_page(p: Option<i64>) -> int {
    match p {
        None => 1,
        Some(x) => if x < 1 {
            1
        } else {
            x as int
        },
    }
}

pub fn normalize_page(p: Option<i64>) -> (r: i64)
    ensures
        r as int == spec_normalize_page(p),
        r >= 1,
{
    match p {
        None => 1,
        Some(x) => if x < 1 {
            1
        } else {
            x
        },
    }
}

/// The page size used for a listing: 100 when absent, clamped into
/// `[1, 500]` otherwise.
pub open spec fn spec_normalize_page_size(p: Option<i64>) -> int {
    match p {
        None => DEFAULT_PAGE_SIZE as int,
        Some(x) => if x < 1 {
            1
        } else if x > MAX_PAGE_SIZE {
            MAX_PAGE_SIZE as int
        } else {
            x as int
        },
    }
}

pub fn normalize_page_size(p: Option<i64>) -> (r: i64)
    ensures
        r as int == spec_normalize_page_size(p),
        1 <= r <= MAX_PAGE_SIZE,
{
    match p {
        None => DEFAULT_PAGE_SIZE,
        Some(x) => if x < 1 {
            1
        } else if x > MAX_PAGE_SIZE {
            MAX_PAGE_SIZE
        } else {
            x
        },
    }
}

/// The store-level sort key for a query's `sortBy` value; anything
/// unrecognized falls back to the target domain.
pub open spec fn spec_sort_param(s: Seq<char>) -> Seq<char> {
    if s == "createdAt"@ {
        "date"@
    } else if s == "slug"@ {
        "url"@
    } else {
        "domain"@
    }
}

pub fn map_sort_param(sort_by: &str) -> (r: &'static str)
    ensures
        r@ == spec_sort_param(sort_by@),
{
    if text::str_eq(sort_by, "createdAt") {
        "date"
    } else if text::str_eq(sort_by, "slug") {
        "url"
    } else {
        "domain"
    }
}

/// Ceiling division for non-negative totals: the number of pages needed.
pub open spec fn ceil_div(total: int, page_size: int) -> int {
    total / page_size + if total % page_size != 0 {
        1int
    } else {
        0int
    }
}

/// Assembles the listing response: the items and total as given, and
/// `totalPages = ceil(total / pageSize)`.
pub fn build_directory_response(
    items: Vec<DirectoryItem>,
    total: i64,
    page: i64,
    page_size: i64,
) -> (r: DirectoryResponse)
    requires
        total >= 0,
        page_size >= 1,
    ensures
        r@.items == items@.map_values(|d: DirectoryItem| d@),
        r@.total == total as int,
        r@.page == page as int,
        r@.page_size == page_size as int,
        r@.total_pages == ceil_div(total as int, page_size as int),
{
    let q = total / page_size;
    let rem = total % page_size;
    proof {
        if rem != 0 {
            vstd::arithmetic::div_mod::lemma_fundamental_div_mod(
                total as int,
                page_size as int,
            );
            assert(page_size >= 2);
            assert(q + 1 <= i64::MAX) by (nonlinear_arith)
                requires
                    total as int == page_size as int * (q as int) + (rem as int),
                    page_size >= 2,
                    q >= 0,
                    rem >= 0,
                    total <= i64::MAX,
            ;
        }
    }
    let total_pages = if rem != 0 {
        q + 1
    } else {
        q
    };
    DirectoryResponse { items, total, page, page_size, total_pages }
}

/// Strips the `Bearer ` scheme from an Authorization header value. `Ok`
/// exactly when the header carries the scheme; anything else is an
/// unauthorized-kind error.
pub fn extract_bearer_token(auth_header: &str) -> (r: Result<String, ApiError>)
    ensures
        r is Ok <==> seq_starts_with(auth_header@, "Bearer "@),
        r matches Ok(t) ==> t@ == auth_header@.skip("Bearer "@.len() as int),
        r matches Err(e) ==> e matches ApiError::Unauthorized(_),
{
    proof {
        reveal_strlit("Bearer ");
    }
    if !text::str_starts_with(auth_header, "Bearer ") {
        return Err(
            ApiError::Unauthorized(
                String::from_str("Invalid Authorization header format"),
            ),
        );
    }
    let n = auth_header.unicode_len();
    Ok(String::from_str(auth_header.substring_char(7, n)))
}

} // verus!
